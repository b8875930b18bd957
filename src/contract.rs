use vstd::prelude::*;

use crate::env::{admin_of, record_of, Env};
use crate::storage;
use crate::types::{Address, Client, ClientStatus, DataKey, Error, Value};

verus! {

/// What reading the administrator gives on store `s`.
pub open spec fn admin_result(s: Map<DataKey, Value>) -> Result<Address, Error> {
    match admin_of(s) {
        Some(a) => Ok(a),
        None => Err(Error::Uninitialized),
    }
}

/// The guard in front of every mutation: an administrator must be set, and
/// must be among the identities that authorized the invocation.
pub open spec fn guard(s: Map<DataKey, Value>, signers: Set<Address>) -> Result<(), Error> {
    match admin_of(s) {
        None => Err(Error::Uninitialized),
        Some(a) => if signers.contains(a) {
            Ok(())
        } else {
            Err(Error::Unauthorized)
        },
    }
}

/// The status that a flag selects.
pub open spec fn status_of(enabled: bool) -> ClientStatus {
    if enabled {
        ClientStatus::Enabled
    } else {
        ClientStatus::Disabled
    }
}

/// Outcome and next store of setting the administrator to `admin`.
pub open spec fn add_admin_step(s: Map<DataKey, Value>, admin: Address) -> (
    Result<(), Error>,
    Map<DataKey, Value>,
) {
    if admin_of(s).is_some() {
        (Err(Error::AlreadyInitialized), s)
    } else {
        (Ok(()), s.insert(DataKey::Admin, Value::Address(admin)))
    }
}

/// Outcome and next store of adding `client` with `balance`: the record is
/// created, or replaced by a fresh enabled one.
pub open spec fn add_client_step(
    s: Map<DataKey, Value>,
    signers: Set<Address>,
    client: Address,
    balance: i128,
) -> (Result<(), Error>, Map<DataKey, Value>) {
    match guard(s, signers) {
        Err(e) => (Err(e), s),
        Ok(_) => (
            Ok(()),
            s.insert(
                DataKey::Client(client),
                Value::Client(Client { balance, status: ClientStatus::Enabled }),
            ),
        ),
    }
}

/// Outcome and next store of setting the status of `client`: its balance is
/// kept.
pub open spec fn update_client_step(
    s: Map<DataKey, Value>,
    signers: Set<Address>,
    client: Address,
    enabled: bool,
) -> (Result<(), Error>, Map<DataKey, Value>) {
    match guard(s, signers) {
        Err(e) => (Err(e), s),
        Ok(_) => match record_of(s, client) {
            None => (Err(Error::ClientNotFound), s),
            Some(c) => (
                Ok(()),
                s.insert(
                    DataKey::Client(client),
                    Value::Client(Client { balance: c.balance, status: status_of(enabled) }),
                ),
            ),
        },
    }
}

/// Outcome and next store of removing `client`.
pub open spec fn remove_client_step(
    s: Map<DataKey, Value>,
    signers: Set<Address>,
    client: Address,
) -> (Result<(), Error>, Map<DataKey, Value>) {
    match guard(s, signers) {
        Err(e) => (Err(e), s),
        Ok(_) => match record_of(s, client) {
            None => (Err(Error::ClientNotFound), s),
            Some(_) => (Ok(()), s.remove(DataKey::Client(client))),
        },
    }
}

/// The registry's operations, each run against one contract instance.
pub struct Contract;

impl Contract {
    /// A greeting for `to`: the word "Hello", then `to`.
    pub fn hello(_env: &Env, to: String) -> (r: Vec<String>)
        ensures
            r@.len() == 2,
            r@[0]@ == "Hello"@,
            r@[1] == to,
    {
        vec!["Hello".to_owned(), to]
    }

    /// Sets the administrator, once: a second call is refused.
    pub fn add_admin(env: &mut Env, admin: Address) -> (r: Result<(), Error>)
        requires
            old(env).wf(),
        ensures
            final(env).wf(),
            (r, final(env).store()) == add_admin_step(old(env).store(), admin),
            final(env).signers() == old(env).signers(),
            r is Err ==> *final(env) == *old(env),
    {
        if storage::has_admin(env) {
            return Err(Error::AlreadyInitialized);
        }
        storage::write_admin(env, &admin);
        Ok(())
    }

    /// Checks that an administrator is set and has authorized the invocation.
    pub fn check_admin(env: &Env) -> (r: Result<(), Error>)
        requires
            env.wf(),
        ensures
            r == guard(env.store(), env.signers()),
    {
        if !storage::has_admin(env) {
            return Err(Error::Uninitialized);
        }
        let admin = storage::read_admin(env);
        if env.is_authorized(&admin) {
            Ok(())
        } else {
            Err(Error::Unauthorized)
        }
    }

    /// The administrator; no authorization is needed to read it.
    pub fn get_admin(env: &Env) -> (r: Result<Address, Error>)
        requires
            env.wf(),
        ensures
            r == admin_result(env.store()),
    {
        if !storage::has_admin(env) {
            return Err(Error::Uninitialized);
        }
        Ok(storage::read_admin(env))
    }

    /// Stores a fresh enabled record for `client`, replacing any earlier one.
    pub fn add_client(env: &mut Env, client: Address, balance: i128) -> (r: Result<(), Error>)
        requires
            old(env).wf(),
        ensures
            final(env).wf(),
            (r, final(env).store()) == add_client_step(
                old(env).store(),
                old(env).signers(),
                client,
                balance,
            ),
            final(env).signers() == old(env).signers(),
            r is Err ==> *final(env) == *old(env),
    {
        Self::check_admin(env)?;
        let data = Client { balance, status: ClientStatus::Enabled };
        storage::write_client(env, &client, &data);
        Ok(())
    }

    /// Enables or disables the existing record of `address`.
    pub fn update_client(env: &mut Env, address: Address, status: bool) -> (r: Result<(), Error>)
        requires
            old(env).wf(),
        ensures
            final(env).wf(),
            (r, final(env).store()) == update_client_step(
                old(env).store(),
                old(env).signers(),
                address,
                status,
            ),
            final(env).signers() == old(env).signers(),
            r is Err ==> *final(env) == *old(env),
    {
        Self::check_admin(env)?;
        if !storage::has_client(env, &address) {
            return Err(Error::ClientNotFound);
        }
        let mut client = storage::read_client(env, &address);
        if status {
            client.status = ClientStatus::Enabled;
        } else {
            client.status = ClientStatus::Disabled;
        }
        storage::write_client(env, &address, &client);
        Ok(())
    }

    /// Deletes the existing record of `client`.
    pub fn remove_client(env: &mut Env, client: Address) -> (r: Result<(), Error>)
        requires
            old(env).wf(),
        ensures
            final(env).wf(),
            (r, final(env).store()) == remove_client_step(
                old(env).store(),
                old(env).signers(),
                client,
            ),
            final(env).signers() == old(env).signers(),
            r is Err ==> *final(env) == *old(env),
    {
        Self::check_admin(env)?;
        if !storage::has_client(env, &client) {
            return Err(Error::ClientNotFound);
        }
        storage::remove_client(env, &client);
        Ok(())
    }
}

} // verus!
