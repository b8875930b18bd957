use vstd::prelude::*;

use crate::env::{admin_of, record_of, well_typed, Env};
use crate::types::{Address, Client, DataKey, Value};

verus! {

/// Whether an administrator has been recorded.
pub fn has_admin(env: &Env) -> (r: bool)
    requires
        env.wf(),
    ensures
        r == env.store().contains_key(DataKey::Admin),
        r == admin_of(env.store()).is_some(),
{
    env.storage.has(&DataKey::Admin)
}

/// The recorded administrator.
pub fn read_admin(env: &Env) -> (r: Address)
    requires
        env.wf(),
        env.store().contains_key(DataKey::Admin),
    ensures
        admin_of(env.store()) == Some(r),
{
    match env.storage.get(&DataKey::Admin) {
        Some(Value::Address(a)) => a,
        _ => vstd::pervasive::unreached(),
    }
}

/// Records `admin` as the administrator, replacing what was there.
pub fn write_admin(env: &mut Env, admin: &Address)
    requires
        old(env).wf(),
    ensures
        final(env).wf(),
        final(env).store() == old(env).store().insert(DataKey::Admin, Value::Address(*admin)),
        final(env).signers() == old(env).signers(),
{
    env.storage.set(DataKey::Admin, Value::Address(*admin));
    assert(well_typed(env.storage@));
}

/// Whether a record exists for `client`.
pub fn has_client(env: &Env, client: &Address) -> (r: bool)
    requires
        env.wf(),
    ensures
        r == env.store().contains_key(DataKey::Client(*client)),
        r == record_of(env.store(), *client).is_some(),
{
    env.storage.has(&DataKey::Client(*client))
}

/// The record of `client`.
pub fn read_client(env: &Env, client: &Address) -> (r: Client)
    requires
        env.wf(),
        env.store().contains_key(DataKey::Client(*client)),
    ensures
        record_of(env.store(), *client) == Some(r),
{
    match env.storage.get(&DataKey::Client(*client)) {
        Some(Value::Client(c)) => c,
        _ => vstd::pervasive::unreached(),
    }
}

/// Stores `data` as the whole record of `client`, replacing what was there.
pub fn write_client(env: &mut Env, client: &Address, data: &Client)
    requires
        old(env).wf(),
    ensures
        final(env).wf(),
        final(env).store() == old(env).store().insert(
            DataKey::Client(*client),
            Value::Client(*data),
        ),
        final(env).signers() == old(env).signers(),
{
    env.storage.set(DataKey::Client(*client), Value::Client(*data));
    assert(well_typed(env.storage@));
}

/// Deletes the record of `client`, if there is one.
pub fn remove_client(env: &mut Env, client: &Address)
    requires
        old(env).wf(),
    ensures
        final(env).wf(),
        final(env).store() == old(env).store().remove(DataKey::Client(*client)),
        final(env).signers() == old(env).signers(),
{
    env.storage.remove(&DataKey::Client(*client));
    assert(well_typed(env.storage@));
}

} // verus!
