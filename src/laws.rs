use vstd::prelude::*;

use crate::contract::{
    add_admin_step,
    add_client_step,
    admin_result,
    remove_client_step,
    update_client_step,
};
use crate::env::{admin_of, record_of};
use crate::types::{Address, DataKey, Error, Value};

verus! {

/// On an instance with no administrator, setting the administrator to `a`
/// succeeds; setting it again, to any `b`, is refused with
/// `AlreadyInitialized`, and reading the administrator still gives `a`.
pub proof fn lemma_admin_set_once(s: Map<DataKey, Value>, a: Address, b: Address)
    requires
        admin_of(s) is None,
    ensures
        add_admin_step(s, a).0 == Ok::<(), Error>(()),
        add_admin_step(add_admin_step(s, a).1, b).0 == Err::<(), Error>(Error::AlreadyInitialized),
        admin_result(add_admin_step(add_admin_step(s, a).1, b).1) == Ok::<Address, Error>(a),
{
}

/// Before any administrator is set, reading the administrator fails with
/// `Uninitialized`.
pub proof fn lemma_get_admin_uninitialized(s: Map<DataKey, Value>)
    requires
        admin_of(s) is None,
    ensures
        admin_result(s) == Err::<Address, Error>(Error::Uninitialized),
{
}

/// Before any administrator is set, adding, updating and removing a client
/// all fail with `Uninitialized` and leave the store unchanged.
pub proof fn lemma_mutations_uninitialized(
    s: Map<DataKey, Value>,
    signers: Set<Address>,
    client: Address,
    balance: i128,
    enabled: bool,
)
    requires
        admin_of(s) is None,
    ensures
        add_client_step(s, signers, client, balance) == (
        Err::<(), Error>(Error::Uninitialized),
        s,
        ),
        update_client_step(s, signers, client, enabled) == (
        Err::<(), Error>(Error::Uninitialized),
        s,
        ),
        remove_client_step(s, signers, client) == (Err::<(), Error>(Error::Uninitialized), s),
{
}

/// Once an administrator is set, adding, updating and removing a client
/// without the administrator's authorization all fail with `Unauthorized`
/// and leave the store unchanged.
pub proof fn lemma_mutations_unauthorized(
    s: Map<DataKey, Value>,
    signers: Set<Address>,
    client: Address,
    balance: i128,
    enabled: bool,
)
    requires
        admin_of(s) is Some,
        !signers.contains(admin_of(s).unwrap()),
    ensures
        add_client_step(s, signers, client, balance) == (
        Err::<(), Error>(Error::Unauthorized),
        s,
        ),
        update_client_step(s, signers, client, enabled) == (
        Err::<(), Error>(Error::Unauthorized),
        s,
        ),
        remove_client_step(s, signers, client) == (Err::<(), Error>(Error::Unauthorized), s),
{
}

/// With the administrator's authorization, updating or removing an identity
/// that has no record fails with `ClientNotFound` and leaves the store
/// unchanged.
pub proof fn lemma_missing_client_not_found(
    s: Map<DataKey, Value>,
    signers: Set<Address>,
    client: Address,
    enabled: bool,
)
    requires
        admin_of(s) is Some,
        signers.contains(admin_of(s).unwrap()),
        record_of(s, client) is None,
    ensures
        update_client_step(s, signers, client, enabled) == (
        Err::<(), Error>(Error::ClientNotFound),
        s,
        ),
        remove_client_step(s, signers, client) == (Err::<(), Error>(Error::ClientNotFound), s),
{
}

/// No operation changes an administrator once it is set.
pub proof fn lemma_admin_is_permanent(
    s: Map<DataKey, Value>,
    signers: Set<Address>,
    who: Address,
    client: Address,
    balance: i128,
    enabled: bool,
)
    requires
        admin_of(s) is Some,
    ensures
        admin_of(add_admin_step(s, who).1) == admin_of(s),
        admin_of(add_client_step(s, signers, client, balance).1) == admin_of(s),
        admin_of(update_client_step(s, signers, client, enabled).1) == admin_of(s),
        admin_of(remove_client_step(s, signers, client).1) == admin_of(s),
{
    assert(DataKey::Client(client) != DataKey::Admin);
}

} // verus!
