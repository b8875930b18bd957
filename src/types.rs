use vstd::prelude::*;

verus! {

broadcast use vstd::array::group_array_axioms;

/// An account or contract identity: the 32-byte public key of an account,
/// or the 32-byte hash of a contract.
#[derive(Clone, Copy, PartialEq, Eq, Debug)]
pub enum Address {
    Account([u8; 32]),
    Contract([u8; 32]),
}

impl Address {
    /// Whether two identities are the same.
    pub fn same(&self, other: &Address) -> (r: bool)
        ensures
            r == (*self == *other),
    {
        match (self, other) {
            (Address::Account(a), Address::Account(b)) => bytes_equal(a, b),
            (Address::Contract(a), Address::Contract(b)) => bytes_equal(a, b),
            _ => false,
        }
    }
}

fn bytes_equal(a: &[u8; 32], b: &[u8; 32]) -> (r: bool)
    ensures
        r == (*a == *b),
{
    let mut i: usize = 0;
    while i < 32
        invariant
            0 <= i <= 32,
            forall|j: int| 0 <= j < i ==> a[j] == b[j],
        decreases 32 - i,
    {
        if a[i] != b[i] {
            return false;
        }
        i = i + 1;
    }
    assert(*a =~= *b);
    true
}

/// Whether a client may currently operate.
#[derive(Clone, Copy, PartialEq, Eq, Debug, Structural)]
pub enum ClientStatus {
    Enabled,
    Disabled,
}

/// The record kept for each client.
#[derive(Clone, Copy, PartialEq, Eq, Debug, Structural)]
pub struct Client {
    pub balance: i128,
    pub status: ClientStatus,
}

/// The keys of the store: the administrator's slot, and one slot per client.
#[derive(Clone, Copy, PartialEq, Eq, Debug)]
pub enum DataKey {
    Admin,
    Client(Address),
}

impl DataKey {
    /// Whether two keys address the same slot.
    pub fn same(&self, other: &DataKey) -> (r: bool)
        ensures
            r == (*self == *other),
    {
        match (self, other) {
            (DataKey::Admin, DataKey::Admin) => true,
            (DataKey::Client(a), DataKey::Client(b)) => a.same(b),
            _ => false,
        }
    }
}

/// What a slot of the store holds: an identity in the administrator's slot,
/// a record in a client's slot.
#[derive(Clone, Copy, PartialEq, Eq, Debug)]
pub enum Value {
    Address(Address),
    Client(Client),
}

/// Why an operation was refused. A refused operation leaves the store as it
/// was.
#[derive(Clone, Copy, PartialEq, Eq, Debug, Structural)]
pub enum Error {
    /// The administrator was already set.
    AlreadyInitialized,
    /// No administrator has been set.
    Uninitialized,
    /// The administrator did not authorize the operation.
    Unauthorized,
    /// No record exists for the client.
    ClientNotFound,
}

} // verus!
