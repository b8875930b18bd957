use vstd::prelude::*;

use crate::store::Storage;
use crate::types::{Address, Client, DataKey, Value};

verus! {

/// The identities that have supplied a valid authorization proof for the
/// current invocation.
pub struct Auth {
    all: bool,
    signers: Vec<Address>,
}

impl View for Auth {
    type V = Set<Address>;

    closed spec fn view(&self) -> Set<Address> {
        Set::new(|a: Address| self.all || self.signers@.contains(a))
    }
}

impl Auth {
    /// No identity has authorized anything.
    pub fn none() -> (r: Auth)
        ensures
            r@ == Set::<Address>::empty(),
    {
        let r = Auth { all: false, signers: Vec::new() };
        assert(r@ =~= Set::<Address>::empty());
        r
    }

    /// Every identity counts as having authorized the invocation.
    pub fn all() -> (r: Auth)
        ensures
            r@ == Set::<Address>::full(),
    {
        let r = Auth { all: true, signers: Vec::new() };
        assert(r@ =~= Set::<Address>::full());
        r
    }

    /// Records that `signer` has authorized the invocation.
    pub fn add(&mut self, signer: Address)
        ensures
            final(self)@ == old(self)@.insert(signer),
    {
        self.signers.push(signer);
        assert forall|a: Address| #[trigger] final(self)@.contains(a) == old(self)@.insert(
            signer,
        ).contains(a) by {
            if old(self).signers@.contains(a) {
                let i = choose|i: int| 0 <= i < old(self).signers@.len() && old(self).signers@[i] == a;
                assert(self.signers@[i] == a);
            }
            if a == signer {
                assert(self.signers@[self.signers@.len() - 1] == a);
            }
            if self.signers@.contains(a) && a != signer {
                let i = choose|i: int| 0 <= i < self.signers@.len() && self.signers@[i] == a;
                assert(old(self).signers@[i] == a);
            }
        }
        assert(final(self)@ =~= old(self)@.insert(signer));
    }

    /// Whether `who` has authorized the invocation.
    pub fn permits(&self, who: &Address) -> (r: bool)
        ensures
            r == self@.contains(*who),
    {
        if self.all {
            return true;
        }
        let mut i: usize = 0;
        while i < self.signers.len()
            invariant
                !self.all,
                0 <= i <= self.signers@.len(),
                forall|j: int| 0 <= j < i ==> self.signers@[j] != *who,
            decreases self.signers@.len() - i,
        {
            if self.signers[i].same(who) {
                return true;
            }
            i = i + 1;
        }
        false
    }
}

/// The slot of each key holds a value of the matching kind: an identity
/// under the administrator's key, a record under a client's key.
pub open spec fn well_typed(s: Map<DataKey, Value>) -> bool {
    forall|k: DataKey| #[trigger]
        s.contains_key(k) ==> match k {
            DataKey::Admin => s[k] is Address,
            DataKey::Client(_) => s[k] is Client,
        }
}

/// The administrator recorded in the store, if one is.
pub open spec fn admin_of(s: Map<DataKey, Value>) -> Option<Address> {
    if s.contains_key(DataKey::Admin) {
        match s[DataKey::Admin] {
            Value::Address(a) => Some(a),
            Value::Client(_) => None,
        }
    } else {
        None
    }
}

/// The record of `who` in the store, if one is.
pub open spec fn record_of(s: Map<DataKey, Value>, who: Address) -> Option<Client> {
    if s.contains_key(DataKey::Client(who)) {
        match s[DataKey::Client(who)] {
            Value::Client(c) => Some(c),
            Value::Address(_) => None,
        }
    } else {
        None
    }
}

/// The context of one contract instance: its persistent store, and the
/// identities that have authorized the current invocation.
pub struct Env {
    pub(crate) storage: Storage,
    pub(crate) auth: Auth,
}

impl Env {
    pub open(crate) spec fn wf(&self) -> bool {
        self.storage.wf() && well_typed(self.storage@)
    }

    /// The contents of the persistent store.
    pub open(crate) spec fn store(&self) -> Map<DataKey, Value> {
        self.storage@
    }

    /// The identities that have authorized the current invocation.
    pub open(crate) spec fn signers(&self) -> Set<Address> {
        self.auth@
    }

    /// A fresh instance: an empty store, and no authorization.
    pub fn new() -> (r: Env)
        ensures
            r.wf(),
            r.store() == Map::<DataKey, Value>::empty(),
            r.signers() == Set::<Address>::empty(),
    {
        Env { storage: Storage::new(), auth: Auth::none() }
    }

    /// Replaces the authorizations of the invocation; the store is kept.
    pub fn set_auth(&mut self, auth: Auth)
        requires
            old(self).wf(),
        ensures
            final(self).wf(),
            final(self).store() == old(self).store(),
            final(self).signers() == auth@,
    {
        self.auth = auth;
    }

    /// Lets every identity count as having authorized the invocation.
    pub fn mock_all_auths(&mut self)
        requires
            old(self).wf(),
        ensures
            final(self).wf(),
            final(self).store() == old(self).store(),
            final(self).signers() == Set::<Address>::full(),
    {
        self.auth = Auth::all();
    }

    /// Records that `signer` has authorized the invocation.
    pub fn authorize(&mut self, signer: Address)
        requires
            old(self).wf(),
        ensures
            final(self).wf(),
            final(self).store() == old(self).store(),
            final(self).signers() == old(self).signers().insert(signer),
    {
        self.auth.add(signer);
    }

    /// Whether `who` has authorized the invocation.
    pub fn is_authorized(&self, who: &Address) -> (r: bool)
        ensures
            r == self.signers().contains(*who),
    {
        self.auth.permits(who)
    }
}

} // verus!
