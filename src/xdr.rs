//! The XDR encoding of an identity, as the host serialises an address value.

use vstd::prelude::*;

use crate::types::Address;

verus! {

broadcast use vstd::array::group_array_axioms;

/// The bytes that open the encoding of an account: the value tag of an
/// address, the account arm, the ed25519 key arm, each a big-endian `u32`.
pub open spec fn account_header() -> Seq<u8> {
    seq![0u8, 0, 0, 18, 0, 0, 0, 0, 0, 0, 0, 0]
}

/// The bytes that open the encoding of a contract: the value tag of an
/// address and the contract arm.
pub open spec fn contract_header() -> Seq<u8> {
    seq![0u8, 0, 0, 18, 0, 0, 0, 1]
}

/// The encoding of `a`: its header, then its 32 bytes.
pub open spec fn address_xdr(a: Address) -> Seq<u8> {
    match a {
        Address::Account(k) => account_header() + k@,
        Address::Contract(h) => contract_header() + h@,
    }
}

fn header(which: u8, with_key_arm: bool) -> (r: Vec<u8>)
    requires
        which <= 1,
    ensures
        with_key_arm && which == 0 ==> r@ == account_header(),
        !with_key_arm && which == 1 ==> r@ == contract_header(),
{
    let mut r: Vec<u8> = vec![0u8, 0, 0, 18, 0, 0, 0, which];
    if with_key_arm {
        r.push(0);
        r.push(0);
        r.push(0);
        r.push(0);
    }
    assert(with_key_arm && which == 0 ==> r@ =~= account_header());
    assert(!with_key_arm && which == 1 ==> r@ =~= contract_header());
    r
}

fn append_key(out: &mut Vec<u8>, key: &[u8; 32])
    ensures
        final(out)@ == old(out)@ + key@,
{
    let mut i: usize = 0;
    while i < 32
        invariant
            0 <= i <= 32,
            out@ == old(out)@ + key@.subrange(0, i as int),
        decreases 32 - i,
    {
        out.push(key[i]);
        assert(key@.subrange(0, i + 1) =~= key@.subrange(0, i as int).push(key[i as int]));
        i = i + 1;
    }
    assert(key@.subrange(0, 32) =~= key@);
}

fn read_key(b: &[u8], start: usize) -> (r: [u8; 32])
    requires
        start + 32 == b@.len(),
    ensures
        r@ == b@.subrange(start as int, b@.len() as int),
{
    let mut key = [0u8; 32];
    let n = b.len();
    let mut i: usize = 0;
    while i < 32
        invariant
            0 <= i <= 32,
            start + 32 == n,
            n == b@.len(),
            forall|j: int| 0 <= j < i ==> key[j] == b@[start + j],
        decreases 32 - i,
    {
        key[i] = b[start + i];
        i = i + 1;
    }
    assert(key@ =~= b@.subrange(start as int, b@.len() as int));
    key
}

fn starts_with(b: &[u8], prefix: &Vec<u8>) -> (r: bool)
    requires
        prefix@.len() <= b@.len(),
    ensures
        r == (b@.subrange(0, prefix@.len() as int) == prefix@),
{
    let mut i: usize = 0;
    while i < prefix.len()
        invariant
            prefix@.len() <= b@.len(),
            0 <= i <= prefix@.len(),
            forall|j: int| 0 <= j < i ==> b@[j] == prefix@[j],
        decreases prefix@.len() - i,
    {
        if b[i] != prefix[i] {
            assert(b@.subrange(0, prefix@.len() as int)[i as int] != prefix@[i as int]);
            return false;
        }
        i = i + 1;
    }
    assert(b@.subrange(0, prefix@.len() as int) =~= prefix@);
    true
}

impl Address {
    /// The encoding of this identity.
    pub fn to_xdr(&self) -> (r: Vec<u8>)
        ensures
            r@ == address_xdr(*self),
    {
        match self {
            Address::Account(k) => {
                let mut r = header(0, true);
                append_key(&mut r, k);
                r
            },
            Address::Contract(h) => {
                let mut r = header(1, false);
                append_key(&mut r, h);
                r
            },
        }
    }

    /// The identity that `b` encodes, or `None` where `b` encodes none.
    pub fn from_xdr(b: &[u8]) -> (r: Option<Address>)
        ensures
            match r {
                Some(a) => address_xdr(a) == b@,
                None => forall|a: Address| address_xdr(a) != b@,
            },
    {
        if b.len() == 44 {
            let head = header(0, true);
            if starts_with(b, &head) {
                let key = read_key(b, 12);
                assert(address_xdr(Address::Account(key)) =~= b@);
                return Some(Address::Account(key));
            }
            assert forall|a: Address| address_xdr(a) != b@ by {
                if address_xdr(a) == b@ {
                    assert(b@.subrange(0, 12) =~= account_header());
                }
            }
        } else if b.len() == 40 {
            let head = header(1, false);
            if starts_with(b, &head) {
                let key = read_key(b, 8);
                assert(address_xdr(Address::Contract(key)) =~= b@);
                return Some(Address::Contract(key));
            }
            assert forall|a: Address| address_xdr(a) != b@ by {
                if address_xdr(a) == b@ {
                    assert(b@.subrange(0, 8) =~= contract_header());
                }
            }
        }
        None
    }
}

/// Distinct identities have distinct encodings, so decoding the encoding of
/// an identity gives that identity back.
pub proof fn lemma_xdr_injective(a: Address, c: Address)
    requires
        address_xdr(a) == address_xdr(c),
    ensures
        a == c,
{
    match (a, c) {
        (Address::Account(x), Address::Account(y)) => {
            assert(x@ =~= address_xdr(a).subrange(12, 44));
            assert(y@ =~= address_xdr(c).subrange(12, 44));
            assert(x =~= y);
        },
        (Address::Contract(x), Address::Contract(y)) => {
            assert(x@ =~= address_xdr(a).subrange(8, 40));
            assert(y@ =~= address_xdr(c).subrange(8, 40));
            assert(x =~= y);
        },
        (Address::Account(x), Address::Contract(y)) => {
            assert(x@.len() == 32 && y@.len() == 32);
            assert(address_xdr(a).len() == account_header().len() + 32);
            assert(address_xdr(c).len() == contract_header().len() + 32);
        },
        (Address::Contract(x), Address::Account(y)) => {
            assert(x@.len() == 32 && y@.len() == 32);
            assert(address_xdr(a).len() == contract_header().len() + 32);
            assert(address_xdr(c).len() == account_header().len() + 32);
        },
    }
}

} // verus!
