use vstd::prelude::*;
use vstd::utf8::{decode_utf8, encode_utf8_decode_utf8};
use crate::note::text_bytes;
use crate::pubkey::Pubkey;

verus! {

/// The domain tag that every note address starts with.
pub open spec fn note_tag() -> Seq<u8> {
    seq![110u8, 111u8, 116u8, 101u8]
}

/// The storage address of the note that `owner` holds under `title`: the
/// domain tag, the owner's bytes, then the title's bytes.
pub open spec fn address_of(owner: Seq<u8>, title: Seq<char>) -> Seq<u8> {
    note_tag() + owner + text_bytes(title)
}

/// Distinct owners, or distinct titles, never share an address.
pub proof fn lemma_address_injective(o1: Seq<u8>, t1: Seq<char>, o2: Seq<u8>, t2: Seq<char>)
    requires
        o1.len() == 32,
        o2.len() == 32,
        address_of(o1, t1) == address_of(o2, t2),
    ensures
        o1 == o2,
        t1 == t2,
{
    let a = address_of(o1, t1);
    assert(a.subrange(4, 36) =~= o1);
    assert(address_of(o2, t2).subrange(4, 36) =~= o2);
    assert(a.subrange(36, a.len() as int) =~= text_bytes(t1));
    assert(address_of(o2, t2).subrange(36, a.len() as int) =~= text_bytes(t2));
    encode_utf8_decode_utf8(t1);
    encode_utf8_decode_utf8(t2);
    assert(decode_utf8(text_bytes(t1)) == decode_utf8(text_bytes(t2)));
}

/// Derives the storage address of the note that `owner` holds under `title`.
pub fn note_address(owner: &Pubkey, title: &String) -> (r: Vec<u8>)
    ensures
        r@ == address_of(owner@, title@),
{
    let mut r: Vec<u8> = Vec::new();
    r.push(110u8);
    r.push(111u8);
    r.push(116u8);
    r.push(101u8);
    let mut i: usize = 0;
    while i < 32
        invariant
            i <= 32,
            owner@.len() == 32,
            r@ == note_tag() + owner@.subrange(0, i as int),
        decreases 32 - i,
    {
        r.push(owner.bytes[i]);
        proof {
            assert(owner@.subrange(0, i + 1) =~= owner@.subrange(0, i as int).push(owner@[i as int]));
        }
        i = i + 1;
    }
    assert(owner@.subrange(0, 32) =~= owner@);
    let t = title.as_str().as_bytes();
    let mut k: usize = 0;
    while k < t.len()
        invariant
            k <= t@.len(),
            t@ == text_bytes(title@),
            r@ == note_tag() + owner@ + t@.subrange(0, k as int),
        decreases t@.len() - k,
    {
        r.push(t[k]);
        proof {
            assert(t@.subrange(0, k + 1) =~= t@.subrange(0, k as int).push(t@[k as int]));
        }
        k = k + 1;
    }
    assert(t@.subrange(0, t@.len() as int) =~= t@);
    r
}

/// Whether two byte strings are equal.
pub fn same_bytes(a: &Vec<u8>, b: &Vec<u8>) -> (r: bool)
    ensures
        r == (a@ == b@),
{
    if a.len() != b.len() {
        return false;
    }
    let mut i: usize = 0;
    while i < a.len()
        invariant
            i <= a@.len(),
            a@.len() == b@.len(),
            forall|j: int| 0 <= j < i ==> a@[j] == b@[j],
        decreases a@.len() - i,
    {
        if a[i] != b[i] {
            return false;
        }
        i = i + 1;
    }
    assert(a@ =~= b@);
    true
}

} // verus!
