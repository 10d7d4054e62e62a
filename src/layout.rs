use vstd::prelude::*;
use crate::note::{byte_len, text_bytes, Note, MAX_CONTENT_LEN, MAX_TITLE_LEN};

verus! {

/// Width of the type marker that opens a stored note.
pub const TAG_LEN: usize = 8;

impl Note {
    /// Size in bytes of a stored note: marker, owner, title and content each
    /// with a length prefix and room for their largest size, two timestamps,
    /// and the address discriminator.
    pub const LEN: usize = 8 + 32 + 4 + 50 + 4 + 500 + 8 + 8 + 1;
}

/// The type marker that opens a stored note.
pub open spec fn note_marker() -> Seq<u8> {
    seq![203u8, 75u8, 252u8, 196u8, 81u8, 210u8, 122u8, 126u8]
}

/// The `k` low bytes of `x`, least significant first.
pub open spec fn le_bytes(x: nat, k: nat) -> Seq<u8>
    decreases k,
{
    if k == 0 {
        Seq::empty()
    } else {
        seq![(x % 256) as u8] + le_bytes(x / 256, (k - 1) as nat)
    }
}

/// `b` followed by zeros up to `width` bytes.
pub open spec fn padded(b: Seq<u8>, width: nat) -> Seq<u8> {
    b + Seq::new((width - b.len()) as nat, |i: int| 0u8)
}

/// A text as stored: its byte length in four bytes, then its bytes padded
/// to `width`.
pub open spec fn text_field(s: Seq<char>, width: nat) -> Seq<u8> {
    le_bytes(byte_len(s), 4) + padded(text_bytes(s), width)
}

/// A timestamp as stored: eight bytes of two's complement.
pub open spec fn time_field(t: i64) -> Seq<u8> {
    le_bytes(t as u64 as nat, 8)
}

/// The stored form of a note.
pub open spec fn note_layout(n: Note) -> Seq<u8> {
    note_marker() + n.owner@ + text_field(n.title@, MAX_TITLE_LEN as nat) + text_field(
        n.content@,
        MAX_CONTENT_LEN as nat,
    ) + time_field(n.created_at) + time_field(n.updated_at) + seq![n.bump]
}

/// Appends the `k` low bytes of `x`, least significant first.
fn push_le(v: &mut Vec<u8>, x: u64, k: usize)
    ensures
        final(v)@ == old(v)@ + le_bytes(x as nat, k as nat),
{
    let mut y: u64 = x;
    let mut i: usize = 0;
    while i < k
        invariant
            i <= k,
            old(v)@ + le_bytes(x as nat, k as nat) == v@ + le_bytes(y as nat, (k - i) as nat),
        decreases k - i,
    {
        let ghost before = v@;
        v.push((y % 256) as u8);
        proof {
            let rest = le_bytes((y / 256) as nat, (k - i - 1) as nat);
            assert(le_bytes(y as nat, (k - i) as nat) == seq![(y % 256) as u8] + rest);
            assert(before + (seq![(y % 256) as u8] + rest) =~= v@ + rest);
        }
        y = y / 256;
        i = i + 1;
    }
    assert(v@ + le_bytes(y as nat, 0) =~= v@);
}

/// Appends `b` and then zeros up to `width` bytes.
fn push_padded(v: &mut Vec<u8>, b: &[u8], width: usize)
    requires
        b@.len() <= width,
    ensures
        final(v)@ == old(v)@ + padded(b@, width as nat),
{
    let mut i: usize = 0;
    while i < b.len()
        invariant
            i <= b@.len(),
            v@ == old(v)@ + b@.subrange(0, i as int),
        decreases b@.len() - i,
    {
        v.push(b[i]);
        proof {
            assert(b@.subrange(0, i + 1) =~= b@.subrange(0, i as int).push(b@[i as int]));
        }
        i = i + 1;
    }
    assert(b@.subrange(0, b@.len() as int) =~= b@);
    let mut j: usize = b.len();
    while j < width
        invariant
            b@.len() <= j <= width,
            v@ == old(v)@ + b@ + Seq::new((j - b@.len()) as nat, |i: int| 0u8),
        decreases width - j,
    {
        v.push(0u8);
        proof {
            assert(Seq::new((j + 1 - b@.len()) as nat, |i: int| 0u8) =~= Seq::new(
                (j - b@.len()) as nat,
                |i: int| 0u8,
            ).push(0u8));
        }
        j = j + 1;
    }
    assert(old(v)@ + b@ + Seq::new((width - b@.len()) as nat, |i: int| 0u8) =~= old(v)@ + padded(
        b@,
        width as nat,
    ));
}

/// Appends a text as stored.
fn push_text(v: &mut Vec<u8>, s: &String, width: usize)
    requires
        byte_len(s@) <= width,
    ensures
        final(v)@ == old(v)@ + text_field(s@, width as nat),
{
    let b = s.as_str().as_bytes();
    push_le(v, b.len() as u64, 4);
    push_padded(v, b, width);
    assert(v@ =~= old(v)@ + text_field(s@, width as nat));
}

impl Note {
    /// The stored form of the note, of `Note::LEN` bytes.
    pub fn to_bytes(&self) -> (r: Vec<u8>)
        requires
            self.wf(),
        ensures
            r@ == note_layout(*self),
            r@.len() == Note::LEN,
    {
        let mut v: Vec<u8> = Vec::new();
        v.push(203u8);
        v.push(75u8);
        v.push(252u8);
        v.push(196u8);
        v.push(81u8);
        v.push(210u8);
        v.push(122u8);
        v.push(126u8);
        assert(v@ =~= note_marker());
        let mut i: usize = 0;
        while i < 32
            invariant
                i <= 32,
                self.owner@.len() == 32,
                v@ == note_marker() + self.owner@.subrange(0, i as int),
            decreases 32 - i,
        {
            v.push(self.owner.bytes[i]);
            proof {
                assert(self.owner@.subrange(0, i + 1) =~= self.owner@.subrange(0, i as int).push(
                    self.owner@[i as int],
                ));
            }
            i = i + 1;
        }
        assert(self.owner@.subrange(0, 32) =~= self.owner@);
        push_text(&mut v, &self.title, MAX_TITLE_LEN);
        push_text(&mut v, &self.content, MAX_CONTENT_LEN);
        push_le(&mut v, self.created_at as u64, 8);
        push_le(&mut v, self.updated_at as u64, 8);
        v.push(self.bump);
        proof {
            lemma_le_bytes_len(byte_len(self.title@), 4);
            lemma_le_bytes_len(byte_len(self.content@), 4);
            lemma_le_bytes_len(self.created_at as u64 as nat, 8);
            lemma_le_bytes_len(self.updated_at as u64 as nat, 8);
            assert(v@ =~= note_layout(*self));
        }
        v
    }
}

/// `le_bytes` gives exactly `k` bytes.
pub proof fn lemma_le_bytes_len(x: nat, k: nat)
    ensures
        le_bytes(x, k).len() == k,
    decreases k,
{
    if k > 0 {
        lemma_le_bytes_len(x / 256, (k - 1) as nat);
    }
}

} // verus!
