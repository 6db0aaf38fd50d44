//! 32-byte keys and byte-string helpers.

use vstd::prelude::*;

verus! {

/// `a` orders strictly before `b`, comparing byte by byte from the front.
pub open spec fn lex_lt(a: Seq<u8>, b: Seq<u8>) -> bool {
    exists|k: int|
        0 <= k < a.len() && k < b.len() && #[trigger] a[k] < b[k] && forall|j: int|
            0 <= j < k ==> a[j] == b[j]
}

/// Whether two keys hold the same bytes.
pub fn keys_equal(a: &[u8; 32], b: &[u8; 32]) -> (r: bool)
    ensures
        r == (a@ == b@),
{
    let mut i: usize = 0;
    while i < 32
        invariant
            0 <= i <= 32,
            a@.len() == 32,
            b@.len() == 32,
            forall|j: int| 0 <= j < i ==> a@[j] == b@[j],
        decreases 32 - i,
    {
        if a[i] != b[i] {
            return false;
        }
        i += 1;
    }
    assert(a@ =~= b@);
    true
}

/// Whether `a` orders strictly before `b`, as `<` does on byte arrays.
pub fn key_less(a: &[u8; 32], b: &[u8; 32]) -> (r: bool)
    ensures
        r == lex_lt(a@, b@),
{
    let mut i: usize = 0;
    while i < 32
        invariant
            0 <= i <= 32,
            a@.len() == 32,
            b@.len() == 32,
            forall|j: int| 0 <= j < i ==> a@[j] == b@[j],
        decreases 32 - i,
    {
        if a[i] != b[i] {
            if a[i] < b[i] {
                assert(a@[i as int] < b@[i as int]);
                return true;
            } else {
                assert forall|k: int|
                    0 <= k < a@.len() && k < b@.len() && #[trigger] a@[k] < b@[k] implies !(
                    forall|j: int| 0 <= j < k ==> a@[j] == b@[j]) by {
                    if k > i {
                        assert(a@[i as int] == b@[i as int] ==> false);
                    }
                }
                return false;
            }
        }
        i += 1;
    }
    false
}

/// The 32 bytes of `data` that start at `start`.
pub fn read_key(data: &[u8], start: usize) -> (r: [u8; 32])
    requires
        start + 32 <= data@.len(),
    ensures
        r@ == data@.subrange(start as int, start + 32),
{
    let mut out: [u8; 32] = [0u8; 32];
    let len: usize = data.len();
    let mut i: usize = 0;
    while i < 32
        invariant
            0 <= i <= 32,
            len == data@.len(),
            start + 32 <= data@.len(),
            out@.len() == 32,
            forall|j: int| 0 <= j < i ==> out@[j] == data@[start + j],
        decreases 32 - i,
    {
        out[i] = data[start + i];
        i += 1;
    }
    assert(out@ =~= data@.subrange(start as int, start + 32));
    out
}

/// Appends `bytes` to `out`.
pub fn push_all(out: &mut Vec<u8>, bytes: &[u8])
    ensures
        final(out)@ == old(out)@ + bytes@,
{
    let mut i: usize = 0;
    while i < bytes.len()
        invariant
            0 <= i <= bytes@.len(),
            out@ == old(out)@ + bytes@.subrange(0, i as int),
        decreases bytes@.len() - i,
    {
        out.push(bytes[i]);
        i += 1;
        assert(bytes@.subrange(0, i as int) =~= bytes@.subrange(0, i - 1).push(bytes@[i - 1]));
    }
    assert(bytes@.subrange(0, bytes@.len() as int) =~= bytes@);
}

/// A tag byte followed by `payload`.
pub fn tagged(tag: u8, payload: &[u8]) -> (r: Vec<u8>)
    ensures
        r@ == seq![tag] + payload@,
{
    let mut out: Vec<u8> = Vec::new();
    out.push(tag);
    push_all(&mut out, payload);
    out
}

} // verus!
