//! Verified helpers on byte vectors: copying, appending, comparing, and the
//! nul-byte predicates that decide whether a string can cross the host ABI.

use vstd::prelude::*;

verus! {

/// No byte of `s` is nul.
pub open spec fn nul_free(s: Seq<u8>) -> bool {
    forall|i: int| 0 <= i < s.len() ==> s[i] != 0
}

/// No byte of `s` before the last position is nul. Exactly the strings that
/// convert to a nul-terminated host string: either they hold no nul at all
/// (one is appended) or their only nul is the final byte (kept as is).
pub open spec fn nul_free_interior(s: Seq<u8>) -> bool {
    forall|i: int| 0 <= i < s.len() - 1 ==> s[i] != 0
}

/// `s` as the host ABI wants it: terminated by exactly one nul byte.
pub open spec fn nul_terminated(s: Seq<u8>) -> Seq<u8> {
    if s.len() > 0 && s[s.len() - 1] == 0 {
        s
    } else {
        s.push(0)
    }
}

/// Copy a byte vector.
pub fn copy_bytes(src: &Vec<u8>) -> (r: Vec<u8>)
    ensures
        r@ == src@,
{
    let mut r: Vec<u8> = Vec::new();
    let mut i: usize = 0;
    while i < src.len()
        invariant
            i <= src.len(),
            r@ == src@.take(i as int),
        decreases src.len() - i,
    {
        r.push(src[i]);
        assert(src@.take(i as int).push(src@[i as int]) =~= src@.take(i + 1));
        i = i + 1;
    }
    assert(src@.take(src@.len() as int) =~= src@);
    r
}

/// Append the bytes of `src` to `dst`.
pub fn append_bytes(dst: &mut Vec<u8>, src: &Vec<u8>)
    ensures
        final(dst)@ == old(dst)@ + src@,
{
    let ghost dst0 = dst@;
    let mut i: usize = 0;
    while i < src.len()
        invariant
            i <= src.len(),
            dst@ == dst0 + src@.take(i as int),
        decreases src.len() - i,
    {
        dst.push(src[i]);
        assert((dst0 + src@.take(i as int)).push(src@[i as int]) =~= dst0 + src@.take(i + 1));
        i = i + 1;
    }
    assert(dst0 + src@.take(src@.len() as int) =~= dst0 + src@);
}

/// Whether two byte vectors hold the same bytes.
pub fn bytes_eq(a: &Vec<u8>, b: &Vec<u8>) -> (r: bool)
    ensures
        r == (a@ == b@),
{
    if a.len() != b.len() {
        assert(a@ != b@) by {
            assert(a@.len() != b@.len());
        }
        return false;
    }
    let mut i: usize = 0;
    while i < a.len()
        invariant
            a.len() == b.len(),
            i <= a.len(),
            forall|j: int| 0 <= j < i ==> a@[j] == b@[j],
        decreases a.len() - i,
    {
        if a[i] != b[i] {
            return false;
        }
        i = i + 1;
    }
    assert(a@ =~= b@);
    true
}

/// Whether `v` holds no nul byte.
pub fn bytes_nul_free(v: &Vec<u8>) -> (r: bool)
    ensures
        r == nul_free(v@),
{
    let mut i: usize = 0;
    while i < v.len()
        invariant
            i <= v.len(),
            forall|j: int| 0 <= j < i ==> v@[j] != 0,
        decreases v.len() - i,
    {
        if v[i] == 0 {
            return false;
        }
        i = i + 1;
    }
    true
}

/// Whether `v` holds no nul byte before its last position.
pub fn bytes_nul_free_interior(v: &Vec<u8>) -> (r: bool)
    ensures
        r == nul_free_interior(v@),
{
    if v.len() == 0 {
        return true;
    }
    let mut i: usize = 0;
    while i < v.len() - 1
        invariant
            v.len() > 0,
            i <= v.len() - 1,
            forall|j: int| 0 <= j < i ==> v@[j] != 0,
        decreases v.len() - i,
    {
        if v[i] == 0 {
            return false;
        }
        i = i + 1;
    }
    true
}

/// Copy `src` into the form the host ABI reads: terminated by exactly one
/// nul byte, which is appended unless `src` already ends in one.
pub fn to_c_string(src: &Vec<u8>) -> (r: Vec<u8>)
    requires
        nul_free_interior(src@),
    ensures
        r@ == nul_terminated(src@),
{
    let mut r = copy_bytes(src);
    if r.len() == 0 || r[r.len() - 1] != 0 {
        r.push(0);
    }
    r
}

} // verus!
