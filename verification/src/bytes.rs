//! Byte-level helpers: comparison and copying of byte strings, the
//! big-endian rendering of numeric ids used as derivation seeds, and the
//! decimal rendering used in token names.

use vstd::prelude::*;

verus! {

/// Compare two byte strings for equality of contents.
pub fn bytes_eq(a: &Vec<u8>, b: &Vec<u8>) -> (r: bool)
    ensures
        r == (a@ == b@),
{
    if a.len() != b.len() {
        assert(a@ != b@);
        return false;
    }
    let n = a.len();
    let mut i: usize = 0;
    while i < n
        invariant
            n == a@.len() && n == b@.len(),
            0 <= i <= n,
            forall|k: int| 0 <= k < i ==> a@[k] == b@[k],
        decreases n - i,
    {
        if a[i] != b[i] {
            assert(a@ != b@);
            return false;
        }
        i += 1;
    }
    assert(a@ =~= b@);
    true
}

/// Copy a byte string.
pub fn copy_bytes(v: &Vec<u8>) -> (r: Vec<u8>)
    ensures
        r@ == v@,
{
    let n = v.len();
    let mut r: Vec<u8> = Vec::new();
    let mut i: usize = 0;
    while i < n
        invariant
            n == v@.len(),
            0 <= i <= n,
            r@ == v@.take(i as int),
        decreases n - i,
    {
        r.push(v[i]);
        assert(r@ =~= v@.take(i as int + 1));
        i += 1;
    }
    assert(r@ =~= v@);
    r
}

/// A zeroed buffer of `n` bytes.
pub fn zeroed(n: usize) -> (r: Vec<u8>)
    ensures
        r@.len() == n,
        forall|k: int| 0 <= k < n ==> r@[k] == 0u8,
{
    let mut r: Vec<u8> = Vec::new();
    let mut i: usize = 0;
    while i < n
        invariant
            0 <= i <= n,
            r@.len() == i,
            forall|k: int| 0 <= k < i ==> r@[k] == 0u8,
        decreases n - i,
    {
        r.push(0);
        i += 1;
    }
    r
}

/// The eight bytes of `x`, most significant first.
pub open spec fn spec_be64(x: u64) -> Seq<u8> {
    seq![
        (x >> 56) as u8,
        (x >> 48) as u8,
        (x >> 40) as u8,
        (x >> 32) as u8,
        (x >> 24) as u8,
        (x >> 16) as u8,
        (x >> 8) as u8,
        x as u8,
    ]
}

/// Render `x` in big-endian byte order, so that lexicographic order of the
/// rendering coincides with numeric order of the id.
pub fn be64(x: u64) -> (r: Vec<u8>)
    ensures
        r@ == spec_be64(x),
        r@.len() == 8,
{
    let mut r: Vec<u8> = Vec::new();
    r.push(#[verifier::truncate] ((x >> 56) as u8));
    r.push(#[verifier::truncate] ((x >> 48) as u8));
    r.push(#[verifier::truncate] ((x >> 40) as u8));
    r.push(#[verifier::truncate] ((x >> 32) as u8));
    r.push(#[verifier::truncate] ((x >> 24) as u8));
    r.push(#[verifier::truncate] ((x >> 16) as u8));
    r.push(#[verifier::truncate] ((x >> 8) as u8));
    r.push(#[verifier::truncate] (x as u8));
    assert(r@ =~= spec_be64(x));
    r
}

/// The big-endian rendering separates ids: two ids with the same eight
/// bytes are the same id, so distinct ids never share a derivation seed.
pub proof fn lemma_be64_injective(x: u64, y: u64)
    requires
        spec_be64(x) == spec_be64(y),
    ensures
        x == y,
{
    assert(spec_be64(x)[0] == spec_be64(y)[0]);
    assert(spec_be64(x)[1] == spec_be64(y)[1]);
    assert(spec_be64(x)[2] == spec_be64(y)[2]);
    assert(spec_be64(x)[3] == spec_be64(y)[3]);
    assert(spec_be64(x)[4] == spec_be64(y)[4]);
    assert(spec_be64(x)[5] == spec_be64(y)[5]);
    assert(spec_be64(x)[6] == spec_be64(y)[6]);
    assert(spec_be64(x)[7] == spec_be64(y)[7]);
    assert((x >> 56) as u8 == (y >> 56) as u8 && (x >> 48) as u8 == (y >> 48) as u8 && (x >> 40)
        as u8 == (y >> 40) as u8 && (x >> 32) as u8 == (y >> 32) as u8 && (x >> 24) as u8 == (y
        >> 24) as u8 && (x >> 16) as u8 == (y >> 16) as u8 && (x >> 8) as u8 == (y >> 8) as u8
        && x as u8 == y as u8 ==> x == y) by (bit_vector);
}

/// The decimal digits of `x` in ASCII, most significant first.
pub open spec fn spec_dec(x: u64) -> Seq<u8>
    decreases x,
{
    if x < 10 {
        seq![(48 + x) as u8]
    } else {
        spec_dec(x / 10).push((48 + x % 10) as u8)
    }
}

/// Append the decimal rendering of `x` to `out`.
pub fn push_dec(x: u64, out: &mut Vec<u8>)
    ensures
        final(out)@ == old(out)@ + spec_dec(x),
    decreases x,
{
    if x < 10 {
        out.push(48 + x as u8);
        assert(out@ =~= old(out)@ + spec_dec(x));
    } else {
        push_dec(x / 10, out);
        out.push(48 + (x % 10) as u8);
        assert(out@ =~= old(out)@ + spec_dec(x));
    }
}

} // verus!
