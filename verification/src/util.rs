//! Small helpers shared across the crate.

use vstd::prelude::*;
use vstd::string::StrSliceExecFns;

verus! {

/// A plain newtype that marks a value as mirroring a vendor-defined layout.
#[derive(Debug, Clone, Copy)]
pub struct Wrapper<T>(pub T);

/// Whether every bit of `b` is set in `a`.
pub fn bit_is_set(a: u32, b: u32) -> (r: bool)
    ensures
        r == ((a & b) == b),
{
    (a & b) == b
}

/// Whether two string slices hold the same characters.
pub fn str_eq(a: &str, b: &str) -> (r: bool)
    ensures
        r == (a@ == b@),
{
    let n = a.unicode_len();
    if n != b.unicode_len() {
        return false;
    }
    let mut i: usize = 0;
    while i < n
        invariant
            i <= n,
            n as nat == a@.len(),
            n as nat == b@.len(),
            forall|j: int| 0 <= j < i ==> a@[j] == b@[j],
        decreases n - i,
    {
        if a.get_char(i) != b.get_char(i) {
            return false;
        }
        i += 1;
    }
    proof {
        assert(a@ =~= b@);
    }
    true
}

/// The first `M` cells of a fixed C `char` array, reinterpreted as bytes.
pub fn addr_from_arr<const N: usize, const M: usize>(a: [i8; N], _n: usize) -> (r: Vec<u8>)
    requires
        M <= N,
    ensures
        r@.len() == M,
        forall|i: int| 0 <= i < M ==> r@[i] == a@[i] as u8,
{
    let mut out: Vec<u8> = Vec::new();
    let mut i: usize = 0;
    while i < M
        invariant
            i <= M,
            M <= N,
            out@.len() == i,
            forall|j: int| 0 <= j < i ==> out@[j] == a@[j] as u8,
        decreases M - i,
    {
        let x = a[i];
        out.push(#[verifier::truncate] (x as u8));
        i += 1;
    }
    out
}

} // verus!
