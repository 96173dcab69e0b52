//! Wiping secrets out of buffers before they are dropped.
use vstd::prelude::*;

use zeroize::Zeroize;

verus! {

/// Overwrites a buffer's content so that no old secret stays behind, and
/// leaves it empty.
pub trait Scrambler {
    fn scramble(&mut self);
}

/// zeroize's `Zeroize::zeroize` on a byte vector: it zeroes the spare capacity
/// and every byte, then clears the vector, so the vector is left empty. That the
/// memory was overwritten is a fact about memory that this contract does not
/// state.
#[verifier::external_body]
fn zeroize_bytes(v: &mut Vec<u8>)
    ensures
        final(v)@ == Seq::<u8>::empty(),
{
    v.zeroize();
}

/// zeroize's `Zeroize::zeroize` on a `String`: it zeroizes the underlying byte
/// vector, which clears it, so the string is left empty. That the memory was
/// overwritten is a fact about memory that this contract does not state.
#[verifier::external_body]
fn zeroize_string(s: &mut String)
    ensures
        final(s)@ == Seq::<char>::empty(),
{
    s.zeroize();
}

impl Scrambler for Vec<u8> {
    fn scramble(&mut self)
        ensures
            final(self)@ == Seq::<u8>::empty(),
    {
        zeroize_bytes(self);
    }
}

impl Scrambler for String {
    fn scramble(&mut self)
        ensures
            final(self)@ == Seq::<char>::empty(),
    {
        zeroize_string(self);
    }
}

} // verus!
