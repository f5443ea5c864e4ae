//! The raw input of a fuzzer, and how a `bool` is drawn from it.
use arbitrary::{Arbitrary, Error, Unstructured};
use vstd::prelude::*;

verus! {

/// `arbitrary::Unstructured`, a cursor over the bytes that a fuzzer supplied.
#[verifier::external_type_specification]
#[verifier::external_body]
pub struct ExUnstructured<'a>(Unstructured<'a>);

/// `arbitrary::Error`, why a value could not be drawn. It is only passed on.
#[verifier::external_type_specification]
#[verifier::external_body]
pub struct ExError(Error);

/// The bytes that `u` has not handed out yet, in the order in which it will.
pub uninterp spec fn remaining(u: Unstructured<'_>) -> Seq<u8>;

/// The `bool` drawn from `bytes`: the lowest bit of the first byte, or `false` where there is
/// none.
pub open spec fn next_bool(bytes: Seq<u8>) -> bool {
    bytes.len() > 0 && bytes[0] % 2 == 1
}

/// What is left of `bytes` once a `bool` was drawn from them.
pub open spec fn after_bool(bytes: Seq<u8>) -> Seq<u8> {
    if bytes.len() > 0 {
        bytes.drop_first()
    } else {
        bytes
    }
}

/// Calls `<bool as arbitrary::Arbitrary>::arbitrary`.
///
/// Trusted: the call never fails. It takes one byte and gives its lowest bit; where no byte is
/// left it gives `false` and takes nothing.
#[verifier::external_body]
pub(crate) fn arbitrary_bool(u: &mut Unstructured<'_>) -> (drawn: Result<bool, Error>)
    ensures
        drawn == Ok::<bool, Error>(next_bool(remaining(*old(u)))),
        remaining(*final(u)) == after_bool(remaining(*old(u))),
{
    bool::arbitrary(u)
}

} // verus!
