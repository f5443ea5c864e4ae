//! Fuzzing harness for the `ion` register allocator.
//!
//! A [`TestCase`](test_case::TestCase) is drawn from raw fuzzer input; [`check`](check::check)
//! puts it through the allocator and the allocation checker. The harness is generic in the
//! function under test, in the machine environment and in the allocator's context: it hands them
//! on and looks into none.
//!
//! - `unstructured`: the bytes that a fuzzer supplies, and how a `bool` is drawn from them.
//! - `test_case`: the generator's options, and how a test case is drawn.
//! - `check`: what is done with a test case, as a machine that asks for one piece of work at a
//!   time and is told how each piece ended.
//! - `laws`: what holds of every draw and of every check as a whole.
//! - `caller`: what a caller sees of both, call by call.
pub mod caller;
pub mod check;
pub mod laws;
pub mod test_case;
pub mod unstructured;
