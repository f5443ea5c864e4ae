//! Test cases for `ion`, and how one is drawn from fuzzer input.
use arbitrary::{Error, Unstructured};
use vstd::prelude::*;

use crate::unstructured::arbitrary_bool;

verus! {

use crate::unstructured::{after_bool, next_bool, remaining};

/// What a generated function may contain: the switches of the function generator that `ion` has
/// set. Every setting of the generator that is not named here keeps its default.
#[derive(Clone, Copy, Debug, PartialEq, Eq, Structural)]
pub struct Options {
    /// Outputs that reuse the register of an input.
    pub reused_inputs: bool,
    /// Operands constrained to one register.
    pub fixed_regs: bool,
    /// Operands constrained to a register that is not allocatable.
    pub fixed_nonallocatable: bool,
    /// Clobbered registers.
    pub clobbers: bool,
    /// Reference-typed values.
    pub reftypes: bool,
    /// Constraints such as those of a call site.
    pub callsite_ish_constraints: bool,
    /// Operands limited to the first registers of their class.
    pub limit_constraints: bool,
}

/// The options for `ion`: every switch is on.
pub open spec fn ion_options() -> Options {
    Options {
        reused_inputs: true,
        fixed_regs: true,
        fixed_nonallocatable: true,
        clobbers: true,
        reftypes: true,
        callsite_ish_constraints: true,
        limit_constraints: true,
    }
}

/// `ion`-specific options for generating functions.
pub fn options() -> (opts: Options)
    ensures
        opts == ion_options(),
{
    Options {
        reused_inputs: true,
        fixed_regs: true,
        fixed_nonallocatable: true,
        clobbers: true,
        reftypes: true,
        callsite_ish_constraints: true,
        limit_constraints: true,
    }
}

/// A function under test, with the settings of the run.
#[derive(Debug)]
pub struct TestCase<F> {
    /// The function to allocate registers for.
    pub func: F,
    /// Whether the allocator creates annotations.
    pub annotate: bool,
    /// Whether the allocator verifies the incoming SSA.
    pub check_ssa: bool,
}

impl<F: Clone> Clone for TestCase<F> {
    /// A clone of the function, with the same settings.
    fn clone(&self) -> (copy: Self)
        ensures
            cloned(self.func, copy.func),
            copy.annotate == self.annotate,
            copy.check_ssa == self.check_ssa,
    {
        TestCase {
            func: self.func.clone(),
            annotate: self.annotate,
            check_ssa: self.check_ssa,
        }
    }
}

/// The test case of `func` whose settings are drawn from `bytes`: first `annotate`, then
/// `check_ssa`.
pub open spec fn drawn_case<F>(func: F, bytes: Seq<u8>) -> TestCase<F> {
    TestCase {
        func,
        annotate: next_bool(bytes),
        check_ssa: next_bool(after_bool(bytes)),
    }
}

impl<F> TestCase<F> {
    /// Draws the settings of a run of `func`. This cannot fail: exhausted input switches both
    /// settings off.
    pub fn arbitrary_settings(func: F, u: &mut Unstructured<'_>) -> (res: Result<
        TestCase<F>,
        Error,
    >)
        ensures
            res == Ok::<TestCase<F>, Error>(drawn_case(func, remaining(*old(u)))),
            remaining(*final(u)) == after_bool(after_bool(remaining(*old(u)))),
    {
        let annotate = arbitrary_bool(u)?;
        let check_ssa = arbitrary_bool(u)?;
        Ok(TestCase { func, annotate, check_ssa })
    }

    /// Draws a test case: a function that `generate` makes under the [`options`] for `ion`, then
    /// the settings of the run.
    ///
    /// `generate` is called once, on the whole of the input. Its error is passed on as it is, with
    /// nothing more drawn, and nothing else makes the draw fail.
    pub fn arbitrary<G>(u: &mut Unstructured<'_>, generate: G) -> (res: Result<TestCase<F>, Error>)
        where G: FnOnce(&mut Unstructured<'_>, &Options) -> Result<F, Error>
        requires
            forall|v: &mut Unstructured<'_>|
                *v == *old(u) ==> #[trigger] call_requires(generate, (v, &ion_options())),
        ensures
            exists|v: &mut Unstructured<'_>, made: Result<F, Error>|
                {
                    &&& *v == *old(u)
                    &&& #[trigger] call_ensures(generate, (v, &ion_options()), made)
                    &&& match made {
                        Err(error) => {
                            &&& res == Err::<TestCase<F>, Error>(error)
                            &&& *final(u) == *final(v)
                        },
                        Ok(func) => {
                            &&& res == Ok::<TestCase<F>, Error>(
                                drawn_case(func, remaining(*final(v))),
                            )
                            &&& remaining(*final(u)) == after_bool(
                                after_bool(remaining(*final(v))),
                            )
                        },
                    }
                },
    {
        let func = generate(u, &options())?;
        TestCase::arbitrary_settings(func, u)
    }
}

} // verus!
