//! What a caller sees: the laws of `laws` speak of the models, these of the calls themselves, from
//! the values handed in to the values handed back.
use arbitrary::{Error, Unstructured};
use vstd::prelude::*;

use crate::check::{check, Action, Check, Event};
use crate::test_case::{options, Options, TestCase};

verus! {

use crate::unstructured::remaining;

/// A check first has the allocator run: on the function of the test case, in the given environment
/// and context, with the settings of the test case.
pub proof fn law_check_runs_the_allocator<F, E, C>(
    t: TestCase<F>,
    env: E,
    ctx: C,
    started: Check<F, E, C>,
    todo: Action<'_, F, E, C>,
)
    requires
        call_ensures(check::<F, E, C>, (t, env, ctx), started),
        call_ensures(Check::<F, E, C>::action, (&started,), todo),
    ensures
        todo matches Action::Allocate { func, env: given_env, ctx: given_ctx, annotate, check_ssa } && {
            &&& *func == t.func
            &&& *given_env == env
            &&& *given_ctx == ctx
            &&& annotate == t.annotate
            &&& check_ssa == t.check_ssa
        },
{
}

/// Once the allocator succeeded, the checker runs: on the same function, in the same environment,
/// over what the allocator left in the context.
pub proof fn law_success_is_verified<F, E, C>(
    t: TestCase<F>,
    env: E,
    ctx: C,
    started: Check<F, E, C>,
    allocated: Check<F, E, C>,
    todo: Action<'_, F, E, C>,
)
    requires
        call_ensures(check::<F, E, C>, (t, env, ctx), started),
        call_ensures(Check::<F, E, C>::step, (started, Event::Allocated(Ok(()))), allocated),
        call_ensures(Check::<F, E, C>::action, (&allocated,), todo),
    ensures
        call_requires(Check::<F, E, C>::step, (started, Event::Allocated(Ok(())))),
        todo matches Action::Verify { func, env: given_env, ctx: given_ctx } && {
            &&& *func == t.func
            &&& *given_env == env
            &&& *given_ctx == ctx
        },
{
}

/// Once the checker accepted the allocation, the check returns.
pub proof fn law_acceptance_returns<F, E, C>(
    t: TestCase<F>,
    env: E,
    ctx: C,
    started: Check<F, E, C>,
    allocated: Check<F, E, C>,
    accepted: Check<F, E, C>,
    todo: Action<'_, F, E, C>,
)
    requires
        call_ensures(check::<F, E, C>, (t, env, ctx), started),
        call_ensures(Check::<F, E, C>::step, (started, Event::Allocated(Ok(()))), allocated),
        call_ensures(Check::<F, E, C>::step, (allocated, Event::Verified(Ok(()))), accepted),
        call_ensures(Check::<F, E, C>::action, (&accepted,), todo),
    ensures
        call_requires(Check::<F, E, C>::step, (started, Event::Allocated(Ok(())))),
        call_requires(Check::<F, E, C>::step, (allocated, Event::Verified(Ok(())))),
        todo is Return,
{
}

/// Once the checker rejected the allocation, for whatever cause, the check panics and tells the
/// whole cause.
pub proof fn law_rejection_panics<F, E, C>(
    t: TestCase<F>,
    env: E,
    ctx: C,
    started: Check<F, E, C>,
    cause: String,
    allocated: Check<F, E, C>,
    rejected: Check<F, E, C>,
    todo: Action<'_, F, E, C>,
)
    requires
        call_ensures(check::<F, E, C>, (t, env, ctx), started),
        call_ensures(Check::<F, E, C>::step, (started, Event::Allocated(Ok(()))), allocated),
        call_ensures(Check::<F, E, C>::step, (allocated, Event::Verified(Err(cause))), rejected),
        call_ensures(Check::<F, E, C>::action, (&rejected,), todo),
    ensures
        call_requires(Check::<F, E, C>::step, (started, Event::Allocated(Ok(())))),
        call_requires(Check::<F, E, C>::step, (allocated, Event::Verified(Err(cause)))),
        todo matches Action::Panic { message } && message@ == "checker failed: "@ + cause@,
{
}

/// Once the allocator failed, with whatever error, the function is serialized with its environment:
/// the checker does not run and the check does not return.
pub proof fn law_failure_is_serialized<F, E, C>(
    t: TestCase<F>,
    env: E,
    ctx: C,
    started: Check<F, E, C>,
    error: String,
    failed: Check<F, E, C>,
    todo: Action<'_, F, E, C>,
)
    requires
        call_ensures(check::<F, E, C>, (t, env, ctx), started),
        call_ensures(Check::<F, E, C>::step, (started, Event::Allocated(Err(error))), failed),
        call_ensures(Check::<F, E, C>::action, (&failed,), todo),
    ensures
        call_requires(Check::<F, E, C>::step, (started, Event::Allocated(Err(error)))),
        todo matches Action::Serialize { func, env: given_env } && {
            &&& *func == t.func
            &&& *given_env == env
        },
{
}

/// All the bytes that the function was serialized to are written to the dump, and no others.
pub proof fn law_all_bytes_are_dumped<F, E, C>(
    t: TestCase<F>,
    env: E,
    ctx: C,
    started: Check<F, E, C>,
    error: String,
    bytes: Vec<u8>,
    failed: Check<F, E, C>,
    serialized: Check<F, E, C>,
    todo: Action<'_, F, E, C>,
)
    requires
        call_ensures(check::<F, E, C>, (t, env, ctx), started),
        call_ensures(Check::<F, E, C>::step, (started, Event::Allocated(Err(error))), failed),
        call_ensures(Check::<F, E, C>::step, (failed, Event::Serialized(Ok(bytes))), serialized),
        call_ensures(Check::<F, E, C>::action, (&serialized,), todo),
    ensures
        call_requires(Check::<F, E, C>::step, (started, Event::Allocated(Err(error)))),
        call_requires(Check::<F, E, C>::step, (failed, Event::Serialized(Ok(bytes)))),
        todo matches Action::Write { path, bytes: contents } && {
            &&& path@ == "fuzz-input.bin"@
            &&& contents@ == bytes@
        },
{
}

/// Once the dump was written, the check panics and tells the allocator's whole error.
pub proof fn law_failure_panics_after_the_dump<F, E, C>(
    t: TestCase<F>,
    env: E,
    ctx: C,
    started: Check<F, E, C>,
    error: String,
    bytes: Vec<u8>,
    failed: Check<F, E, C>,
    serialized: Check<F, E, C>,
    written: Check<F, E, C>,
    todo: Action<'_, F, E, C>,
)
    requires
        call_ensures(check::<F, E, C>, (t, env, ctx), started),
        call_ensures(Check::<F, E, C>::step, (started, Event::Allocated(Err(error))), failed),
        call_ensures(Check::<F, E, C>::step, (failed, Event::Serialized(Ok(bytes))), serialized),
        call_ensures(Check::<F, E, C>::step, (serialized, Event::Written(Ok(()))), written),
        call_ensures(Check::<F, E, C>::action, (&written,), todo),
    ensures
        call_requires(Check::<F, E, C>::step, (started, Event::Allocated(Err(error)))),
        call_requires(Check::<F, E, C>::step, (failed, Event::Serialized(Ok(bytes)))),
        call_requires(Check::<F, E, C>::step, (serialized, Event::Written(Ok(())))),
        todo matches Action::Panic { message } && message@ == "regalloc failed: "@ + error@,
{
}

/// Where the dump cannot be written, the check panics and tells the whole cause.
pub proof fn law_unwritable_dump_panics<F, E, C>(
    t: TestCase<F>,
    env: E,
    ctx: C,
    started: Check<F, E, C>,
    error: String,
    bytes: Vec<u8>,
    cause: String,
    failed: Check<F, E, C>,
    serialized: Check<F, E, C>,
    unwritten: Check<F, E, C>,
    todo: Action<'_, F, E, C>,
)
    requires
        call_ensures(check::<F, E, C>, (t, env, ctx), started),
        call_ensures(Check::<F, E, C>::step, (started, Event::Allocated(Err(error))), failed),
        call_ensures(Check::<F, E, C>::step, (failed, Event::Serialized(Ok(bytes))), serialized),
        call_ensures(Check::<F, E, C>::step, (serialized, Event::Written(Err(cause))), unwritten),
        call_ensures(Check::<F, E, C>::action, (&unwritten,), todo),
    ensures
        call_requires(Check::<F, E, C>::step, (started, Event::Allocated(Err(error)))),
        call_requires(Check::<F, E, C>::step, (failed, Event::Serialized(Ok(bytes)))),
        call_requires(Check::<F, E, C>::step, (serialized, Event::Written(Err(cause)))),
        todo matches Action::Panic { message } && message@ == "unable to write to file: "@ + cause@,
{
}

/// Where the function cannot be serialized, the check panics and tells the whole cause.
pub proof fn law_unserializable_function_panics<F, E, C>(
    t: TestCase<F>,
    env: E,
    ctx: C,
    started: Check<F, E, C>,
    error: String,
    cause: String,
    failed: Check<F, E, C>,
    unserialized: Check<F, E, C>,
    todo: Action<'_, F, E, C>,
)
    requires
        call_ensures(check::<F, E, C>, (t, env, ctx), started),
        call_ensures(Check::<F, E, C>::step, (started, Event::Allocated(Err(error))), failed),
        call_ensures(Check::<F, E, C>::step, (failed, Event::Serialized(Err(cause))), unserialized),
        call_ensures(Check::<F, E, C>::action, (&unserialized,), todo),
    ensures
        call_requires(Check::<F, E, C>::step, (started, Event::Allocated(Err(error)))),
        call_requires(Check::<F, E, C>::step, (failed, Event::Serialized(Err(cause)))),
        todo matches Action::Panic { message } && message@ == "could not serialize function: "@
            + cause@,
{
}

/// Wherever a check stands, an event is awaited exactly where it tells of the work that is to be
/// done, however that work ended; and only then can the check be taken on.
pub proof fn law_awaited_iff_asked_for<F, E, C>(
    c: Check<F, E, C>,
    todo: Action<'_, F, E, C>,
    event: Event,
    awaited: bool,
)
    requires
        call_ensures(Check::<F, E, C>::action, (&c,), todo),
        call_ensures(Check::<F, E, C>::awaits, (&c, &event), awaited),
    ensures
        awaited <==> {
            ||| todo is Allocate && event is Allocated
            ||| todo is Serialize && event is Serialized
            ||| todo is Write && event is Written
            ||| todo is Verify && event is Verified
        },
        awaited ==> call_requires(Check::<F, E, C>::step, (c, event)),
{
}

/// Wherever a check stands, what it does next follows from what it did last and from how that
/// ended: only a success of the allocator leads to the checker, only a success of the checker to a
/// return, and only a failure of the allocator to a dump.
pub proof fn law_next_action_follows_from_the_event<F, E, C>(
    c: Check<F, E, C>,
    todo: Action<'_, F, E, C>,
    event: Event,
    next: Check<F, E, C>,
    after: Action<'_, F, E, C>,
)
    requires
        call_ensures(Check::<F, E, C>::action, (&c,), todo),
        call_ensures(Check::<F, E, C>::awaits, (&c, &event), true),
        call_ensures(Check::<F, E, C>::step, (c, event), next),
        call_ensures(Check::<F, E, C>::action, (&next,), after),
    ensures
        after !is Allocate,
        after is Verify <==> event matches Event::Allocated(Ok(_)),
        after is Serialize <==> event matches Event::Allocated(Err(_)),
        after is Write <==> event matches Event::Serialized(Ok(_)),
        after is Return <==> event matches Event::Verified(Ok(_)),
        event matches Event::Serialized(Ok(bytes)) ==> after matches Action::Write {
            bytes: contents,
            ..
        } && contents@ == bytes@,
        event matches Event::Verified(Err(cause)) ==> after matches Action::Panic { message }
            && message@ == "checker failed: "@ + cause@,
        event matches Event::Serialized(Err(cause)) ==> after matches Action::Panic { message }
            && message@ == "could not serialize function: "@ + cause@,
        event matches Event::Written(Err(cause)) ==> after matches Action::Panic { message }
            && message@ == "unable to write to file: "@ + cause@,
        event matches Event::Written(Ok(_)) ==> after is Panic,
{
}

/// Each of the switches for `ion` is on.
pub proof fn law_options_are_all_on(opts: Options)
    requires
        call_ensures(options, (), opts),
    ensures
        opts.reused_inputs,
        opts.fixed_regs,
        opts.fixed_nonallocatable,
        opts.clobbers,
        opts.reftypes,
        opts.callsite_ish_constraints,
        opts.limit_constraints,
{
}

/// The lowest bit of a byte tells whether the byte is odd.
proof fn lemma_lowest_bit()
    ensures
        forall|b: u8| (#[trigger] (b & 1) == 1) == (b % 2 == 1),
{
    assert(forall|b: u8| (#[trigger] (b & 1) == 1) == (b % 2 == 1)) by (bit_vector);
}

/// Drawing the settings never fails and never touches the function. `annotate` is the lowest bit of
/// the first byte, `check_ssa` that of the second; a setting whose byte is missing is off. Those two
/// bytes are taken and no others.
pub proof fn law_settings_are_the_lowest_bits<F>(func: F)
    ensures
        forall|u: &mut Unstructured<'_>, res: Result<TestCase<F>, Error>| #[trigger]
            call_ensures(TestCase::<F>::arbitrary_settings, (func, u), res) ==> {
                let bytes = remaining(*u);
                &&& res matches Ok(t) && {
                    &&& t.func == func
                    &&& t.annotate == (bytes.len() >= 1 && bytes[0] & 1 == 1)
                    &&& t.check_ssa == (bytes.len() >= 2 && bytes[1] & 1 == 1)
                }
                &&& remaining(*final(u)) == if bytes.len() >= 2 {
                    bytes.skip(2)
                } else {
                    Seq::<u8>::empty()
                }
            },
{
    lemma_lowest_bit();
    assert forall|u: &mut Unstructured<'_>, res: Result<TestCase<F>, Error>| #[trigger]
        call_ensures(TestCase::<F>::arbitrary_settings, (func, u), res) implies remaining(
        *final(u),
    ) == if remaining(*u).len() >= 2 {
        remaining(*u).skip(2)
    } else {
        Seq::<u8>::empty()
    } by {
        let bytes = remaining(*u);
        if bytes.len() >= 2 {
            assert(bytes.drop_first().drop_first() =~= bytes.skip(2));
        } else if bytes.len() == 1 {
            assert(bytes.drop_first() =~= Seq::<u8>::empty());
        } else {
            assert(bytes =~= Seq::<u8>::empty());
        }
    }
}

/// A test case can be drawn wherever the generator can be called on the input; the settings can be
/// drawn from any input.
pub proof fn law_draw_asks_for_nothing_else<F, G>(generate: G, func: F)
    where G: FnOnce(&mut Unstructured<'_>, &Options) -> Result<F, Error>
    ensures
        forall|u: &mut Unstructured<'_>|
            (forall|v: &mut Unstructured<'_>, opts: &Options|
                *v == *u ==> #[trigger] call_requires(generate, (v, opts))) ==> #[trigger]
            call_requires(TestCase::<F>::arbitrary::<G>, (u, generate)),
        forall|u: &mut Unstructured<'_>| #[trigger]
            call_requires(TestCase::<F>::arbitrary_settings, (func, u)),
{
}

/// Where the generator makes `func` of the input, with every switch on, and leaves `rest`, the test
/// case drawn is `func` with the settings that `rest` gives.
pub proof fn law_draw_takes_function_then_settings<F, G>(generate: G, func: F, rest: Seq<u8>)
    where G: FnOnce(&mut Unstructured<'_>, &Options) -> Result<F, Error>
    ensures
        forall|u: &mut Unstructured<'_>, res: Result<TestCase<F>, Error>|
            {
                &&& #[trigger] call_ensures(TestCase::<F>::arbitrary::<G>, (u, generate), res)
                &&& forall|v: &mut Unstructured<'_>, opts: &Options, made: Result<F, Error>|
                    {
                        &&& *v == *u
                        &&& #[trigger] call_ensures(generate, (v, opts), made)
                        &&& opts.reused_inputs && opts.fixed_regs && opts.fixed_nonallocatable
                        &&& opts.clobbers && opts.reftypes && opts.callsite_ish_constraints
                        &&& opts.limit_constraints
                    } ==> made == Ok::<F, Error>(func) && remaining(*final(v)) == rest
            } ==> {
                &&& res matches Ok(t) && {
                    &&& t.func == func
                    &&& t.annotate == (rest.len() >= 1 && rest[0] & 1 == 1)
                    &&& t.check_ssa == (rest.len() >= 2 && rest[1] & 1 == 1)
                }
                &&& remaining(*final(u)) == if rest.len() >= 2 {
                    rest.skip(2)
                } else {
                    Seq::<u8>::empty()
                }
            },
{
    lemma_lowest_bit();
    if rest.len() >= 2 {
        assert(rest.drop_first().drop_first() =~= rest.skip(2));
    } else if rest.len() == 1 {
        assert(rest.drop_first() =~= Seq::<u8>::empty());
    } else {
        assert(rest =~= Seq::<u8>::empty());
    }
}

/// Where the generator fails on the input, with every switch on, the draw fails with the generator's
/// error and leaves what the generator left.
pub proof fn law_draw_passes_the_error_on<F, G>(generate: G, error: Error, rest: Seq<u8>)
    where G: FnOnce(&mut Unstructured<'_>, &Options) -> Result<F, Error>
    ensures
        forall|u: &mut Unstructured<'_>, res: Result<TestCase<F>, Error>|
            {
                &&& #[trigger] call_ensures(TestCase::<F>::arbitrary::<G>, (u, generate), res)
                &&& forall|v: &mut Unstructured<'_>, opts: &Options, made: Result<F, Error>|
                    {
                        &&& *v == *u
                        &&& #[trigger] call_ensures(generate, (v, opts), made)
                        &&& opts.reused_inputs && opts.fixed_regs && opts.fixed_nonallocatable
                        &&& opts.clobbers && opts.reftypes && opts.callsite_ish_constraints
                        &&& opts.limit_constraints
                    } ==> made == Err::<F, Error>(error) && remaining(*final(v)) == rest
            } ==> {
                &&& res == Err::<TestCase<F>, Error>(error)
                &&& remaining(*final(u)) == rest
            },
{
}

} // verus!
