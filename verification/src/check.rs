//! What is done with a test case, one piece of work at a time.
use vstd::prelude::*;

use crate::test_case::TestCase;

verus! {

/// The file that keeps the last function on which the allocator failed.
pub const DUMP_PATH: &'static str = "fuzz-input.bin";

/// Where a check stands.
pub enum Stage {
    /// The allocator has to run.
    Allocate,
    /// The allocator failed with this error: the function has to be serialized.
    Serialize { error: Seq<char> },
    /// The allocator failed with this error: these bytes have to be written to the dump.
    Write { error: Seq<char>, bytes: Seq<u8> },
    /// The allocator succeeded: the checker has to run over its output.
    Verify,
    /// The check is over and the test case passed.
    Passed,
    /// The check is over and ends in a panic with this message.
    Panicked { message: Seq<char> },
}

/// How a piece of work ended: an [`Event`] with its texts and bytes as sequences.
pub enum Reply {
    Allocated(Result<(), Seq<char>>),
    Serialized(Result<Seq<u8>, Seq<char>>),
    Written(Result<(), Seq<char>>),
    Verified(Result<(), Seq<char>>),
}

/// Whether `reply` tells of the work that `stage` has to get done.
pub open spec fn awaits(stage: Stage, reply: Reply) -> bool {
    match stage {
        Stage::Allocate => reply is Allocated,
        Stage::Serialize { .. } => reply is Serialized,
        Stage::Write { .. } => reply is Written,
        Stage::Verify => reply is Verified,
        Stage::Passed => false,
        Stage::Panicked { .. } => false,
    }
}

/// The stage that follows `stage` once its work ended with `reply`.
///
/// A failure of the allocator is reported only after the function was dumped. Every other failure
/// is reported at once.
pub open spec fn next_stage(stage: Stage, reply: Reply) -> Stage
    recommends
        awaits(stage, reply),
{
    match (stage, reply) {
        (Stage::Allocate, Reply::Allocated(Ok(_))) => Stage::Verify,
        (Stage::Allocate, Reply::Allocated(Err(error))) => Stage::Serialize { error },
        (Stage::Serialize { error }, Reply::Serialized(Ok(bytes))) => Stage::Write { error, bytes },
        (Stage::Serialize { .. }, Reply::Serialized(Err(cause))) => Stage::Panicked {
            message: "could not serialize function: "@ + cause,
        },
        (Stage::Write { error, .. }, Reply::Written(Ok(_))) => Stage::Panicked {
            message: "regalloc failed: "@ + error,
        },
        (Stage::Write { .. }, Reply::Written(Err(cause))) => Stage::Panicked {
            message: "unable to write to file: "@ + cause,
        },
        (Stage::Verify, Reply::Verified(Ok(_))) => Stage::Passed,
        (Stage::Verify, Reply::Verified(Err(cause))) => Stage::Panicked {
            message: "checker failed: "@ + cause,
        },
        _ => stage,
    }
}

/// How a piece of work ended. An error is given by its text: for [`Event::Allocated`] the one
/// that is shown to a user (`Display`), for the others the one for a programmer (`Debug`).
#[derive(Debug)]
pub enum Event {
    /// The allocator returned.
    Allocated(Result<(), String>),
    /// The function was serialized to these bytes, or could not be.
    Serialized(Result<Vec<u8>, String>),
    /// The dump was written, or could not be.
    Written(Result<(), String>),
    /// The checker returned.
    Verified(Result<(), String>),
}

/// `outcome` with the error's text as a sequence.
pub open spec fn outcome_view(outcome: Result<(), String>) -> Result<(), Seq<char>> {
    match outcome {
        Ok(_) => Ok(()),
        Err(error) => Err(error@),
    }
}

impl View for Event {
    type V = Reply;

    open spec fn view(&self) -> Reply {
        match *self {
            Event::Allocated(outcome) => Reply::Allocated(outcome_view(outcome)),
            Event::Serialized(Ok(bytes)) => Reply::Serialized(Ok(bytes@)),
            Event::Serialized(Err(error)) => Reply::Serialized(Err(error@)),
            Event::Written(outcome) => Reply::Written(outcome_view(outcome)),
            Event::Verified(outcome) => Reply::Verified(outcome_view(outcome)),
        }
    }
}

/// What the caller has to do next.
#[derive(Debug)]
pub enum Action<'a, F, E, C> {
    /// Run the allocator on `func` in the context `ctx`, then report [`Event::Allocated`].
    Allocate { func: &'a F, env: &'a E, ctx: &'a C, annotate: bool, check_ssa: bool },
    /// Serialize `func` together with `env`, then report [`Event::Serialized`].
    Serialize { func: &'a F, env: &'a E },
    /// Make `bytes` the contents of the file at `path`, then report [`Event::Written`].
    Write { path: &'static str, bytes: &'a Vec<u8> },
    /// Run the checker of `func` over the output that the allocator left in `ctx`, then report
    /// [`Event::Verified`].
    Verify { func: &'a F, env: &'a E, ctx: &'a C },
    /// Return: the test case passed.
    Return,
    /// Panic with `message`.
    Panic { message: &'a String },
}

/// Where a check stands, as the machine holds it.
#[derive(Debug)]
enum Phase {
    Allocate,
    Serialize { error: String },
    Write { error: String, bytes: Vec<u8> },
    Verify,
    Passed,
    Panicked { message: String },
}

impl Phase {
    spec fn stage(self) -> Stage {
        match self {
            Phase::Allocate => Stage::Allocate,
            Phase::Serialize { error } => Stage::Serialize { error: error@ },
            Phase::Write { error, bytes } => Stage::Write { error: error@, bytes: bytes@ },
            Phase::Verify => Stage::Verify,
            Phase::Passed => Stage::Passed,
            Phase::Panicked { message } => Stage::Panicked { message: message@ },
        }
    }
}

/// A check under way: its test case, the machine environment, the allocator's context, and where
/// it stands.
#[derive(Debug)]
pub struct Check<F, E, C> {
    test_case: TestCase<F>,
    env: E,
    ctx: C,
    phase: Phase,
}

/// `prefix` followed by `error`.
fn message(prefix: &str, error: &String) -> (text: String)
    ensures
        text@ == prefix@ + error@,
{
    let mut text = prefix.to_owned();
    text.append(error.as_str());
    text
}

/// Tests a single function with the `ion` allocator.
///
/// This also:
/// - optionally creates annotations
/// - optionally verifies the incoming SSA
/// - runs the checker.
///
/// `ctx` is the context that the allocator runs in and leaves its output in. It may stem from
/// earlier checks, so that a context that was not cleared properly between runs shows.
///
/// The check starts with a run of the allocator: see [`Check::action`] for the work to be done and
/// [`Check::step`] for how the check goes on.
pub fn check<F, E, C>(t: TestCase<F>, env: E, ctx: C) -> (started: Check<F, E, C>)
    ensures
        started.test_case() == t,
        started.env() == env,
        started.ctx() == ctx,
        started.stage() == Stage::Allocate,
{
    Check { test_case: t, env, ctx, phase: Phase::Allocate }
}

impl<F, E, C> Check<F, E, C> {
    /// The test case under check.
    pub closed spec fn test_case(self) -> TestCase<F> {
        self.test_case
    }

    /// The machine environment.
    pub closed spec fn env(self) -> E {
        self.env
    }

    /// The allocator's context.
    pub closed spec fn ctx(self) -> C {
        self.ctx
    }

    /// Where the check stands.
    pub closed spec fn stage(self) -> Stage {
        self.phase.stage()
    }

    /// What has to be done next.
    pub fn action(&self) -> (todo: Action<'_, F, E, C>)
        ensures
            match self.stage() {
                Stage::Allocate => todo == (Action::Allocate {
                    func: &self.test_case().func,
                    env: &self.env(),
                    ctx: &self.ctx(),
                    annotate: self.test_case().annotate,
                    check_ssa: self.test_case().check_ssa,
                }),
                Stage::Serialize { .. } => {
                    &&& todo matches Action::Serialize { func, env }
                    &&& *func == self.test_case().func
                    &&& *env == self.env()
                },
                Stage::Write { bytes, .. } => {
                    &&& todo matches Action::Write { path, bytes: contents }
                    &&& path@ == "fuzz-input.bin"@
                    &&& contents@ == bytes
                },
                Stage::Verify => todo == (Action::Verify {
                    func: &self.test_case().func,
                    env: &self.env(),
                    ctx: &self.ctx(),
                }),
                Stage::Passed => todo == Action::<F, E, C>::Return,
                Stage::Panicked { message } => {
                    &&& todo matches Action::Panic { message: text }
                    &&& text@ == message
                },
            },
    {
        let func = &self.test_case.func;
        let env = &self.env;
        let ctx = &self.ctx;
        match &self.phase {
            Phase::Allocate => Action::Allocate {
                func,
                env,
                ctx,
                annotate: self.test_case.annotate,
                check_ssa: self.test_case.check_ssa,
            },
            Phase::Serialize { .. } => Action::Serialize { func, env },
            Phase::Write { bytes, .. } => Action::Write { path: DUMP_PATH, bytes },
            Phase::Verify => Action::Verify { func, env, ctx },
            Phase::Passed => Action::Return,
            Phase::Panicked { message } => Action::Panic { message },
        }
    }

    /// Whether `event` tells of the work that has to be done next.
    pub fn awaits(&self, event: &Event) -> (awaited: bool)
        ensures
            awaited == awaits(self.stage(), event@),
            awaited == match self.stage() {
                Stage::Allocate => *event is Allocated,
                Stage::Serialize { .. } => *event is Serialized,
                Stage::Write { .. } => *event is Written,
                Stage::Verify => *event is Verified,
                Stage::Passed => false,
                Stage::Panicked { .. } => false,
            },
    {
        match (&self.phase, event) {
            (Phase::Allocate, Event::Allocated(_)) => true,
            (Phase::Serialize { .. }, Event::Serialized(_)) => true,
            (Phase::Write { .. }, Event::Written(_)) => true,
            (Phase::Verify, Event::Verified(_)) => true,
            _ => false,
        }
    }

    /// Takes the check on, once the work that [`Check::action`] asked for ended with `event`.
    pub fn step(self, event: Event) -> (next: Check<F, E, C>)
        requires
            awaits(self.stage(), event@),
        ensures
            next.test_case() == self.test_case(),
            next.env() == self.env(),
            next.ctx() == self.ctx(),
            next.stage() == next_stage(self.stage(), event@),
            match event {
                Event::Allocated(Ok(_)) => next.stage() == Stage::Verify,
                Event::Allocated(Err(error)) => next.stage() == (Stage::Serialize {
                    error: error@,
                }),
                Event::Serialized(Ok(bytes)) => next.stage() == (Stage::Write {
                    error: self.stage()->Serialize_error,
                    bytes: bytes@,
                }),
                Event::Serialized(Err(cause)) => next.stage() == (Stage::Panicked {
                    message: "could not serialize function: "@ + cause@,
                }),
                Event::Written(Ok(_)) => next.stage() == (Stage::Panicked {
                    message: "regalloc failed: "@ + self.stage()->Write_error,
                }),
                Event::Written(Err(cause)) => next.stage() == (Stage::Panicked {
                    message: "unable to write to file: "@ + cause@,
                }),
                Event::Verified(Ok(_)) => next.stage() == Stage::Passed,
                Event::Verified(Err(cause)) => next.stage() == (Stage::Panicked {
                    message: "checker failed: "@ + cause@,
                }),
            },
    {
        let Check { test_case, env, ctx, phase } = self;
        let phase = match (phase, event) {
            (Phase::Allocate, Event::Allocated(Ok(_))) => Phase::Verify,
            (Phase::Allocate, Event::Allocated(Err(error))) => Phase::Serialize { error },
            (Phase::Serialize { error }, Event::Serialized(Ok(bytes))) => Phase::Write {
                error,
                bytes,
            },
            (Phase::Serialize { .. }, Event::Serialized(Err(cause))) => Phase::Panicked {
                message: message("could not serialize function: ", &cause),
            },
            (Phase::Write { error, .. }, Event::Written(Ok(_))) => Phase::Panicked {
                message: message("regalloc failed: ", &error),
            },
            (Phase::Write { .. }, Event::Written(Err(cause))) => Phase::Panicked {
                message: message("unable to write to file: ", &cause),
            },
            (Phase::Verify, Event::Verified(Ok(_))) => Phase::Passed,
            (Phase::Verify, Event::Verified(Err(cause))) => Phase::Panicked {
                message: message("checker failed: ", &cause),
            },
            (phase, _) => phase,
        };
        Check { test_case, env, ctx, phase }
    }
}

} // verus!
