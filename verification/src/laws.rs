//! What holds of every draw and of every check as a whole.
use vstd::prelude::*;

use crate::check::{Event, Reply, Stage};

verus! {

use crate::check::{awaits, next_stage};
use crate::test_case::drawn_case;
use crate::unstructured::after_bool;

/// Drawing the settings takes the next two bytes, or what is left where there are fewer.
pub proof fn law_settings_take_two_bytes(bytes: Seq<u8>)
    ensures
        bytes.len() >= 2 ==> after_bool(after_bool(bytes)) == bytes.skip(2),
        bytes.len() < 2 ==> after_bool(after_bool(bytes)) == Seq::<u8>::empty(),
{
}

/// The settings rest on the next two bytes alone: bytes behind them change nothing.
pub proof fn law_settings_ignore_later_bytes<F>(func: F, bytes: Seq<u8>, later: Seq<u8>)
    requires
        bytes.len() >= 2,
    ensures
        drawn_case(func, bytes + later) == drawn_case(func, bytes),
{
    assert((bytes + later).drop_first() =~= bytes.drop_first() + later);
}

/// Input padded with zero bytes gives the settings that the input itself gives: where the input
/// is exhausted, a setting is off.
pub proof fn law_exhausted_input_reads_as_zeros<F>(func: F, bytes: Seq<u8>, zeros: nat)
    ensures
        drawn_case(func, bytes + Seq::new(zeros, |i: int| 0u8)) == drawn_case(func, bytes),
        bytes.len() == 0 ==> !drawn_case(func, bytes).annotate,
        bytes.len() < 2 ==> !drawn_case(func, bytes).check_ssa,
{
    let padding = Seq::new(zeros, |i: int| 0u8);
    let padded = bytes + padding;
    if bytes.len() > 0 {
        assert(padded.drop_first() =~= bytes.drop_first() + padding);
    } else {
        assert(padded =~= padding);
    }
}

/// Each of the two settings is optional, whatever the other is: for every pair of them there is
/// input that gives it.
pub proof fn law_every_setting_can_be_drawn<F>(func: F, annotate: bool, check_ssa: bool)
    ensures
        exists|bytes: Seq<u8>|
            {
                let drawn = #[trigger] drawn_case(func, bytes);
                drawn.annotate == annotate && drawn.check_ssa == check_ssa
            },
{
    let first: u8 = if annotate {
        1
    } else {
        0
    };
    let second: u8 = if check_ssa {
        1
    } else {
        0
    };
    let bytes = seq![first, second];
    assert(bytes.drop_first() =~= seq![second]);
    let drawn = drawn_case(func, bytes);
    assert(drawn.annotate == annotate && drawn.check_ssa == check_ssa);
}

/// An event is taken as it is told: success as success, failure as failure, each text and all the
/// bytes in full.
pub proof fn law_event_is_taken_as_told(text: String, bytes: Vec<u8>)
    ensures
        Event::Allocated(Ok(()))@ == Reply::Allocated(Ok(())),
        Event::Allocated(Err(text))@ == Reply::Allocated(Err(text@)),
        Event::Serialized(Ok(bytes))@ == Reply::Serialized(Ok(bytes@)),
        Event::Serialized(Err(text))@ == Reply::Serialized(Err(text@)),
        Event::Written(Ok(()))@ == Reply::Written(Ok(())),
        Event::Written(Err(text))@ == Reply::Written(Err(text@)),
        Event::Verified(Ok(()))@ == Reply::Verified(Ok(())),
        Event::Verified(Err(text))@ == Reply::Verified(Err(text@)),
{
}

/// Where a check stands that stood at `stage` and was then told `replies`, in their order; `None`
/// where one of them tells of work that was not asked for.
pub open spec fn stage_after(stage: Stage, replies: Seq<Reply>) -> Option<Stage>
    decreases replies.len(),
{
    if replies.len() == 0 {
        Some(stage)
    } else if awaits(stage, replies[0]) {
        stage_after(next_stage(stage, replies[0]), replies.drop_first())
    } else {
        None
    }
}

/// Whether a check that stands at `stage` is over.
pub open spec fn over(stage: Stage) -> bool {
    stage is Passed || stage is Panicked
}

/// The replies where the allocator failed with `error` and the function was then serialized with
/// this outcome.
pub open spec fn failed_and_serialized(
    error: Seq<char>,
    outcome: Result<Seq<u8>, Seq<char>>,
) -> Seq<Reply> {
    seq![Reply::Allocated(Err(error)), Reply::Serialized(outcome)]
}

/// The replies where the allocator failed with `error` and the `bytes` that the function was
/// serialized to were then written with this outcome.
pub open spec fn failed_and_written(
    error: Seq<char>,
    bytes: Seq<u8>,
    outcome: Result<(), Seq<char>>,
) -> Seq<Reply> {
    seq![Reply::Allocated(Err(error)), Reply::Serialized(Ok(bytes)), Reply::Written(outcome)]
}

/// A check that is told one reply more takes one step more.
pub proof fn law_replies_compose(stage: Stage, replies: Seq<Reply>, reply: Reply)
    ensures
        stage_after(stage, replies.push(reply)) == match stage_after(stage, replies) {
            Some(reached) if awaits(reached, reply) => Some(next_stage(reached, reply)),
            _ => None,
        },
    decreases replies.len(),
{
    let longer = replies.push(reply);
    if replies.len() == 0 {
        assert(longer.drop_first() =~= Seq::<Reply>::empty());
        reveal_with_fuel(stage_after, 2);
    } else {
        assert(longer.drop_first() =~= replies.drop_first().push(reply));
        if awaits(stage, replies[0]) {
            law_replies_compose(next_stage(stage, replies[0]), replies.drop_first(), reply);
        }
    }
}

/// A check never gets stuck and never goes on past its end: it is over exactly where no reply is
/// awaited.
pub proof fn law_over_iff_nothing_awaited(stage: Stage)
    ensures
        over(stage) <==> forall|reply: Reply| !awaits(stage, reply),
{
    if !over(stage) {
        let reply = match stage {
            Stage::Allocate => Reply::Allocated(Ok(())),
            Stage::Serialize { .. } => Reply::Serialized(Ok(Seq::empty())),
            Stage::Write { .. } => Reply::Written(Ok(())),
            _ => Reply::Verified(Ok(())),
        };
        assert(awaits(stage, reply));
    }
}

/// A check has at most three pieces of work done, and is over after the third.
pub proof fn law_check_ends(replies: Seq<Reply>)
    requires
        stage_after(Stage::Allocate, replies) is Some,
    ensures
        replies.len() <= 3,
        replies.len() == 3 ==> over(stage_after(Stage::Allocate, replies).unwrap()),
{
    reveal_with_fuel(stage_after, 5);
}

/// A reply of success carries nothing: any two are the same.
proof fn lemma_successes_are_equal(reply: Reply)
    ensures
        reply matches Reply::Allocated(Ok(_)) ==> reply == Reply::Allocated(Ok(())),
        reply matches Reply::Written(Ok(_)) ==> reply == Reply::Written(Ok(())),
        reply matches Reply::Verified(Ok(_)) ==> reply == Reply::Verified(Ok(())),
{
    match reply {
        Reply::Allocated(Ok(done)) => assert(done == ()),
        Reply::Written(Ok(done)) => assert(done == ()),
        Reply::Verified(Ok(done)) => assert(done == ()),
        _ => {},
    }
}

/// A test case passes exactly where the allocator succeeded on it and the checker then accepted
/// the allocation.
pub proof fn law_passes_iff_allocated_and_verified(replies: Seq<Reply>)
    ensures
        stage_after(Stage::Allocate, replies) == Some(Stage::Passed) <==> replies == seq![
            Reply::Allocated(Ok(())),
            Reply::Verified(Ok(())),
        ],
{
    reveal_with_fuel(stage_after, 5);
    let passing = seq![Reply::Allocated(Ok(())), Reply::Verified(Ok(()))];
    if stage_after(Stage::Allocate, replies) == Some(Stage::Passed) {
        lemma_successes_are_equal(replies[0]);
        lemma_successes_are_equal(replies[1]);
        assert(replies =~= passing);
    }
}

/// The checker runs exactly where the allocator succeeded.
pub proof fn law_checker_runs_iff_allocated(replies: Seq<Reply>)
    ensures
        stage_after(Stage::Allocate, replies) == Some(Stage::Verify) <==> replies == seq![
            Reply::Allocated(Ok(())),
        ],
{
    reveal_with_fuel(stage_after, 5);
    if stage_after(Stage::Allocate, replies) == Some(Stage::Verify) {
        lemma_successes_are_equal(replies[0]);
        assert(replies =~= seq![Reply::Allocated(Ok(()))]);
    }
}

/// A dump is written exactly where the allocator failed and the function could be serialized, and
/// what is written are the bytes that it was serialized to.
pub proof fn law_dump_written_iff_allocation_failed(
    replies: Seq<Reply>,
    error: Seq<char>,
    bytes: Seq<u8>,
)
    ensures
        stage_after(Stage::Allocate, replies) == Some(Stage::Write { error, bytes })
            <==> replies == failed_and_serialized(error, Ok(bytes)),
{
    reveal_with_fuel(stage_after, 5);
    if stage_after(Stage::Allocate, replies) == Some(Stage::Write { error, bytes }) {
        assert(replies =~= failed_and_serialized(error, Ok(bytes)));
    }
}

/// A check whose allocation failed cannot pass: once over, it ended in a panic.
pub proof fn law_failed_allocation_panics(replies: Seq<Reply>, error: Seq<char>)
    requires
        replies.len() > 0,
        replies[0] == Reply::Allocated(Err(error)),
        stage_after(Stage::Allocate, replies) matches Some(stage) && over(stage),
    ensures
        stage_after(Stage::Allocate, replies).unwrap() is Panicked,
{
    reveal_with_fuel(stage_after, 5);
}

/// Messages of panics for different failures are different, whatever texts they end in.
proof fn lemma_messages_differ(left: Seq<char>, right: Seq<char>)
    ensures
        "regalloc failed: "@ + left != "could not serialize function: "@ + right,
        "regalloc failed: "@ + left != "unable to write to file: "@ + right,
        "regalloc failed: "@ + left != "checker failed: "@ + right,
        "could not serialize function: "@ + left != "unable to write to file: "@ + right,
        "could not serialize function: "@ + left != "checker failed: "@ + right,
        "unable to write to file: "@ + left != "checker failed: "@ + right,
{
    reveal_strlit("regalloc failed: ");
    reveal_strlit("could not serialize function: ");
    reveal_strlit("unable to write to file: ");
    reveal_strlit("checker failed: ");
    assert(("regalloc failed: "@ + left)[0] == 'r');
    assert(("could not serialize function: "@ + left)[0] == 'c');
    assert(("could not serialize function: "@ + right)[0] == 'c');
    assert(("could not serialize function: "@ + left)[1] == 'o');
    assert(("unable to write to file: "@ + left)[0] == 'u');
    assert(("unable to write to file: "@ + right)[0] == 'u');
    assert(("checker failed: "@ + right)[0] == 'c');
    assert(("checker failed: "@ + right)[1] == 'h');
}

/// One prefix before two texts gives one message only where the texts are one.
proof fn lemma_prefix_is_injective(prefix: Seq<char>, left: Seq<char>, right: Seq<char>)
    ensures
        prefix + left == prefix + right <==> left == right,
{
    if prefix + left == prefix + right {
        assert(left =~= (prefix + left).skip(prefix.len() as int));
        assert(right =~= (prefix + right).skip(prefix.len() as int));
    }
}

/// What a panic says is what happened: the allocator's failure is reported exactly where the
/// function was dumped before; a failure to dump is reported in its place; the checker's failure
/// is reported exactly where the allocator succeeded.
pub proof fn law_panic_tells_the_failure(replies: Seq<Reply>, text: Seq<char>)
    ensures
        stage_after(Stage::Allocate, replies) == Some(
            Stage::Panicked { message: "regalloc failed: "@ + text },
        ) <==> exists|bytes: Seq<u8>|
            replies == #[trigger] failed_and_written(text, bytes, Ok(())),
        stage_after(Stage::Allocate, replies) == Some(
            Stage::Panicked { message: "could not serialize function: "@ + text },
        ) <==> exists|error: Seq<char>|
            replies == #[trigger] failed_and_serialized(error, Err(text)),
        stage_after(Stage::Allocate, replies) == Some(
            Stage::Panicked { message: "unable to write to file: "@ + text },
        ) <==> exists|error: Seq<char>, bytes: Seq<u8>|
            replies == #[trigger] failed_and_written(error, bytes, Err(text)),
        stage_after(Stage::Allocate, replies) == Some(
            Stage::Panicked { message: "checker failed: "@ + text },
        ) <==> replies == seq![Reply::Allocated(Ok(())), Reply::Verified(Err(text))],
{
    reveal_with_fuel(stage_after, 5);
    if stage_after(Stage::Allocate, replies) matches Some(Stage::Panicked { message }) {
        lemma_successes_are_equal(replies[0]);
        if replies[0] == Reply::Allocated(Ok(())) {
            let cause = replies[1]->Verified_0->Err_0;
            assert(replies =~= seq![Reply::Allocated(Ok(())), Reply::Verified(Err(cause))]);
            lemma_messages_differ(text, cause);
            lemma_prefix_is_injective("checker failed: "@, cause, text);
        } else {
            let error = replies[0]->Allocated_0->Err_0;
            match replies[1]->Serialized_0 {
                Err(cause) => {
                    assert(replies =~= failed_and_serialized(error, Err(cause)));
                    lemma_messages_differ(text, cause);
                    lemma_messages_differ(cause, text);
                    lemma_prefix_is_injective("could not serialize function: "@, cause, text);
                },
                Ok(bytes) => {
                    lemma_successes_are_equal(replies[2]);
                    match replies[2]->Written_0 {
                        Ok(_) => {
                            assert(replies =~= failed_and_written(error, bytes, Ok(())));
                            lemma_messages_differ(error, text);
                            lemma_prefix_is_injective("regalloc failed: "@, error, text);
                        },
                        Err(cause) => {
                            assert(replies =~= failed_and_written(error, bytes, Err(cause)));
                            lemma_messages_differ(text, cause);
                            lemma_messages_differ(cause, text);
                            lemma_prefix_is_injective("unable to write to file: "@, cause, text);
                        },
                    }
                },
            }
        }
    }
}

} // verus!
