use ion_fuzz::check::{check, Action, Check, Event, DUMP_PATH};
use ion_fuzz::test_case::TestCase;

fn start(annotate: bool, check_ssa: bool) -> Check<&'static str, u8, char> {
    check(TestCase { func: "f", annotate, check_ssa }, 64, 'c')
}

fn text(s: &str) -> String {
    s.to_string()
}

/// Reports `event`, which must be awaited.
fn tell(c: Check<&'static str, u8, char>, event: Event) -> Check<&'static str, u8, char> {
    assert!(c.awaits(&event));
    c.step(event)
}

fn panic_message(c: &Check<&'static str, u8, char>) -> String {
    match c.action() {
        Action::Panic { message } => message.clone(),
        other => panic!("expected a panic, got {:?}", other),
    }
}

fn one_event_of_each_kind() -> Vec<Event> {
    vec![
        Event::Allocated(Ok(())),
        Event::Serialized(Ok(vec![])),
        Event::Written(Ok(())),
        Event::Verified(Ok(())),
    ]
}

fn awaited(c: &Check<&'static str, u8, char>) -> Vec<bool> {
    one_event_of_each_kind().iter().map(|event| c.awaits(event)).collect()
}

#[test]
fn check_starts_with_the_allocator() {
    for (annotate, check_ssa) in [(false, false), (false, true), (true, false), (true, true)] {
        let c = start(annotate, check_ssa);
        match c.action() {
            Action::Allocate { func, env, ctx, annotate: a, check_ssa: s } => {
                assert_eq!((*func, *env, *ctx, a, s), ("f", 64, 'c', annotate, check_ssa));
            }
            other => panic!("expected a run of the allocator, got {:?}", other),
        }
    }
}

#[test]
fn allocated_and_verified_passes() {
    let c = tell(start(true, true), Event::Allocated(Ok(())));
    match c.action() {
        Action::Verify { func, env, ctx } => assert_eq!((*func, *env, *ctx), ("f", 64, 'c')),
        other => panic!("expected a run of the checker, got {:?}", other),
    }
    let c = tell(c, Event::Verified(Ok(())));
    assert!(matches!(c.action(), Action::Return));
}

#[test]
fn rejected_allocation_panics() {
    let c = tell(start(false, false), Event::Allocated(Ok(())));
    let c = tell(c, Event::Verified(Err(text("CheckerErrors { errors: [] }"))));
    assert_eq!(panic_message(&c), "checker failed: CheckerErrors { errors: [] }");
}

#[test]
fn failed_allocation_is_dumped_then_reported() {
    let c = tell(start(false, false), Event::Allocated(Err(text("TooManyLiveRegs"))));
    match c.action() {
        Action::Serialize { func, env } => assert_eq!((*func, *env), ("f", 64)),
        other => panic!("expected the function to be serialized, got {:?}", other),
    }
    let c = tell(c, Event::Serialized(Ok(vec![1, 2, 3])));
    match c.action() {
        Action::Write { path, bytes } => {
            assert_eq!(path, "fuzz-input.bin");
            assert_eq!(path, DUMP_PATH);
            assert_eq!(*bytes, vec![1, 2, 3]);
        }
        other => panic!("expected a dump, got {:?}", other),
    }
    let c = tell(c, Event::Written(Ok(())));
    assert_eq!(panic_message(&c), "regalloc failed: TooManyLiveRegs");
}

#[test]
fn function_that_cannot_be_serialized_panics() {
    let c = tell(start(false, false), Event::Allocated(Err(text("TooManyLiveRegs"))));
    let c = tell(c, Event::Serialized(Err(text("SizeLimit"))));
    assert_eq!(panic_message(&c), "could not serialize function: SizeLimit");
}

#[test]
fn dump_that_cannot_be_written_panics() {
    let c = tell(start(false, false), Event::Allocated(Err(text("TooManyLiveRegs"))));
    let c = tell(c, Event::Serialized(Ok(vec![9])));
    let c = tell(c, Event::Written(Err(text("PermissionDenied"))));
    assert_eq!(panic_message(&c), "unable to write to file: PermissionDenied");
}

#[test]
fn each_stage_awaits_its_own_event() {
    let c = start(false, false);
    assert_eq!(awaited(&c), [true, false, false, false]);
    let verifying = tell(c, Event::Allocated(Ok(())));
    assert_eq!(awaited(&verifying), [false, false, false, true]);
    let passed = tell(verifying, Event::Verified(Ok(())));
    assert_eq!(awaited(&passed), [false, false, false, false]);

    let serializing = tell(start(false, false), Event::Allocated(Err(text("e"))));
    assert_eq!(awaited(&serializing), [false, true, false, false]);
    let writing = tell(serializing, Event::Serialized(Ok(vec![])));
    assert_eq!(awaited(&writing), [false, false, true, false]);
    let panicked = tell(writing, Event::Written(Ok(())));
    assert_eq!(awaited(&panicked), [false, false, false, false]);
}

#[test]
fn every_check_is_over_after_three_events() {
    let outcomes: Vec<fn() -> Vec<Event>> = vec![one_event_of_each_kind, || {
        vec![
            Event::Allocated(Err(text("a"))),
            Event::Serialized(Err(text("b"))),
            Event::Written(Err(text("c"))),
            Event::Verified(Err(text("d"))),
        ]
    }];
    for first in &outcomes {
        for second in &outcomes {
            for third in &outcomes {
                let mut c = start(false, false);
                for events in [first, second, third] {
                    if let Some(event) = events().into_iter().find(|event| c.awaits(event)) {
                        c = c.step(event);
                    }
                }
                assert!(matches!(c.action(), Action::Return | Action::Panic { .. }));
            }
        }
    }
}
