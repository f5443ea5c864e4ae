use std::cell::RefCell;

use arbitrary::{Result, Unstructured};
use ion_fuzz::check::{check, Action, Event};
use ion_fuzz::test_case::{Options, TestCase};

/// Live ranges, each by its first and its last point.
type Func = Vec<(u8, u8)>;

/// What an allocator keeps between runs: for each live range its location.
struct Ctx {
    output: Vec<usize>,
}

fn generate(u: &mut Unstructured<'_>, _: &Options) -> Result<Func> {
    let mut func = Func::new();
    let count: usize = u.int_in_range(0..=40)?;
    for _ in 0..count {
        let first: u8 = u.int_in_range(0..=200)?;
        func.push((first, u.int_in_range(first..=255)?));
    }
    Ok(func)
}

fn overlap(a: (u8, u8), b: (u8, u8)) -> bool {
    a.0 <= b.1 && b.0 <= a.1
}

/// Gives each live range the first location that no range in its way has, or fails where there
/// are fewer than `locations` needed.
fn run(func: &Func, locations: usize, ctx: &mut Ctx) -> std::result::Result<(), String> {
    ctx.output.clear();
    for (i, range) in func.iter().enumerate() {
        let free = (0..locations).find(|&location| {
            (0..i).all(|j| ctx.output[j] != location || !overlap(func[j], *range))
        });
        match free {
            Some(location) => ctx.output.push(location),
            None => return Err("TooManyLiveRegs".to_string()),
        }
    }
    Ok(())
}

/// Accepts an allocation that covers the function and shares no location between ranges that
/// overlap.
fn verify(func: &Func, ctx: &Ctx) -> std::result::Result<(), String> {
    if ctx.output.len() != func.len() {
        return Err("MissingAllocation".to_string());
    }
    for i in 0..func.len() {
        for j in 0..i {
            if ctx.output[i] == ctx.output[j] && overlap(func[i], func[j]) {
                return Err("Conflict".to_string());
            }
        }
    }
    Ok(())
}

/// Puts `t` through a check. Gives the message of the panic that it ends in, and what was dumped.
fn run_check(
    t: TestCase<Func>,
    locations: usize,
    ctx: &RefCell<Ctx>,
) -> (Option<String>, Option<Vec<u8>>) {
    let mut dump = None;
    let mut c = check(t, locations, ctx);
    loop {
        let event = match c.action() {
            Action::Allocate { func, env, ctx, .. } => {
                Event::Allocated(run(func, *env, &mut ctx.borrow_mut()))
            }
            Action::Serialize { func, .. } => {
                Event::Serialized(Ok(func.iter().flat_map(|r| vec![r.0, r.1]).collect()))
            }
            Action::Write { bytes, .. } => {
                dump = Some(bytes.clone());
                Event::Written(Ok(()))
            }
            Action::Verify { func, ctx, .. } => Event::Verified(verify(func, &ctx.borrow())),
            Action::Return => return (None, dump),
            Action::Panic { message } => return (Some(message.clone()), dump),
        };
        assert!(c.awaits(&event));
        c = c.step(event);
    }
}

#[test]
fn smoke() {
    let ctx = RefCell::new(Ctx { output: vec![] });
    arbtest::arbtest(|u| {
        let test_case = TestCase::arbitrary(u, generate)?;
        let (panicked, dump) = run_check(test_case, 40, &ctx);
        assert_eq!(panicked, None);
        assert_eq!(dump, None);
        Ok(())
    })
    .budget_ms(1_000);
}

#[test]
fn too_few_registers_leave_a_dump() {
    let ctx = RefCell::new(Ctx { output: vec![] });
    let func = vec![(0, 9), (1, 8), (2, 7)];
    let t = TestCase { func: func.clone(), annotate: false, check_ssa: false };
    let (panicked, dump) = run_check(t, 2, &ctx);
    assert_eq!(panicked.unwrap(), "regalloc failed: TooManyLiveRegs");
    assert_eq!(dump.unwrap(), vec![0, 9, 1, 8, 2, 7]);

    let t = TestCase { func, annotate: false, check_ssa: false };
    let (panicked, dump) = run_check(t, 3, &ctx);
    assert_eq!((panicked, dump), (None, None));
}
