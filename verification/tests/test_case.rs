use arbitrary::{Error, Result, Unstructured};
use ion_fuzz::test_case::{options, Options, TestCase};

/// Takes two bytes as the function.
fn two_bytes(u: &mut Unstructured<'_>, _: &Options) -> Result<(u8, u8)> {
    Ok((u.arbitrary()?, u.arbitrary()?))
}

fn settings(bytes: &[u8]) -> (bool, bool) {
    let mut u = Unstructured::new(bytes);
    let t = TestCase::arbitrary_settings("f", &mut u).unwrap();
    assert_eq!(t.func, "f");
    (t.annotate, t.check_ssa)
}

#[test]
fn options_switch_everything_on() {
    assert_eq!(
        options(),
        Options {
            reused_inputs: true,
            fixed_regs: true,
            fixed_nonallocatable: true,
            clobbers: true,
            reftypes: true,
            callsite_ish_constraints: true,
            limit_constraints: true,
        }
    );
}

#[test]
fn generator_is_given_the_options_and_the_whole_input() {
    let mut u = Unstructured::new(&[1, 2, 3]);
    let t = TestCase::arbitrary(&mut u, |v: &mut Unstructured<'_>, given: &Options| {
        assert_eq!(*given, options());
        Ok(v.len())
    });
    assert_eq!(t.unwrap().func, 3);
}

#[test]
fn settings_follow_the_function() {
    let mut u = Unstructured::new(&[10, 20, 1, 0, 99]);
    let t = TestCase::arbitrary(&mut u, two_bytes).unwrap();
    assert_eq!(t.func, (10, 20));
    assert!(t.annotate);
    assert!(!t.check_ssa);
    assert_eq!(u.len(), 1);
    assert_eq!(u.arbitrary::<u8>().unwrap(), 99);
}

#[test]
fn each_setting_is_the_lowest_bit_of_its_byte() {
    assert_eq!(settings(&[0, 0]), (false, false));
    assert_eq!(settings(&[0, 1]), (false, true));
    assert_eq!(settings(&[1, 0]), (true, false));
    assert_eq!(settings(&[1, 1]), (true, true));
    assert_eq!(settings(&[0xfe, 0xff]), (false, true));
    assert_eq!(settings(&[3, 2]), (true, false));
}

#[test]
fn later_bytes_do_not_change_the_settings() {
    assert_eq!(settings(&[1, 0, 1, 1, 1]), settings(&[1, 0]));
}

#[test]
fn exhausted_input_switches_settings_off() {
    assert_eq!(settings(&[]), (false, false));
    assert_eq!(settings(&[1]), (true, false));

    let mut u = Unstructured::new(&[7]);
    let t = TestCase::arbitrary(&mut u, two_bytes).unwrap();
    assert_eq!(t.func, (7, 0));
    assert!(!t.annotate && !t.check_ssa);
    assert!(u.is_empty());
}

#[test]
fn error_of_the_generator_is_passed_on() {
    for error in [Error::EmptyChoose, Error::NotEnoughData, Error::IncorrectFormat] {
        let mut u = Unstructured::new(&[1, 1, 1]);
        let t: Result<TestCase<u8>> =
            TestCase::arbitrary(&mut u, |v: &mut Unstructured<'_>, _: &Options| {
                v.arbitrary::<u8>()?;
                Err(error)
            });
        assert_eq!(t.unwrap_err(), error);
        assert_eq!(u.len(), 2);
    }
}

#[test]
fn test_case_can_be_cloned_and_shown() {
    let t = TestCase { func: 5u8, annotate: true, check_ssa: false };
    let copy = t.clone();
    assert_eq!((copy.func, copy.annotate, copy.check_ssa), (5, true, false));
    assert_eq!(format!("{:?}", t), "TestCase { func: 5, annotate: true, check_ssa: false }");
}
