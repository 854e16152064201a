use cap_delegate::Bar;
use cap_delegate::Baz;
use cap_delegate::BazT;
use cap_delegate::CapError;
use cap_delegate::Expectation;
use cap_delegate::Foo;
use cap_delegate::MockFoo;
use cap_delegate::Outcome;
use cap_delegate::RandomFoo;
use cap_delegate::outcome_of_byte;

/// The randomized capability, seen through the wrapper, eventually
/// succeeds, and every success carries the fixed value 1.
#[test]
fn test_framework() {
    let mut baz = Baz::new(RandomFoo {});
    let mut first_success: Option<Result<i32, CapError>> = None;
    for _ in 0..10000 {
        let r = baz.baz();
        if r.is_ok() {
            first_success = Some(r);
            break;
        }
    }
    let r = first_success.expect("no success in 10000 random draws");
    assert_eq!(Some(1), r.ok());
}

/// A programmable capability answering with a deferred outcome holding
/// value 2 makes the wrapper report success 2.
#[test]
fn test_with_mock() {
    let mut mock = MockFoo::new();
    mock.expect_bar(Expectation::new(1, Outcome::Custom(Bar { value: 2 })));
    let mut baz = Baz::new(mock);
    assert_eq!(2, baz.baz().unwrap());
}

/// Over many trials the randomized double produces both a success and
/// an error, and every outcome is one of the two fixed ones.
#[test]
fn random_double_covers_both_branches() {
    let mut cap = RandomFoo {};
    let mut saw_ok = false;
    let mut saw_err = false;
    for _ in 0..10000 {
        match cap.bar() {
            Ok(v) => {
                assert_eq!(1, v);
                saw_ok = true;
            }
            Err(e) => {
                assert_eq!(12, e.code);
                saw_err = true;
            }
        }
        if saw_ok && saw_err {
            break;
        }
    }
    assert!(saw_ok && saw_err);
}

/// The threshold rule on concrete bytes: strictly above 100 succeeds
/// with 1, everything else fails with code 12.
#[test]
fn threshold_rule_exact_values() {
    assert_eq!(Ok(1), outcome_of_byte(101));
    assert_eq!(Ok(1), outcome_of_byte(255));
    assert_eq!(Err(CapError { code: 12 }), outcome_of_byte(100));
    assert_eq!(Err(CapError { code: 12 }), outcome_of_byte(0));
}

/// A double programmed to return success 2 on its first call yields
/// exactly 2 once, and afterwards reports that no further call is
/// configured rather than fabricating a result.
#[test]
fn programmed_success_is_deterministic() {
    let mut mock = MockFoo::new();
    mock.expect_bar(Expectation::new(1, Outcome::Ready(Ok(2))));
    assert!(mock.ready());
    let mut baz = Baz::new(mock);
    assert!(baz.ready());
    assert_eq!(Ok(2), baz.baz());
    assert!(!baz.ready());
}

/// A fresh programmable double has nothing configured and says so.
#[test]
fn unconfigured_mock_is_not_ready() {
    let mock = MockFoo::new();
    assert!(!mock.ready());
}

/// Expectations are consumed in registration order, first unexhausted
/// expectation first, each for as many calls as it was given.
#[test]
fn expectations_consumed_in_order() {
    let mut mock = MockFoo::new();
    mock.expect_bar(Expectation::new(2, Outcome::Ready(Ok(7))));
    mock.expect_bar(Expectation::new(1, Outcome::Ready(Err(CapError { code: 12 }))));
    let mut baz = Baz::new(mock);
    assert_eq!(Ok(7), baz.baz());
    assert_eq!(Ok(7), baz.baz());
    assert_eq!(Err(CapError { code: 12 }), baz.baz());
    assert!(!baz.ready());
}

/// A deferred outcome resolves to success for a non-negative stored
/// value and to the fixed error code for a negative one, and resolving
/// it again gives the same answer.
#[test]
fn custom_outcome_semantics() {
    let pos = Bar { value: 5 };
    assert_eq!(Ok(5), pos.resolve());
    assert_eq!(Ok(5), pos.resolve());
    let zero = Bar { value: 0 };
    assert_eq!(Ok(0), zero.resolve());
    let neg = Bar { value: -3 };
    assert_eq!(Err(CapError { code: 12 }), neg.resolve());
    assert_eq!(Err(CapError { code: 12 }), neg.resolve());
}

/// An error built from a raw code reports that code.
#[test]
fn error_carries_raw_code() {
    let e = CapError::from_raw_code(12);
    assert_eq!(12, e.code);
}

/// Two wrappers built from two independent capabilities do not share
/// state: draining one leaves the other's programmed answers intact.
#[test]
fn independent_wrappers_do_not_share_state() {
    let mut first = MockFoo::new();
    first.expect_bar(Expectation::new(1, Outcome::Ready(Ok(10))));
    let mut second = MockFoo::new();
    second.expect_bar(Expectation::new(1, Outcome::Ready(Ok(20))));

    let mut baz_first = Baz::new(first);
    let mut baz_second = Baz::new(second);

    assert_eq!(Ok(10), baz_first.baz());
    assert!(!baz_first.ready());
    assert!(baz_second.ready());
    assert_eq!(Ok(20), baz_second.baz());
}
