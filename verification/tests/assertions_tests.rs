use gravlib::test_framework::assertions::{
    assert_equals, assert_true, assert_within_range, Assert,
};
use gravlib::test_framework::TestError;

#[test]
fn equals_compares_and_renders_both_sides() {
    let same = Assert::equals(50.0, 50.0, "Proportional term should be 10.0 * 5.0 = 50.0");
    assert!(same.passed);
    assert_eq!(same.expected, "50.0");
    assert_eq!(same.actual, "50.0");
    assert_eq!(same.message, "Proportional term should be 10.0 * 5.0 = 50.0");
    let different = Assert::equals(3u32, 4u32, "m");
    assert!(!different.passed);
    assert_eq!(different.expected, "3");
    assert_eq!(different.actual, "4");
}

#[test]
fn equals_renders_strings_with_quotes() {
    let r = Assert::equals("a", "b", "letters");
    assert!(!r.passed);
    assert_eq!(r.expected, "\"a\"");
    assert_eq!(r.actual, "\"b\"");
}

#[test]
fn not_equals_negates() {
    let r = Assert::not_equals(1, 2, "differ");
    assert!(r.passed);
    assert_eq!(r.expected, "not 1");
    assert_eq!(r.actual, "2");
    assert!(!Assert::not_equals(7, 7, "same").passed);
}

#[test]
fn greater_than_is_strict() {
    let r = Assert::greater_than(0.0, 0.5, "Integral should have accumulated");
    assert!(r.passed);
    assert_eq!(r.expected, "> 0.0");
    assert_eq!(r.actual, "0.5");
    assert!(!Assert::greater_than(5, 5, "equal").passed);
    assert!(!Assert::greater_than(5, 4, "less").passed);
}

#[test]
fn less_than_is_strict() {
    let r = Assert::less_than(6.0, 5.0, "Output change should be limited by slew rate");
    assert!(r.passed);
    assert_eq!(r.expected, "< 6.0");
    assert_eq!(r.actual, "5.0");
    assert!(!Assert::less_than(5, 5, "equal").passed);
    assert!(!Assert::less_than(5, 6, "greater").passed);
}

#[test]
fn comparisons_with_nan_fail() {
    assert!(!Assert::greater_than(0.0, f64::NAN, "nan").passed);
    assert!(!Assert::less_than(0.0, f64::NAN, "nan").passed);
    assert!(!Assert::within_range(0.0, 1.0, f64::NAN, "nan").passed);
    assert!(!Assert::equals(f64::NAN, f64::NAN, "nan").passed);
}

#[test]
fn within_range_is_closed() {
    let r = Assert::within_range(80.0, 100.0, 90.0, "Should turn approximately 90 degrees");
    assert!(r.passed);
    assert_eq!(r.expected, "[80.0, 100.0]");
    assert_eq!(r.actual, "90.0");
    assert!(Assert::within_range(1, 3, 1, "low end").passed);
    assert!(Assert::within_range(1, 3, 3, "high end").passed);
    assert!(!Assert::within_range(1, 3, 0, "below").passed);
    assert!(!Assert::within_range(1, 3, 4, "above").passed);
}

#[test]
fn is_true_and_is_false_report_the_condition() {
    let t = Assert::is_true(true, "t");
    assert!(t.passed);
    assert_eq!(t.expected, "true");
    assert_eq!(t.actual, "true");
    let f = Assert::is_true(false, "f");
    assert!(!f.passed);
    assert_eq!(f.actual, "false");
    let g = Assert::is_false(false, "g");
    assert!(g.passed);
    assert_eq!(g.expected, "false");
    assert_eq!(g.actual, "false");
    let h = Assert::is_false(true, "h");
    assert!(!h.passed);
    assert_eq!(h.actual, "true");
    assert_eq!(h.message, "h");
}

#[test]
fn contains_finds_substrings() {
    let r = Assert::contains("Drivebase Forward Motion", "Forward", "name");
    assert!(r.passed);
    assert_eq!(r.expected, "contains 'Forward'");
    assert_eq!(r.actual, "Drivebase Forward Motion");
    assert!(!Assert::contains("Drivebase", "Odometry", "name").passed);
    assert!(!Assert::contains("abc", "abcd", "longer").passed);
    assert!(Assert::contains("abc", "", "empty needle").passed);
    assert!(Assert::contains("", "", "both empty").passed);
    assert!(Assert::contains("θ: 90°", "90°", "unicode").passed);
}

#[test]
fn option_assertions() {
    let some: Option<u8> = Some(1);
    let none: Option<u8> = None;
    let a = Assert::is_some(&some, "a");
    assert!(a.passed);
    assert_eq!(a.expected, "Some(_)");
    assert_eq!(a.actual, "Some(_)");
    let b = Assert::is_some(&none, "b");
    assert!(!b.passed);
    assert_eq!(b.actual, "None");
    let c = Assert::is_none(&none, "c");
    assert!(c.passed);
    assert_eq!(c.expected, "None");
    assert_eq!(c.actual, "None");
    let d = Assert::is_none(&some, "d");
    assert!(!d.passed);
    assert_eq!(d.actual, "Some(_)");
}

#[test]
fn result_assertions() {
    let ok: Result<u8, ()> = Ok(1);
    let err: Result<u8, ()> = Err(());
    let a = Assert::is_ok(&ok, "a");
    assert!(a.passed);
    assert_eq!(a.expected, "Ok(_)");
    assert_eq!(a.actual, "Ok(_)");
    let b = Assert::is_ok(&err, "b");
    assert!(!b.passed);
    assert_eq!(b.actual, "Err(_)");
    let c = Assert::is_err(&err, "c");
    assert!(c.passed);
    assert_eq!(c.expected, "Err(_)");
    assert_eq!(c.actual, "Err(_)");
    let d = Assert::is_err(&ok, "d");
    assert!(!d.passed);
    assert_eq!(d.actual, "Ok(_)");
}

#[test]
fn assert_equals_reports_both_sides() {
    assert!(assert_equals(2, 2, "two").is_ok());
    match assert_equals(2, 3, "count") {
        Err(TestError::AssertionFailed(text)) => assert_eq!(text, "count: expected 2, got 3"),
        other => panic!("unexpected {:?}", other),
    }
}

#[test]
fn assert_within_range_reports_the_interval() {
    assert!(assert_within_range(1, 3, 2, "in").is_ok());
    match assert_within_range(1.0, 3.0, 3.5, "heading") {
        Err(TestError::AssertionFailed(text)) => {
            assert_eq!(text, "heading: expected [1.0, 3.0], got 3.5")
        }
        other => panic!("unexpected {:?}", other),
    }
}

#[test]
fn assert_true_reports_the_message_only() {
    assert!(assert_true(true, "fine").is_ok());
    match assert_true(false, "sensor answered") {
        Err(TestError::AssertionFailed(text)) => assert_eq!(text, "sensor answered"),
        other => panic!("unexpected {:?}", other),
    }
}
