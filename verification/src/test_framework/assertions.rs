//! Assertions that return a report.
//!
//! Each assertion compares, renders both sides as text and hands back an
//! `AssertionResult`; nothing panics. Comparisons go through the type's own
//! `==` or `<`, so what `passed` means is stated for the types whose
//! comparison has a specification.

use vstd::prelude::*;
use core::cmp::Ordering;
use core::fmt::Debug;
use vstd::std_specs::cmp::PartialEqSpec;
use vstd::std_specs::cmp::PartialOrdSpec;
use crate::test_framework::{AssertionResult, TestError};

verus! {

/// Renders a value the way `{:?}` prints it, through `format!`. What the
/// text is depends on the type's own `Debug` implementation, so nothing is
/// claimed of it.
#[verifier::external_body]
fn debug_text<T: Debug>(value: &T) -> (text: String) {
    format!("{:?}", value)
}

/// Whether `needle` occurs in `haystack` as a contiguous run of characters.
pub open spec fn occurs_in(needle: Seq<char>, haystack: Seq<char>) -> bool {
    exists|i: int|
        0 <= i <= haystack.len() - needle.len() && #[trigger] haystack.subrange(
            i,
            i + needle.len(),
        ) == needle
}

/// Substring search by `str::contains` with a string pattern: true exactly
/// when the pattern occurs in the text. The empty pattern occurs everywhere.
#[verifier::external_body]
fn str_contains(haystack: &str, needle: &str) -> (found: bool)
    ensures
        found == occurs_in(needle@, haystack@),
{
    haystack.contains(needle)
}

/// The text of a failed `assert_*` check: message, then both sides.
pub open spec fn failure_text(message: Seq<char>, expected: Seq<char>, actual: Seq<char>) -> Seq<
    char,
> {
    message + ": expected "@ + expected + ", got "@ + actual
}

/// The text of a closed interval between two rendered bounds.
pub open spec fn interval_text(lo: Seq<char>, hi: Seq<char>) -> Seq<char> {
    "["@ + lo + ", "@ + hi + "]"@
}

fn failure_message(message: &str, result: &AssertionResult) -> (text: String)
    ensures
        text@ == failure_text(message@, result.expected@, result.actual@),
{
    let mut text = message.to_owned();
    text.append(": expected ");
    text.append(result.expected.as_str());
    text.append(", got ");
    text.append(result.actual.as_str());
    text
}

/// `x > y` as the type's partial order has it.
pub open spec fn is_greater<T: PartialOrd>(x: T, y: T) -> bool {
    x.partial_cmp_spec(&y) == Some(Ordering::Greater)
}

/// `x < y` as the type's partial order has it.
pub open spec fn is_less<T: PartialOrd>(x: T, y: T) -> bool {
    x.partial_cmp_spec(&y) == Some(Ordering::Less)
}

/// `lo <= x && x <= hi` as the type's partial order has it.
pub open spec fn is_between<T: PartialOrd>(lo: T, hi: T, x: T) -> bool {
    &&& x.partial_cmp_spec(&lo) matches Some(Ordering::Greater | Ordering::Equal)
    &&& x.partial_cmp_spec(&hi) matches Some(Ordering::Less | Ordering::Equal)
}

/// The assertions, as associated functions.
pub struct Assert;

impl Assert {
    /// Passes when `expected == actual`.
    pub fn equals<T: PartialEq + Debug>(expected: T, actual: T, message: &str) -> (r:
        AssertionResult)
        ensures
            T::obeys_eq_spec() ==> r.passed == expected.eq_spec(&actual),
            r.message@ == message@,
    {
        let passed = expected == actual;
        AssertionResult {
            passed,
            expected: debug_text(&expected),
            actual: debug_text(&actual),
            message: message.to_owned(),
        }
    }

    /// Passes when `not_expected != actual`. The expected side reads `not `
    /// and the value.
    pub fn not_equals<T: PartialEq + Debug>(not_expected: T, actual: T, message: &str) -> (r:
        AssertionResult)
        ensures
            T::obeys_eq_spec() ==> r.passed == !not_expected.eq_spec(&actual),
            r.message@ == message@,
            "not "@.is_prefix_of(r.expected@),
    {
        let passed = not_expected != actual;
        let value = debug_text(&not_expected);
        let mut expected = "not ".to_owned();
        expected.append(value.as_str());
        AssertionResult {
            passed,
            expected,
            actual: debug_text(&actual),
            message: message.to_owned(),
        }
    }

    /// Passes when `actual > threshold`. The expected side reads `> ` and
    /// the threshold.
    pub fn greater_than<T: PartialOrd + Debug>(threshold: T, actual: T, message: &str) -> (r:
        AssertionResult)
        ensures
            T::obeys_partial_cmp_spec() ==> r.passed == is_greater(actual, threshold),
            r.message@ == message@,
            "> "@.is_prefix_of(r.expected@),
    {
        let passed = actual > threshold;
        let value = debug_text(&threshold);
        let mut expected = "> ".to_owned();
        expected.append(value.as_str());
        AssertionResult {
            passed,
            expected,
            actual: debug_text(&actual),
            message: message.to_owned(),
        }
    }

    /// Passes when `actual < threshold`. The expected side reads `< ` and
    /// the threshold.
    pub fn less_than<T: PartialOrd + Debug>(threshold: T, actual: T, message: &str) -> (r:
        AssertionResult)
        ensures
            T::obeys_partial_cmp_spec() ==> r.passed == is_less(actual, threshold),
            r.message@ == message@,
            "< "@.is_prefix_of(r.expected@),
    {
        let passed = actual < threshold;
        let value = debug_text(&threshold);
        let mut expected = "< ".to_owned();
        expected.append(value.as_str());
        AssertionResult {
            passed,
            expected,
            actual: debug_text(&actual),
            message: message.to_owned(),
        }
    }

    /// Passes when `min <= actual <= max`. The expected side reads as the
    /// closed interval.
    pub fn within_range<T: PartialOrd + Debug>(min: T, max: T, actual: T, message: &str) -> (r:
        AssertionResult)
        ensures
            T::obeys_partial_cmp_spec() ==> r.passed == is_between(min, max, actual),
            r.message@ == message@,
            exists|lo: Seq<char>, hi: Seq<char>| r.expected@ == #[trigger] interval_text(lo, hi),
    {
        let passed = actual >= min && actual <= max;
        let lo = debug_text(&min);
        let hi = debug_text(&max);
        let mut expected = "[".to_owned();
        expected.append(lo.as_str());
        expected.append(", ");
        expected.append(hi.as_str());
        expected.append("]");
        assert(expected@ == interval_text(lo@, hi@));
        AssertionResult {
            passed,
            expected,
            actual: debug_text(&actual),
            message: message.to_owned(),
        }
    }

    /// Passes when the condition holds.
    pub fn is_true(condition: bool, message: &str) -> (r: AssertionResult)
        ensures
            r.passed == condition,
            r.expected@ == "true"@,
            r.actual@ == if condition {
                "true"@
            } else {
                "false"@
            },
            r.message@ == message@,
    {
        AssertionResult {
            passed: condition,
            expected: "true".to_owned(),
            actual: if condition {
                "true".to_owned()
            } else {
                "false".to_owned()
            },
            message: message.to_owned(),
        }
    }

    /// Passes when the condition does not hold.
    pub fn is_false(condition: bool, message: &str) -> (r: AssertionResult)
        ensures
            r.passed == !condition,
            r.expected@ == "false"@,
            r.actual@ == if condition {
                "true"@
            } else {
                "false"@
            },
            r.message@ == message@,
    {
        AssertionResult {
            passed: !condition,
            expected: "false".to_owned(),
            actual: if condition {
                "true".to_owned()
            } else {
                "false".to_owned()
            },
            message: message.to_owned(),
        }
    }

    /// Passes when `needle` occurs in `haystack`.
    pub fn contains(haystack: &str, needle: &str, message: &str) -> (r: AssertionResult)
        ensures
            r.passed == occurs_in(needle@, haystack@),
            r.expected@ == "contains '"@ + needle@ + "'"@,
            r.actual@ == haystack@,
            r.message@ == message@,
    {
        let passed = str_contains(haystack, needle);
        let mut expected = "contains '".to_owned();
        expected.append(needle);
        expected.append("'");
        AssertionResult {
            passed,
            expected,
            actual: haystack.to_owned(),
            message: message.to_owned(),
        }
    }

    /// Passes when the option holds a value.
    pub fn is_some<T>(option: &Option<T>, message: &str) -> (r: AssertionResult)
        ensures
            r.passed == (option is Some),
            r.expected@ == "Some(_)"@,
            r.actual@ == if option is Some {
                "Some(_)"@
            } else {
                "None"@
            },
            r.message@ == message@,
    {
        let passed = option.is_some();
        AssertionResult {
            passed,
            expected: "Some(_)".to_owned(),
            actual: if passed {
                "Some(_)".to_owned()
            } else {
                "None".to_owned()
            },
            message: message.to_owned(),
        }
    }

    /// Passes when the option is empty.
    pub fn is_none<T>(option: &Option<T>, message: &str) -> (r: AssertionResult)
        ensures
            r.passed == (option is None),
            r.expected@ == "None"@,
            r.actual@ == if option is None {
                "None"@
            } else {
                "Some(_)"@
            },
            r.message@ == message@,
    {
        let passed = option.is_none();
        AssertionResult {
            passed,
            expected: "None".to_owned(),
            actual: if passed {
                "None".to_owned()
            } else {
                "Some(_)".to_owned()
            },
            message: message.to_owned(),
        }
    }

    /// Passes when the result is `Ok`.
    pub fn is_ok<T, E>(result: &Result<T, E>, message: &str) -> (r: AssertionResult)
        ensures
            r.passed == (result is Ok),
            r.expected@ == "Ok(_)"@,
            r.actual@ == if result is Ok {
                "Ok(_)"@
            } else {
                "Err(_)"@
            },
            r.message@ == message@,
    {
        let passed = result.is_ok();
        AssertionResult {
            passed,
            expected: "Ok(_)".to_owned(),
            actual: if passed {
                "Ok(_)".to_owned()
            } else {
                "Err(_)".to_owned()
            },
            message: message.to_owned(),
        }
    }

    /// Passes when the result is `Err`.
    pub fn is_err<T, E>(result: &Result<T, E>, message: &str) -> (r: AssertionResult)
        ensures
            r.passed == (result is Err),
            r.expected@ == "Err(_)"@,
            r.actual@ == if result is Err {
                "Err(_)"@
            } else {
                "Ok(_)"@
            },
            r.message@ == message@,
    {
        let passed = result.is_err();
        AssertionResult {
            passed,
            expected: "Err(_)".to_owned(),
            actual: if passed {
                "Err(_)".to_owned()
            } else {
                "Ok(_)".to_owned()
            },
            message: message.to_owned(),
        }
    }
}

/// `Ok` when `expected == actual`, else an `AssertionFailed` whose text is
/// the message, then both sides as rendered.
pub fn assert_equals<T: PartialEq + Debug>(expected: T, actual: T, message: &str) -> (r: Result<
    (),
    TestError,
>)
    ensures
        T::obeys_eq_spec() ==> (r is Ok <==> expected.eq_spec(&actual)),
        r is Err ==> r->Err_0 is AssertionFailed && exists|e: Seq<char>, a: Seq<char>|
            r->Err_0->AssertionFailed_0@ == #[trigger] failure_text(message@, e, a),
{
    let result = Assert::equals(expected, actual, message);
    if result.passed {
        Ok(())
    } else {
        let text = failure_message(message, &result);
        assert(text@ == failure_text(message@, result.expected@, result.actual@));
        Err(TestError::AssertionFailed(text))
    }
}

/// `Ok` when `min <= actual <= max`, else an `AssertionFailed` whose text
/// is the message, then the interval and the value as rendered.
pub fn assert_within_range<T: PartialOrd + Debug + Copy>(
    min: T,
    max: T,
    actual: T,
    message: &str,
) -> (r: Result<(), TestError>)
    ensures
        T::obeys_partial_cmp_spec() ==> (r is Ok <==> is_between(min, max, actual)),
        r is Err ==> r->Err_0 is AssertionFailed && exists|
            lo: Seq<char>,
            hi: Seq<char>,
            a: Seq<char>,
        |
            r->Err_0->AssertionFailed_0@ == #[trigger] failure_text(
                message@,
                interval_text(lo, hi),
                a,
            ),
{
    let result = Assert::within_range(min, max, actual, message);
    if result.passed {
        Ok(())
    } else {
        let text = failure_message(message, &result);
        proof {
            let (lo, hi): (Seq<char>, Seq<char>) = choose|lo: Seq<char>, hi: Seq<char>|
                result.expected@ == #[trigger] interval_text(lo, hi);
            assert(text@ == failure_text(message@, interval_text(lo, hi), result.actual@));
        }
        Err(TestError::AssertionFailed(text))
    }
}

/// `Ok` when the condition holds, else an `AssertionFailed` with the message.
pub fn assert_true(condition: bool, message: &str) -> (r: Result<(), TestError>)
    ensures
        r is Ok <==> condition,
        r is Err ==> r->Err_0 is AssertionFailed && r->Err_0->AssertionFailed_0@ == message@,
{
    let result = Assert::is_true(condition, message);
    if result.passed {
        Ok(())
    } else {
        Err(TestError::AssertionFailed(message.to_owned()))
    }
}

} // verus!
