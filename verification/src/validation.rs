//! The checks that request bodies go through before the API stores them,
//! and how the failed checks of a body are collected.

use vstd::prelude::*;
use crate::errors::{ValidationError, ValidationErrors, field_failures_view};

verus! {

/// The abstract value of one failed check: its code and its message.
pub type Failure = (Seq<char>, Option<Seq<char>>);

/// The abstract value of the failed checks of one field, under its name.
pub type FieldFailures = (Seq<char>, Seq<Failure>);

/// The longest label, version or file name that the API stores.
pub const MAX_TEXT_LENGTH: u64 = 100;

/// The largest identifier.
pub const MAX_ID: i64 = i64::MAX;

/// The failed check of a value that must be present.
pub open spec fn required_failure() -> Failure {
    ("required"@, None)
}

/// The failed check of a length.
pub open spec fn length_failure() -> Failure {
    ("length"@, None)
}

/// The failed check of a numeric range.
pub open spec fn range_failure() -> Failure {
    ("range"@, None)
}

/// The failed check of a colour's format.
pub open spec fn color_failure() -> Failure {
    ("regex"@, Some("invalid color format"@))
}

/// Whether a length passes a check with the given bounds: an exact length
/// where one is given, else the lower and upper bounds that are given.
pub open spec fn length_within(len: nat, min: Option<u64>, max: Option<u64>, equal: Option<u64>) -> bool {
    match equal {
        Some(e) => len == e,
        None => (min matches Some(m) ==> len >= m) && (max matches Some(m) ==> len <= m),
    }
}

/// Whether a number lies within the bounds that are given.
pub open spec fn range_within(value: i64, min: Option<i64>, max: Option<i64>) -> bool {
    (max matches Some(m) ==> value <= m) && (min matches Some(m) ==> value >= m)
}

/// Whether a character is a hexadecimal digit.
pub open spec fn is_hex_digit(c: char) -> bool {
    ('0' <= c && c <= '9') || ('a' <= c && c <= 'f') || ('A' <= c && c <= 'F')
}

/// Whether a text is a colour in hexadecimal notation: `#` followed by
/// exactly six hexadecimal digits, and nothing else.
pub open spec fn hex_color(s: Seq<char>) -> bool {
    &&& s.len() == 7
    &&& s[0] == '#'
    &&& forall|i: int| 1 <= i < 7 ==> #[trigger] is_hex_digit(s[i])
}

/// The hexadecimal digits are exactly the ten decimal digits and the six
/// letters `a` to `f`, in lower or upper case.
pub proof fn lemma_hex_digits(c: char)
    ensures
        is_hex_digit(c) <==> (c == '0' || c == '1' || c == '2' || c == '3' || c == '4' || c == '5' || c == '6' || c == '7' || c == '8' || c == '9' || c == 'a' || c == 'b' || c == 'c' || c == 'd' || c == 'e' || c == 'f' || c == 'A' || c == 'B' || c == 'C' || c == 'D' || c == 'E' || c == 'F'),
{
}

/// A colour in hexadecimal notation is exactly `#` followed by six
/// characters, each a decimal digit or a letter `a` to `f` in either case.
pub proof fn lemma_hex_color_digits(s: Seq<char>)
    ensures
        hex_color(s) <==> (s.len() == 7 && s[0] == '#' && forall|i: int|
            1 <= i < 7 ==> (s[i] == '0' || s[i] == '1' || s[i] == '2' || s[i] == '3' || s[i] == '4' || s[i] == '5' || s[i] == '6' || s[i] == '7' || s[i] == '8' || s[i] == '9' || s[i] == 'a' || s[i] == 'b' || s[i] == 'c' || s[i] == 'd' || s[i] == 'e' || s[i] == 'f' || s[i] == 'A' || s[i] == 'B' || s[i] == 'C' || s[i] == 'D' || s[i] == 'E' || s[i] == 'F')),
{
    assert forall|i: int| 1 <= i < 7 implies (is_hex_digit(s[i]) <==> (s[i] == '0' || s[i] == '1' || s[i] == '2' || s[i] == '3' || s[i] == '4' || s[i] == '5' || s[i] == '6' || s[i] == '7' || s[i] == '8' || s[i] == '9' || s[i] == 'a' || s[i] == 'b' || s[i] == 'c' || s[i] == 'd' || s[i] == 'e' || s[i] == 'f' || s[i] == 'A' || s[i] == 'B' || s[i] == 'C' || s[i] == 'D' || s[i] == 'E' || s[i] == 'F')) by {
        lemma_hex_digits(s[i]);
    }
}

/// Checks a length with `validator::validate_length`, which counts the
/// characters of the text. Claimed: an exact length, where given, decides
/// alone; otherwise the text passes when it is within the bounds given.
#[verifier::external_body]
fn validate_length(value: &str, min: Option<u64>, max: Option<u64>, equal: Option<u64>) -> (ok: bool)
    ensures
        ok == length_within(value@.len(), min, max, equal),
{
    validator::validate_length(value, min, max, equal)
}

/// Checks a range with `validator::validate_range`. Claimed: the value
/// passes when it is at most the upper bound and at least the lower bound,
/// of those that are given.
#[verifier::external_body]
fn validate_range(value: i64, min: Option<i64>, max: Option<i64>) -> (ok: bool)
    ensures
        ok == range_within(value, min, max),
{
    validator::validate_range(value, min, max)
}

/// Checks presence with `validator::validate_required`. Claimed: the
/// value passes when it is present.
#[verifier::external_body]
fn validate_required<T>(value: &Option<T>) -> (ok: bool)
    ensures
        ok == value is Some,
{
    validator::validate_required(value)
}

/// Whether `c` is a hexadecimal digit.
fn hex_digit(c: char) -> (ok: bool)
    ensures
        ok == is_hex_digit(c),
{
    ('0' <= c && c <= '9') || ('a' <= c && c <= 'f') || ('A' <= c && c <= 'F')
}

/// Whether `s` is a colour in hexadecimal notation, such as `#1a2B3c`.
pub fn is_hex_color(s: &str) -> (ok: bool)
    ensures
        ok == hex_color(s@),
{
    if s.unicode_len() != 7 {
        return false;
    }
    if s.get_char(0) != '#' {
        return false;
    }
    let mut i: usize = 1;
    while i < 7
        invariant
            s@.len() == 7,
            s@[0] == '#',
            1 <= i <= 7,
            forall|j: int| 1 <= j < i ==> #[trigger] is_hex_digit(s@[j]),
        decreases 7 - i,
    {
        if !hex_digit(s.get_char(i)) {
            return false;
        }
        i += 1;
    }
    true
}

impl ValidationError {
    /// A failed check of kind `code`, without a message.
    pub fn new(code: &str) -> (failure: ValidationError)
        ensures
            failure@ == (code@, None::<Seq<char>>),
    {
        ValidationError { code: code.to_owned(), message: None }
    }

    /// A failed check of kind `code` with the message `message`.
    pub fn with_message(code: &str, message: &str) -> (failure: ValidationError)
        ensures
            failure@ == (code@, Some(message@)),
    {
        ValidationError { code: code.to_owned(), message: Some(message.to_owned()) }
    }
}

/// The abstract value of a list of failed checks.
pub open spec fn failures_view(failures: Seq<ValidationError>) -> Seq<Failure> {
    failures.map_values(|e: ValidationError| e@)
}

/// The failed checks of a text field: a missing value fails only where
/// the field is required; a present value is held to the length bounds
/// (where `check_length`) and then to the colour format (where `color`).
pub open spec fn text_failures(
    value: Option<Seq<char>>,
    required: bool,
    check_length: bool,
    min: Option<u64>,
    max: Option<u64>,
    equal: Option<u64>,
    color: bool,
) -> Seq<Failure> {
    match value {
        None => if required { seq![required_failure()] } else { Seq::empty() },
        Some(s) => (if check_length && !length_within(s.len(), min, max, equal) {
            seq![length_failure()]
        } else {
            Seq::empty()
        }) + (if color && !hex_color(s) { seq![color_failure()] } else { Seq::empty() }),
    }
}

/// The failed checks of a numeric field that may be missing: a missing
/// value fails only where the field is required; a present value is held
/// to the range.
pub open spec fn id_failures(value: Option<i64>, required: bool, min: Option<i64>, max: Option<i64>) -> Seq<
    Failure,
> {
    match value {
        None => if required { seq![required_failure()] } else { Seq::empty() },
        Some(v) => if range_within(v, min, max) { Seq::empty() } else { seq![range_failure()] },
    }
}

/// The abstract value of an optional text.
pub open spec fn opt_text(value: Option<String>) -> Option<Seq<char>> {
    match value {
        Some(s) => Some(s@),
        None => None,
    }
}

/// The failed checks of a text field (see [`text_failures`]).
pub fn check_text(
    value: &Option<String>,
    required: bool,
    check_length: bool,
    min: Option<u64>,
    max: Option<u64>,
    equal: Option<u64>,
    color: bool,
) -> (failures: Vec<ValidationError>)
    ensures
        failures_view(failures@) == text_failures(opt_text(*value), required, check_length, min, max, equal, color),
{
    let mut failures: Vec<ValidationError> = Vec::new();
    if !validate_required(value) {
        if required {
            failures.push(ValidationError::new("required"));
        }
    }
    match value {
        None => {},
        Some(s) => {
            if check_length && !validate_length(s.as_str(), min, max, equal) {
                failures.push(ValidationError::new("length"));
            }
            if color && !is_hex_color(s.as_str()) {
                failures.push(ValidationError::with_message("regex", "invalid color format"));
            }
        },
    }
    assert(failures_view(failures@) =~= text_failures(opt_text(*value), required, check_length, min, max, equal, color));
    failures
}

/// The failed checks of a numeric field that may be missing (see
/// [`id_failures`]).
pub fn check_id(value: &Option<i64>, required: bool, min: Option<i64>, max: Option<i64>) -> (failures: Vec<
    ValidationError,
>)
    ensures
        failures_view(failures@) == id_failures(*value, required, min, max),
{
    let mut failures: Vec<ValidationError> = Vec::new();
    if !validate_required(value) {
        if required {
            failures.push(ValidationError::new("required"));
        }
    }
    match value {
        None => {},
        Some(v) => {
            if !validate_range(*v, min, max) {
                failures.push(ValidationError::new("range"));
            }
        },
    }
    assert(failures_view(failures@) =~= id_failures(*value, required, min, max));
    failures
}

/// The fields of `checks` that have failed checks, in order.
pub open spec fn failed_fields(checks: Seq<FieldFailures>) -> Seq<FieldFailures> {
    checks.filter(|f: FieldFailures| f.1.len() > 0)
}

/// The outcome of a validation whose fields gave `checks`: success when
/// no check failed, else the fields with failed checks.
pub open spec fn validation_outcome(checks: Seq<FieldFailures>) -> Result<(), Seq<FieldFailures>> {
    if failed_fields(checks).len() == 0 {
        Ok(())
    } else {
        Err(failed_fields(checks))
    }
}

/// No field has failed checks exactly when every field passed all of its
/// checks.
pub proof fn lemma_no_failed_fields(checks: Seq<FieldFailures>)
    ensures
        failed_fields(checks).len() == 0 <==> forall|i: int|
            0 <= i < checks.len() ==> (#[trigger] checks[i]).1.len() == 0,
    decreases checks.len(),
{
    reveal_with_fuel(Seq::<_>::filter, 1);
    if checks.len() > 0 {
        let rest = checks.drop_last();
        lemma_no_failed_fields(rest);
        assert(forall|i: int| 0 <= i < rest.len() ==> #[trigger] rest[i] == checks[i]);
        let last = checks.last();
        assert(failed_fields(checks) == if last.1.len() > 0 {
            failed_fields(rest).push(last)
        } else {
            failed_fields(rest)
        });
        if failed_fields(checks).len() == 0 {
            assert(last.1.len() == 0);
            assert forall|i: int| 0 <= i < checks.len() implies (#[trigger] checks[i]).1.len() == 0 by {
                if i < rest.len() {
                    assert(rest[i] == checks[i]);
                    assert(rest[i].1.len() == 0);
                }
            }
        }
        if forall|i: int| 0 <= i < checks.len() ==> (#[trigger] checks[i]).1.len() == 0 {
            assert(checks[checks.len() - 1].1.len() == 0);
            assert forall|i: int| 0 <= i < rest.len() implies (#[trigger] rest[i]).1.len() == 0 by {
                assert(checks[i].1.len() == 0);
            }
        }
    }
}

/// Collecting the failed fields keeps no field of no fields; a field
/// added at the end is kept at the end exactly when it has a failed check.
pub proof fn lemma_failed_fields_push(checks: Seq<FieldFailures>, field: FieldFailures)
    ensures
        failed_fields(Seq::empty()) == Seq::<FieldFailures>::empty(),
        failed_fields(checks.push(field)) == if field.1.len() > 0 {
            failed_fields(checks).push(field)
        } else {
            failed_fields(checks)
        },
{
    reveal_with_fuel(Seq::<_>::filter, 1);
    assert(checks.push(field).drop_last() =~= checks);
    assert(failed_fields(Seq::empty()) =~= Seq::<FieldFailures>::empty());
}

/// The checks of a text field, by case: a missing value fails with one
/// check coded `required` (no message) when the field is required and
/// with none otherwise; a present value fails the length check (coded
/// `length`, no message) when it is enforced and the character count
/// misses the exact length, or, without one, a bound, and then fails the
/// colour check (coded `regex`, message `invalid color format`) when it
/// is enforced and the text is no colour.
pub proof fn lemma_text_failures(
    value: Option<Seq<char>>,
    required: bool,
    check_length: bool,
    min: Option<u64>,
    max: Option<u64>,
    equal: Option<u64>,
    color: bool,
)
    ensures
        value is None && required ==> text_failures(value, required, check_length, min, max, equal, color) == seq![
            ("required"@, None::<Seq<char>>),
        ],
        value is None && !required ==> text_failures(value, required, check_length, min, max, equal, color).len()
            == 0,
        value matches Some(s) ==> {
            let bad_length = check_length && match equal {
                Some(e) => s.len() != e,
                None => (min matches Some(m) && s.len() < m) || (max matches Some(m) && s.len() > m),
            };
            let bad_color = color && !hex_color(s);
            text_failures(value, required, check_length, min, max, equal, color) == (if bad_length {
                seq![("length"@, None::<Seq<char>>)]
            } else {
                Seq::empty()
            }) + (if bad_color {
                seq![("regex"@, Some("invalid color format"@))]
            } else {
                Seq::empty()
            })
        },
{
}

/// The checks of a numeric field, by case: a missing value fails with one
/// check coded `required` (no message) when the field is required and
/// with none otherwise; a present value fails with one check coded
/// `range` (no message) when it is above the upper or below the lower
/// bound given, and with none otherwise.
pub proof fn lemma_id_failures(value: Option<i64>, required: bool, min: Option<i64>, max: Option<i64>)
    ensures
        value is None && required ==> id_failures(value, required, min, max) == seq![
            ("required"@, None::<Seq<char>>),
        ],
        value is None && !required ==> id_failures(value, required, min, max).len() == 0,
        value matches Some(v) ==> id_failures(value, required, min, max) == if (max matches Some(m) && v > m) || (
        min matches Some(m) && v < m) {
            seq![("range"@, None::<Seq<char>>)]
        } else {
            Seq::empty()
        },
{
}

/// Whether a validation result is the outcome `expected`.
pub open spec fn outcome_matches(
    result: Result<(), ValidationErrors>,
    expected: Result<(), Seq<FieldFailures>>,
) -> bool {
    match (result, expected) {
        (Ok(()), Ok(())) => true,
        (Err(e), Err(f)) => e@ == f,
        _ => false,
    }
}

/// The abstract value of the checks of each field, under its name.
pub open spec fn checks_view(checks: Seq<(String, Vec<ValidationError>)>) -> Seq<FieldFailures> {
    checks.map_values(|f: (String, Vec<ValidationError>)| field_failures_view(f))
}

/// Collects the failed checks of each field, in order, into the outcome
/// of a validation.
pub fn collect_failures(checks: Vec<(String, Vec<ValidationError>)>) -> (result: Result<(), ValidationErrors>)
    ensures
        outcome_matches(result, validation_outcome(checks_view(checks@))),
{
    let ghost all = checks_view(checks@);
    let mut checks = checks;
    let mut failed: Vec<(String, Vec<ValidationError>)> = Vec::new();
    let ghost mut done: int = 0;
    while checks.len() > 0
        invariant
            0 <= done <= all.len(),
            all.len() == done + checks@.len(),
            checks_view(checks@) == all.skip(done),
            checks_view(failed@) == failed_fields(all.take(done)),
        decreases checks.len(),
    {
        let ghost before = checks@;
        let entry = checks.remove(0);
        proof {
            assert(checks_view(before)[0] == all[done]);
            assert(checks@ =~= before.subrange(1, before.len() as int));
            assert forall|j: int| 0 <= j < checks@.len() implies #[trigger] checks_view(checks@)[j] == all.skip(
                done + 1,
            )[j] by {
                assert(checks_view(before)[j + 1] == all.skip(done)[j + 1]);
            }
            assert(checks_view(checks@) =~= all.skip(done + 1));
            reveal_with_fuel(Seq::<_>::filter, 1);
            assert(all.take(done + 1).drop_last() =~= all.take(done));
            assert(all.take(done + 1).last() == all[done]);
        }
        let ghost failed_before = failed@;
        if entry.1.len() > 0 {
            failed.push(entry);
            proof {
                assert(checks_view(failed@) =~= checks_view(failed_before).push(field_failures_view(entry)));
            }
        }
        proof {
            done = done + 1;
        }
    }
    assert(all.take(done) =~= all);
    if failed.len() == 0 {
        Ok(())
    } else {
        Err(ValidationErrors { fields: failed })
    }
}

} // verus!
