//! Field-level validation: rules are evaluated one by one and their
//! failures gathered, by field name, in a `validator::ValidationErrors`.

use validator::ValidationErrors;
use vstd::prelude::*;

verus! {

/// `validator::ValidationErrors`: the collection of validation errors, by
/// field name. Its entries are spoken of through [`field_failures`] and
/// [`grouped_fields`].
#[verifier::external_type_specification]
#[verifier::external_body]
pub struct ExValidationErrors(validator::ValidationErrors);

/// One failed rule: the code of the rule and, where there is one, the
/// message to show for it.
pub type Failure = (Seq<char>, Option<Seq<char>>);

/// The failures of each field, in the order in which they were recorded.
pub type Failures = Map<Seq<char>, Seq<Failure>>;

/// The field-level entries of a collection of validation errors: for each
/// field name that has such an entry, its failures in the order in which
/// they were added.
pub uninterp spec fn field_failures(errors: ValidationErrors) -> Map<
    Seq<char>,
    Seq<(Seq<char>, Option<Seq<char>>)>,
>;

/// The field names under which a collection of validation errors holds a
/// grouping of nested errors (those of a nested struct or of a list of
/// them) in place of field-level failures.
pub uninterp spec fn grouped_fields(errors: ValidationErrors) -> Set<Seq<char>>;

/// The failures recorded under `field` so far: none where it has no entry.
pub open spec fn failures_under(failures: Failures, field: Seq<char>) -> Seq<Failure> {
    if failures.contains_key(field) {
        failures[field]
    } else {
        Seq::empty()
    }
}

/// `failures` with one more failure recorded under `field`, behind those
/// that it already has.
pub open spec fn with_failure(failures: Failures, field: Seq<char>, failure: Failure) -> Failures {
    failures.insert(field, failures_under(failures, field).push(failure))
}

/// `failures` after a minimum-length rule was evaluated on `value`: the same
/// where the value has at least `min` characters, and with a `length`
/// failure recorded under `field` where it is shorter.
pub open spec fn with_min_length(
    failures: Failures,
    field: Seq<char>,
    value: Seq<char>,
    min: u64,
    message: Seq<char>,
) -> Failures {
    if value.len() >= min {
        failures
    } else {
        with_failure(failures, field, ("length"@, Some(message)))
    }
}

/// `validator::ValidationErrors::new`: the collection it makes has no
/// entries at all.
pub assume_specification[ validator::ValidationErrors::new ]() -> (made: ValidationErrors)
    ensures
        field_failures(made) == Failures::empty(),
        grouped_fields(made) == Set::<Seq<char>>::empty(),
;

/// `validator::ValidationErrors::is_empty`: true where the collection has
/// no entry of either kind.
pub assume_specification[ validator::ValidationErrors::is_empty ](
    errors: &ValidationErrors,
) -> (empty: bool)
    ensures
        empty == (field_failures(*errors).dom().is_empty() && grouped_fields(*errors).is_empty()),
;

/// `validator::validate_length` with a lower bound only, on a string: true
/// where the string has at least `min` characters.
#[verifier::external_body]
fn has_min_length(value: &str, min: u64) -> (long_enough: bool)
    ensures
        long_enough == (value@.len() >= min),
{
    validator::validate_length(value, Some(min), None, None)
}

/// `validator::ValidationErrors::add` with the failure that the crate's own
/// derive records for a `length` rule with a lower bound: a
/// `validator::ValidationError` of code `length` with the given message.
/// The failure goes behind those that the field already has; no other
/// entry changes. The failure also carries the bound and the offending
/// value as its parameters `min` and `value`, of which the contract says
/// nothing. `add` panics where the field holds a grouping of nested errors,
/// so such a field is not accepted.
#[verifier::external_body]
fn add_length_failure(
    errors: &mut ValidationErrors,
    field: &'static str,
    message: &'static str,
    min: u64,
    value: &str,
)
    requires
        !grouped_fields(*old(errors)).contains(field@),
    ensures
        field_failures(*final(errors)) == with_failure(
            field_failures(*old(errors)),
            field@,
            ("length"@, Some(message@)),
        ),
        grouped_fields(*final(errors)) == grouped_fields(*old(errors)),
{
    let mut failure = validator::ValidationError::new("length");
    failure.message = Some(std::borrow::Cow::Borrowed(message));
    failure.add_param(std::borrow::Cow::Borrowed("min"), &min);
    failure.add_param(std::borrow::Cow::Borrowed("value"), &value);
    errors.add(field, failure);
}

/// Evaluates a minimum-length rule on the value of a field and records its
/// failure.
pub fn require_min_length(
    errors: &mut ValidationErrors,
    field: &'static str,
    value: &str,
    min: u64,
    message: &'static str,
)
    requires
        !grouped_fields(*old(errors)).contains(field@),
    ensures
        field_failures(*final(errors)) == with_min_length(
            field_failures(*old(errors)),
            field@,
            value@,
            min,
            message@,
        ),
        grouped_fields(*final(errors)) == grouped_fields(*old(errors)),
{
    if !has_min_length(value, min) {
        add_length_failure(errors, field, message, min, value);
    }
}

/// Turns the outcome of a validation into the collection of its failures:
/// an empty collection where the validation passed, and where it did not,
/// the failures as they are, groupings of nested errors included.
pub fn aggregate(outcome: Result<(), ValidationErrors>) -> (collected: ValidationErrors)
    ensures
        outcome is Ok ==> field_failures(collected) == Failures::empty(),
        outcome is Ok ==> grouped_fields(collected) == Set::<Seq<char>>::empty(),
        outcome matches Err(errors) ==> collected == errors,
{
    match outcome {
        Ok(_) => ValidationErrors::new(),
        Err(errors) => errors,
    }
}

} // verus!
