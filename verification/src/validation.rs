//! Field validation of submitted forms.

use vstd::prelude::*;

verus! {

/// A form field that breaks a rule, with the message shown for it.
#[derive(Debug, PartialEq, Eq)]
pub struct FieldError {
    pub field: String,
    pub message: String,
}

/// Field errors taken as (field, message) texts.
pub open spec fn errors_view(errors: Seq<FieldError>) -> Seq<(Seq<char>, Seq<char>)> {
    errors.map_values(|e: FieldError| (e.field@, e.message@))
}

/// The errors that a rule `length(min = 1)` on one field gives: none when the
/// value has at least one character, else one with the rule's message.
pub open spec fn min_length_errors(field: Seq<char>, value: Seq<char>, message: Seq<char>) -> Seq<
    (Seq<char>, Seq<char>),
> {
    if value.len() >= 1 {
        seq![]
    } else {
        seq![(field, message)]
    }
}

/// Checks a `length(min = 1)` rule and records its error, if any, after those
/// already found.
pub fn check_min_length(errors: &mut Vec<FieldError>, field: &str, value: &str, message: &str)
    ensures
        errors_view(final(errors)@) == errors_view(old(errors)@) + min_length_errors(
            field@,
            value@,
            message@,
        ),
{
    if value.is_empty() {
        errors.push(FieldError { field: String::from_str(field), message: String::from_str(message) });
        proof {
            assert(errors_view(final(errors)@) =~= errors_view(old(errors)@) + seq![(field@, message@)]);
        }
    } else {
        proof {
            assert(errors_view(final(errors)@) =~= errors_view(old(errors)@) + seq![]);
        }
    }
}

} // verus!
