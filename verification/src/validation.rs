//! The validation rules: pure checks that classify a raw string argument
//! before it may be bound to a named parameter.
//!
//! The identifier rule is the injection boundary: a value that passes it
//! is safe to quote as a table name. It is deliberately stricter than
//! "any alphabetic character", in two ways. Only ASCII letters pass: an
//! allow-list whose safety inside a quoted identifier is plain. And only
//! one case passes: SQLite resolves table names ASCII-case-insensitively,
//! so two names differing only in case would be one table; keeping every
//! accepted name in lower case makes each name its own canonical form,
//! and the store's model can key tables by the exact name.

use vstd::prelude::*;

verus! {

use vstd::string::StrSliceExecFns;
use crate::command::ParamRule;
use crate::tool::str_eq;

/// The checks a positional parameter can be held to before it is bound.
#[derive(Clone, Copy, Debug, PartialEq, Eq, Structural)]
pub enum StringValidation {
    /// The value names a table: one or more lower-case ASCII letters and
    /// nothing else, so that it is safe inside a quoted identifier and is
    /// its own canonical spelling.
    SqlTable,
    /// The value is stored as text: any content below a very large ceiling.
    SqlText,
    /// The value must read `"true"` or `"false"`, or echo the parameter's
    /// own name.
    Bool,
    /// No check at all.
    Ignore,
}

/// How a value can fail a validation rule.
#[derive(Clone, Copy, Debug, PartialEq, Eq, Structural)]
pub enum ValidationError {
    /// The value is not a non-empty run of lower-case ASCII letters.
    NotIdentifier,
    /// The value is longer than the text ceiling.
    TooLong,
    /// The value is not a recognised boolean.
    NotBoolean,
}

/// The ceiling on the number of characters a free-text value may hold.
pub const TEXT_CEILING: usize = 1000000000;

/// `c` is a lower-case ASCII letter.
pub open spec fn is_letter(c: char) -> bool {
    97 <= c as int && c as int <= 122
}

/// `s` is a non-empty run of lower-case ASCII letters: the only shape
/// this crate accepts for a table name. One case only, because the
/// engine resolves table names without regard to ASCII case: under this
/// rule two accepted names are the same table exactly when they are the
/// same character sequence.
pub open spec fn is_sql_ident(s: Seq<char>) -> bool {
    s.len() > 0 && (forall|i: int| 0 <= i < s.len() ==> is_letter(s[i]))
}

/// `s` fits below the free-text ceiling.
pub open spec fn fits_text(s: Seq<char>) -> bool {
    s.len() <= TEXT_CEILING
}

/// `v` is an accepted boolean under a rule whose parameter is named `key`:
/// the literal words, or the parameter's own name echoed back.
pub open spec fn is_boolean_text(v: Seq<char>, key: Seq<char>) -> bool {
    v == "true"@ || v == "false"@ || v == key
}

/// What it means for a value to pass a rule of the given kind, where `key`
/// is the name of the parameter the rule belongs to.
pub open spec fn satisfies(v: Seq<char>, kind: StringValidation, key: Seq<char>) -> bool {
    match kind {
        StringValidation::SqlTable => is_sql_ident(v),
        StringValidation::SqlText => fits_text(v),
        StringValidation::Bool => is_boolean_text(v, key),
        StringValidation::Ignore => true,
    }
}

/// The error each kind reports when its check fails. A rule of kind
/// `Ignore` never fails; the value here is never returned for it.
pub open spec fn failure_of(kind: StringValidation) -> ValidationError {
    match kind {
        StringValidation::SqlTable => ValidationError::NotIdentifier,
        StringValidation::SqlText => ValidationError::TooLong,
        StringValidation::Bool => ValidationError::NotBoolean,
        StringValidation::Ignore => ValidationError::NotIdentifier,
    }
}

impl ValidationError {
    /// What this failure means, for the reader of an error report.
    pub open spec fn message_spec(&self) -> Seq<char> {
        match self {
            ValidationError::NotIdentifier => "expected a non-empty string of lower-case letters"@,
            ValidationError::TooLong => "too long"@,
            ValidationError::NotBoolean => "expected true|false"@,
        }
    }

    /// The human-readable description of this failure.
    pub fn message(&self) -> (r: &'static str)
        ensures
            r@ == self.message_spec(),
    {
        match self {
            ValidationError::NotIdentifier => "expected a non-empty string of lower-case letters",
            ValidationError::TooLong => "too long",
            ValidationError::NotBoolean => "expected true|false",
        }
    }
}

/// Accepts exactly the non-empty lower-case-ASCII-letter strings, the
/// shape that is safe to interpolate as a quoted table name and that the
/// engine cannot alias to another accepted name.
pub fn sql_table(name: &String) -> (r: Result<(), ValidationError>)
    ensures
        r is Ok <==> is_sql_ident(name@),
        r is Err ==> r == Err::<(), ValidationError>(ValidationError::NotIdentifier),
{
    let s = name.as_str();
    let n = s.unicode_len();
    if n == 0 {
        return Err(ValidationError::NotIdentifier);
    }
    let mut i: usize = 0;
    while i < n
        invariant
            i <= n,
            n == s@.len(),
            s@ == name@,
            forall|j: int| 0 <= j < i ==> is_letter(s@[j]),
        decreases n - i,
    {
        let c = s.get_char(i);
        let u: u32 = c as u32;
        if !(97 <= u && u <= 122) {
            return Err(ValidationError::NotIdentifier);
        }
        i += 1;
    }
    Ok(())
}

/// Accepts any value whose character count stays below the text ceiling.
pub fn sql_text(name: &String) -> (r: Result<(), ValidationError>)
    ensures
        r is Ok <==> fits_text(name@),
        r is Err ==> r == Err::<(), ValidationError>(ValidationError::TooLong),
{
    let n = name.as_str().unicode_len();
    if n > TEXT_CEILING {
        Err(ValidationError::TooLong)
    } else {
        Ok(())
    }
}

/// Accepts exactly `"true"`, `"false"`, and the rule's own parameter name.
pub fn boolean(name: &String, key: &str) -> (r: Result<(), ValidationError>)
    ensures
        r is Ok <==> is_boolean_text(name@, key@),
        r is Err ==> r == Err::<(), ValidationError>(ValidationError::NotBoolean),
{
    if str_eq(name.as_str(), "true") || str_eq(name.as_str(), "false") || str_eq(
        name.as_str(),
        key,
    ) {
        Ok(())
    } else {
        Err(ValidationError::NotBoolean)
    }
}

/// Runs the rule's check on a raw value.
pub fn validate_string(value: &String, rule: &ParamRule) -> (r: Result<(), ValidationError>)
    ensures
        r is Ok <==> satisfies(value@, rule.validation, rule.key@),
        r is Err ==> r == Err::<(), ValidationError>(failure_of(rule.validation)),
{
    match rule.validation {
        StringValidation::SqlTable => sql_table(value),
        StringValidation::SqlText => sql_text(value),
        StringValidation::Bool => boolean(value, rule.key),
        StringValidation::Ignore => Ok(()),
    }
}

} // verus!
