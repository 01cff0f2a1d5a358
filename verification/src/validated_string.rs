//! The validated string family: a `String` wrapped together with a
//! pluggable, type-level validation rule that its content is guaranteed to
//! satisfy.
//!
//! A rule is a zero-sized marker type implementing
//! [`StringContentValidator`]; the marker is part of the wrapper's type, so
//! a string validated under one rule cannot be confused with one validated
//! under another. Two standard rules are provided: [`NonEmptyValidator`]
//! (at least one character) and [`NonBlankValidator`] (at least one
//! non-whitespace character; an empty string counts as blank, without any
//! delegation to the non-empty rule).

use vstd::prelude::*;
use vstd::string::StrSliceExecFns;
use core::marker::PhantomData;
use crate::errors::StringContentError;
use crate::strutil::{is_unicode_whitespace, char_is_whitespace};

verus! {

/// A rule for validating string content: a specification-level acceptance
/// predicate, the shape of the error reported on rejection, and the
/// executable gate that applies the rule.
pub trait StringContentValidator: Sized {
    /// Whether this rule accepts the text.
    spec fn accepts(s: Seq<char>) -> bool;

    /// Whether `e` is the error this rule reports when it rejects `s`.
    spec fn describes_rejection(s: Seq<char>, e: StringContentError) -> bool;

    /// Validates `input`; on success wraps the original text unchanged,
    /// on failure reports this rule's error for it.
    fn validate_and_create(input: String) -> (r: Result<ValidatedString<Self>, StringContentError>)
        ensures
            Self::accepts(input@) ==> (r matches Ok(v) && v.spec_string() == input),
            !Self::accepts(input@) ==> (r matches Err(e) && Self::describes_rejection(input@, e)),
    ;
}

/// A `String` whose content is known to satisfy the validation rule `T`.
#[derive(Debug, PartialEq, Eq, Hash)]
pub struct ValidatedString<T> {
    value: String,
    marker: PhantomData<T>,
}

impl<T> Clone for ValidatedString<T> {
    /// Cloning copies the wrapped text exactly.
    fn clone(&self) -> (r: Self)
        ensures
            r.spec_string()@ == self.spec_string()@,
            r@ == self@,
    {
        ValidatedString { value: self.value.clone(), marker: PhantomData }
    }
}

impl<T> View for ValidatedString<T> {
    type V = Seq<char>;

    closed spec fn view(&self) -> Seq<char> {
        self.value@
    }
}

impl<T> ValidatedString<T> {
    /// The wrapped string.
    pub closed spec fn spec_string(self) -> String {
        self.value
    }


    /// The wrapper's view is the view of the wrapped string.
    pub proof fn lemma_view(self)
        ensures
            self@ == self.spec_string()@,
    {
    }

    /// Wraps `string` without running the rule. The caller is responsible
    /// for the text being acceptable; a value that is not is wrapped all
    /// the same and the wrapper will not hold [`Self::wf`]. This is the
    /// explicit escape hatch, not a general bypass.
    pub fn new_unchecked(string: String) -> (r: Self)
        ensures
            r.spec_string() == string,
            r@ == string@,
    {
        ValidatedString { value: string, marker: PhantomData }
    }

    /// Consumes the wrapper and returns the raw text unchanged.
    pub fn into_inner(self) -> (r: String)
        ensures
            r == self.spec_string(),
            r@ == self@,
    {
        self.value
    }

    /// Renders the wrapped text verbatim.
    pub fn to_text(&self) -> (r: String)
        ensures
            r@ == self@,
    {
        self.value.clone()
    }
}

impl<T: StringContentValidator> ValidatedString<T> {
    /// The invariant: the rule accepts the wrapped text.
    pub open spec fn wf(self) -> bool {
        T::accepts(self@)
    }

    /// Serialization symmetry, at the value level: the text inside a
    /// wrapper that holds its invariant is accepted by the same rule
    /// again, so running the validating constructor on the unwrapped
    /// text restores a wrapper with the very same text.
    pub proof fn lemma_revalidate(self)
        requires
            self.wf(),
        ensures
            T::accepts(self.spec_string()@),
    {
        self.lemma_view();
    }

    /// Creates a new validated string by running the bound rule on
    /// `string`; on success the original text is wrapped untransformed.
    pub fn new(string: String) -> (r: Result<Self, StringContentError>)
        ensures
            T::accepts(string@) ==> (r matches Ok(v) && v.spec_string() == string && v.wf()),
            !T::accepts(string@) ==> (r matches Err(e) && T::describes_rejection(string@, e)),
    {
        T::validate_and_create(string)
    }
}

/// Rule that accepts a string with at least one character.
#[derive(Debug, Clone, Copy, PartialEq, Eq, Hash)]
pub struct NonEmptyValidator;

impl StringContentValidator for NonEmptyValidator {
    open spec fn accepts(s: Seq<char>) -> bool {
        s.len() > 0
    }

    open spec fn describes_rejection(s: Seq<char>, e: StringContentError) -> bool {
        e == StringContentError::Empty
    }

    fn validate_and_create(input: String) -> (r: Result<ValidatedString<Self>, StringContentError>) {
        if input.as_str().is_empty() {
            Err(StringContentError::Empty)
        } else {
            Ok(ValidatedString { value: input, marker: PhantomData })
        }
    }
}

/// Rule that accepts a string with at least one non-whitespace character.
/// An empty string has none, so it is rejected as blank too.
#[derive(Debug, Clone, Copy, PartialEq, Eq, Hash)]
pub struct NonBlankValidator;

impl StringContentValidator for NonBlankValidator {
    open spec fn accepts(s: Seq<char>) -> bool {
        exists|i: int| 0 <= i < s.len() && !is_unicode_whitespace(s[i])
    }

    open spec fn describes_rejection(s: Seq<char>, e: StringContentError) -> bool {
        e matches StringContentError::Blank(t) && t@ == s
    }

    fn validate_and_create(input: String) -> (r: Result<ValidatedString<Self>, StringContentError>) {
        let n = input.as_str().unicode_len();
        let mut i: usize = 0;
        while i < n
            invariant
                n == input@.len(),
                forall|k: int| 0 <= k < i ==> is_unicode_whitespace(input@[k]),
            decreases n - i,
        {
            let c = input.as_str().get_char(i);
            if !char_is_whitespace(c) {
                return Ok(ValidatedString { value: input, marker: PhantomData });
            }
            i += 1;
        }
        Err(StringContentError::Blank(input))
    }
}

/// A validated string that is known to be non-empty.
pub type NonEmptyString = ValidatedString<NonEmptyValidator>;

/// A validated string that is known to be non-blank.
pub type NonBlankString = ValidatedString<NonBlankValidator>;

/// Validator independence: the empty text is rejected by both standard
/// rules — blankness does not delegate to the non-empty rule, it rejects
/// the empty text on its own — while any text with at least one character
/// passes the non-empty rule no matter its content.
pub proof fn lemma_validator_independence(s: Seq<char>)
    ensures
        !NonEmptyValidator::accepts(Seq::<char>::empty()),
        !NonBlankValidator::accepts(Seq::<char>::empty()),
        s.len() > 0 ==> NonEmptyValidator::accepts(s),
{
}

} // verus!
