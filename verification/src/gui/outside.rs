//! Declarations of the functions of the standard library and of other
//! crates that the views rely on. Nothing in this file is proved: each
//! contract states what the named function is known to do.

use vstd::prelude::*;

verus! {

/// `grin_util::ZeroingString`: a text that is wiped when it is dropped.
#[verifier::external_type_specification]
#[verifier::external_body]
pub struct ExZeroingString(grin_util::ZeroingString);

/// What `str::to_uppercase` makes of a text.
pub uninterp spec fn spec_uppercase(text: Seq<char>) -> Seq<char>;

/// `str::to_uppercase`: the text in upper case, which depends on the text
/// alone.
#[verifier::external_body]
pub(crate) fn uppercase(text: &str) -> (upper: String)
    ensures
        upper@ == spec_uppercase(text@),
{
    text.to_uppercase()
}

/// What `str::trim` leaves of a text.
pub uninterp spec fn spec_trim(text: Seq<char>) -> Seq<char>;

/// Whether `url::Url::parse` accepts a text as an absolute URL.
pub uninterp spec fn spec_is_url(text: Seq<char>) -> bool;

/// `str::trim`: the text without the white space at its ends, which depends
/// on the text alone.
#[verifier::external_body]
pub(crate) fn trim<'a>(text: &'a str) -> (trimmed: &'a str)
    ensures
        trimmed@ == spec_trim(text@),
{
    text.trim()
}

/// `url::Url::parse`: whether the text is an absolute URL, which depends on
/// the text alone.
#[verifier::external_body]
pub(crate) fn is_url(text: &str) -> (valid: bool)
    ensures
        valid == spec_is_url(text@),
{
    url::Url::parse(text).is_ok()
}

} // verus!
