//! Address validation, through the `url` crate.

use vstd::prelude::*;

verus! {

/// Whether `url::Url::parse` accepts a string as an absolute URL.  The
/// answer depends on the string's characters alone.
pub uninterp spec fn url_parse_ok(s: Seq<char>) -> bool;

#[verifier::external_type_specification]
#[verifier::external_body]
pub struct ExParseError(url::ParseError);

/// Relies on `url::Url::parse`: it parses an absolute URL from the string,
/// or reports a `ParseError`, deciding by the string's characters alone.
#[verifier::external_body]
pub(crate) fn check_url(s: &str) -> (r: Result<(), url::ParseError>)
    ensures
        r is Ok <==> url_parse_ok(s@),
{
    match url::Url::parse(s) {
        Ok(_) => Ok(()),
        Err(e) => Err(e),
    }
}

} // verus!
