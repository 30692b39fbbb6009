use vstd::prelude::*;

use crate::page::text_of;

verus! {

#[verifier::external_type_specification]
#[verifier::external_body]
pub struct ExParseError(url::ParseError);

/// Whether `s` parses as an absolute URL and, where it does, the last segment of its
/// path, where its path has segments.
pub uninterp spec fn url_file_name_of(s: Seq<char>) -> Option<Option<Seq<char>>>;

/// Relies on url::Url::parse, then on url::Url::path_segments and the last segment
/// they yield.
#[verifier::external_body]
pub(crate) fn parse_file_name(s: &str) -> (r: Result<Option<String>, url::ParseError>)
    ensures
        r is Err <==> url_file_name_of(s@) is None,
        r matches Ok(o) ==> url_file_name_of(s@) == Some(text_of(o)),
{
    let url = url::Url::parse(s)?;
    Ok(url.path_segments().and_then(Iterator::last).map(str::to_owned))
}

} // verus!
