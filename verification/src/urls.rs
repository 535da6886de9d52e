//! Building requests from URL strings, through the `url` crate.

use crate::pipeline::{LoadData, Method, Url};
use vstd::prelude::*;

verus! {

/// Whether `url::Url::parse` accepts the string as an absolute URL.
pub uninterp spec fn url_parse_succeeds(s: Seq<char>) -> bool;

/// The scheme of the URL parsed from the string, as `url::Url::scheme`
/// returns it: lower-cased ASCII, without the ':' delimiter.
pub uninterp spec fn url_scheme_of(s: Seq<char>) -> Seq<char>;

/// The serialization of the URL parsed from the string, as `url::Url::as_str`
/// returns it.
pub uninterp spec fn url_serialization_of(s: Seq<char>) -> Seq<char>;

/// Relies on url::Url::parse, reading the parsed value back through
/// url::Url::scheme and url::Url::as_str: all three are functions of the
/// input string alone.
#[verifier::external_body]
fn parse_url(input: &str) -> (r: Option<Url>)
    ensures
        r is Some <==> url_parse_succeeds(input@),
        (match r {
            Some(u) => u.scheme@ == url_scheme_of(input@) && u.serialization@
                == url_serialization_of(input@),
            None => true,
        }),
{
    match url::Url::parse(input) {
        Ok(u) => Some(
            Url { scheme: u.scheme().to_owned(), serialization: u.as_str().to_owned() },
        ),
        Err(_) => None,
    }
}

impl LoadData {
    /// A GET request for the URL written in `input`, with nothing else set;
    /// nothing when `input` is not an absolute URL.
    pub fn for_url(input: &str) -> (r: Option<LoadData>)
        ensures
            r is Some <==> url_parse_succeeds(input@),
            (match r {
                Some(ld) => {
                    &&& ld.url.scheme@ == url_scheme_of(input@)
                    &&& ld.url.serialization@ == url_serialization_of(input@)
                    &&& ld.method == Method::Get
                    &&& ld.headers.user_agent is None
                    &&& ld.data is None
                    &&& ld.cors is None
                },
                None => true,
            }),
    {
        match parse_url(input) {
            Some(u) => Some(LoadData::new(u)),
            None => None,
        }
    }
}

} // verus!
