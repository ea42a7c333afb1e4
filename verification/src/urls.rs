//! Request-URL assembly over a trusted URL parser.

use vstd::prelude::*;

use crate::errors::InaError;

verus! {

/// Whether a text parses as an absolute URL; a function of the text alone.
pub uninterp spec fn url_wellformed(s: Seq<char>) -> bool;

/// The serialization of the URL written `base` after its query part is
/// replaced by `query`; a function of the two texts alone.
pub uninterp spec fn url_with_query(base: Seq<char>, query: Seq<char>) -> Seq<char>;

/// Relies on `url::Url::parse`, `Url::set_query` and `Url::to_string`:
/// parsing succeeds exactly on well-formed absolute-URL text, and the
/// serialization after setting the query is a function of the two
/// arguments alone.
#[verifier::external_body]
pub fn make_request_url(uri: &str, qparam: &str) -> (r: Result<String, InaError>)
    ensures
        (r is Ok) == url_wellformed(uri@),
        r matches Ok(s) ==> s@ == url_with_query(uri@, qparam@),
        r matches Err(e) ==> e is InvalidEndpoint,
{
    match url::Url::parse(uri) {
        Ok(mut u) => {
            u.set_query(Some(qparam));
            Ok(u.to_string())
        },
        Err(_) => Err(InaError::InvalidEndpoint),
    }
}

} // verus!
