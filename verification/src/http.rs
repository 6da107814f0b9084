//! The requests that are passed on to a remote service.

use vstd::prelude::*;
use crate::text::{appended, same_text};

verus! {

/// The full Unicode upper-casing of a text, as `str::to_uppercase` computes
/// it.
pub uninterp spec fn unicode_uppercased(s: Seq<char>) -> Seq<char>;

/// Calls `str::to_uppercase`; the result is named, not described.
#[verifier::external_body]
fn uppercase(s: &str) -> (r: String)
    ensures
        r@ == unicode_uppercased(s@),
{
    s.to_uppercase()
}

/// The methods that are passed on.
#[derive(Clone, Copy, Debug, PartialEq, Eq, Structural)]
pub enum HttpMethod {
    Get,
    Post,
    Put,
    Delete,
    Patch,
}

/// The method that a name in capitals stands for.
pub open spec fn method_named(upper: Seq<char>) -> Option<HttpMethod> {
    if upper == "GET"@ {
        Some(HttpMethod::Get)
    } else if upper == "POST"@ {
        Some(HttpMethod::Post)
    } else if upper == "PUT"@ {
        Some(HttpMethod::Put)
    } else if upper == "DELETE"@ {
        Some(HttpMethod::Delete)
    } else if upper == "PATCH"@ {
        Some(HttpMethod::Patch)
    } else {
        None
    }
}

/// The method that a name stands for, once the name is in capitals.
pub fn method_of_upper(upper: &str) -> (r: Option<HttpMethod>)
    ensures
        r == method_named(upper@),
{
    if same_text(upper, "GET") {
        Some(HttpMethod::Get)
    } else if same_text(upper, "POST") {
        Some(HttpMethod::Post)
    } else if same_text(upper, "PUT") {
        Some(HttpMethod::Put)
    } else if same_text(upper, "DELETE") {
        Some(HttpMethod::Delete)
    } else if same_text(upper, "PATCH") {
        Some(HttpMethod::Patch)
    } else {
        None
    }
}

/// Reads the method of a request, in whatever case it is written. Any other
/// name is refused with `Unsupported HTTP method: ` and the name as given.
pub fn parse_method(method: &str) -> (r: Result<HttpMethod, String>)
    ensures
        match method_named(unicode_uppercased(method@)) {
            Some(m) => r == Ok::<HttpMethod, String>(m),
            None => r is Err && r->Err_0@ == "Unsupported HTTP method: "@ + method@,
        },
{
    let upper = uppercase(method);
    match method_of_upper(upper.as_str()) {
        Some(m) => Ok(m),
        None => Err(appended("Unsupported HTTP method: ", method)),
    }
}

} // verus!
