//! What the HTTP endpoints answer.
use vstd::prelude::*;

use crate::register::RegisterServiceOutput;

verus! {

/// The body of the answer to a registration: the new link's URL, or an
/// error message.
#[derive(Clone, Debug)]
pub struct RegisterResponse {
    pub url: Option<String>,
    pub error_msg: Option<String>,
}

impl RegisterResponse {
    /// A body with the given URL and error message.
    pub fn new(url: Option<String>, error_msg: Option<String>) -> (res: Self)
        ensures
            res.url == url,
            res.error_msg == error_msg,
    {
        RegisterResponse { url, error_msg }
    }
}

/// The message every failed request answers with.
pub open spec fn app_error_text() -> Seq<char> {
    seq!['a', 'p', 'p', ' ', 'e', 'r', 'r', 'o', 'r']
}

/// The message every failed request answers with.
pub fn app_error_message() -> (res: String)
    ensures
        res@ == app_error_text(),
{
    let mut s = String::new();
    s.append("app error");
    proof {
        reveal_strlit("app error");
    }
    assert(s@ =~= app_error_text());
    s
}

/// The HTTP status and body answering a registration: 200 with the URL when
/// it succeeded, 500 with the generic error message when it failed.
pub fn register_reply(outcome: Option<RegisterServiceOutput>) -> (res: (u16, RegisterResponse))
    ensures
        outcome matches Some(o) ==> res.0 == 200 && res.1.url == Some(o.url) && res.1.error_msg
            is None,
        outcome is None ==> res.0 == 500 && res.1.url is None && (res.1.error_msg matches Some(m)
            && m@ == app_error_text()),
{
    match outcome {
        Some(o) => (200, RegisterResponse::new(Some(o.url), None)),
        None => (500, RegisterResponse::new(None, Some(app_error_message()))),
    }
}

/// The value of the `Content-Disposition` header that serves a file as an
/// attachment named `fname`.
pub open spec fn spec_content_disposition(fname: Seq<char>) -> Seq<char> {
    seq!['a', 't', 't', 'a', 'c', 'h', 'm', 'e', 'n', 't', ';', ' ', 'f', 'i', 'l', 'e', 'n', 'a', 'm', 'e', '=', '"']
        + fname + seq!['"']
}

/// The value of the `Content-Disposition` header for a download of `fname`.
pub fn content_disposition(fname: &str) -> (res: String)
    ensures
        res@ == spec_content_disposition(fname@),
{
    let mut s = String::new();
    s.append("attachment; filename=\"");
    s.append(fname);
    s.append("\"");
    proof {
        reveal_strlit("attachment; filename=\"");
        reveal_strlit("\"");
    }
    assert(s@ =~= spec_content_disposition(fname@));
    s
}

} // verus!
