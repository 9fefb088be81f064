//! Problem responses and error texts shared by the service layers.

use vstd::prelude::*;

use crate::text::{concat_str, fmt_i64, owned, signed_decimal};

verus! {

/// Tag URI for 404 bodies.
pub const TAG_UXUM_NOT_FOUND: &'static str = "tag:uxum.github.io,2024:not_found";
/// Tag URI for error bodies.
pub const TAG_UXUM_ERROR: &'static str = "tag:uxum.github.io,2024:error";
/// Tag URI for panic bodies.
pub const TAG_UXUM_PANIC: &'static str = "tag:uxum.github.io,2024:panic";
/// Tag URI for rate-limiting results.
pub const TAG_UXUM_RATE_LIMIT: &'static str = "tag:uxum.github.io,2024:rate-limit";
/// Tag URI for auth error bodies.
pub const TAG_UXUM_AUTH: &'static str = "tag:uxum.github.io,2024:auth";
/// Tag URI for timeout error bodies.
pub const TAG_UXUM_TIMEOUT: &'static str = "tag:uxum.github.io,2024:timeout";
/// Tag URI for metrics error bodies.
pub const TAG_UXUM_METRICS: &'static str = "tag:uxum.github.io,2024:metrics";

/// An I/O error as text: its message, its kind and the raw OS error code, if any.
#[derive(Clone, Debug)]
pub struct IoError {
    /// Error message.
    pub message: String,
    /// Name of the error kind.
    pub kind: String,
    /// Raw OS error code.
    pub raw: Option<i32>,
}

/// Text of an I/O error: `<message>, kind=<kind>` and `, raw=<code>` when there is one.
pub open spec fn io_error_text(message: Seq<char>, kind: Seq<char>, raw: Option<i32>) -> Seq<char> {
    let base = message + ", kind="@ + kind;
    match raw {
        Some(code) => base + ", raw="@ + signed_decimal(code as int),
        None => base,
    }
}

impl IoError {
    /// A copy of the error.
    pub fn duplicate(&self) -> (r: IoError)
        ensures
            r == *self,
    {
        IoError { message: self.message.clone(), kind: self.kind.clone(), raw: self.raw }
    }

    /// Human-readable text of the error.
    pub fn to_text(&self) -> (r: String)
        ensures
            r@ == io_error_text(self.message@, self.kind@, self.raw),
    {
        let head = concat_str(self.message.as_str(), ", kind=");
        let base = concat_str(head.as_str(), self.kind.as_str());
        match self.raw {
            Some(code) => {
                let n = fmt_i64(code as i64);
                let with = concat_str(base.as_str(), ", raw=");
                concat_str(with.as_str(), n.as_str())
            },
            None => base,
        }
    }
}

/// A problem-details response: status, type tag, title, optional detail and
/// extra string members.
#[derive(Debug)]
pub struct Problem {
    /// HTTP status code.
    pub status: u16,
    /// Problem type URI.
    pub type_tag: Option<String>,
    /// Problem title.
    pub title: String,
    /// Problem detail.
    pub detail: Option<String>,
    /// Extra members, in order.
    pub values: Vec<(String, String)>,
}

impl Problem {
    /// The answer to a request no route matched: 404 with the request URI.
    pub fn not_found(uri: &str) -> (r: Problem)
        ensures
            r.status == 404,
            r.type_tag matches Some(t) && t@ == TAG_UXUM_NOT_FOUND@,
            r.title@ == "Resource not found"@,
            r.detail is None,
            r.values@.len() == 1 && r.values@[0].0@ == "uri"@ && r.values@[0].1@ == uri@,
    {
        let mut values: Vec<(String, String)> = Vec::new();
        values.push((owned("uri"), owned(uri)));
        Problem {
            status: 404,
            type_tag: Some(owned(TAG_UXUM_NOT_FOUND)),
            title: owned("Resource not found"),
            detail: None,
            values,
        }
    }

    /// The answer to a request whose handler panicked: 500 with the panic message,
    /// or a note that the panic payload was not text.
    pub fn panic(payload: Option<&str>) -> (r: Problem)
        ensures
            r.status == 500,
            r.type_tag matches Some(t) && t@ == TAG_UXUM_PANIC@,
            r.title@ == "Encountered panic in handler"@,
            r.detail matches Some(d) && d@ == match payload {
                Some(p) => p@,
                None => "Unknown panic format"@,
            },
            r.values@.len() == 0,
    {
        let details = match payload {
            Some(p) => owned(p),
            None => owned("Unknown panic format"),
        };
        Problem {
            status: 500,
            type_tag: Some(owned(TAG_UXUM_PANIC)),
            title: owned("Encountered panic in handler"),
            detail: Some(details),
            values: Vec::new(),
        }
    }

    /// The answer to an error a layer returned that has no answer of its own:
    /// 500 with the error's message.
    pub fn internal(message: &str) -> (r: Problem)
        ensures
            r.status == 500,
            r.type_tag matches Some(t) && t@ == TAG_UXUM_ERROR@,
            r.title@ == message@,
            r.detail is None,
            r.values@.len() == 0,
    {
        Problem {
            status: 500,
            type_tag: Some(owned(TAG_UXUM_ERROR)),
            title: owned(message),
            detail: None,
            values: Vec::new(),
        }
    }

    /// A problem with a status and title only.
    pub fn plain(status: u16, title: String) -> (r: Problem)
        ensures
            r.status == status,
            r.type_tag is None,
            r.title == title,
            r.detail is None,
            r.values@.len() == 0,
    {
        Problem { status, type_tag: None, title, detail: None, values: Vec::new() }
    }
}

} // verus!
