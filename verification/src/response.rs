//! The owned response shape handed back for every request.
//!
//! Success and failure share one shape, so the releasing side never needs to
//! know which it holds: a failure is marked solely by the reserved sentinel
//! status, carries the diagnostic as its body, and has no content type and
//! no header set.

use vstd::prelude::*;

verus! {

/// The reserved status marking an error result; no real HTTP status uses it.
pub const ERROR_STATUS: u16 = 65535;

/// One response header: an owned name/value pair.
pub struct HttpHeaderItem {
    pub key: String,
    pub value: String,
}

/// The ordered header set of a response; may be empty.
pub struct HttpHeaders {
    pub items: Vec<HttpHeaderItem>,
}

/// What a request produces: either a real transport response, or the uniform
/// error shape marked by [`ERROR_STATUS`].
pub struct HttpResponse {
    pub body: String,
    pub status: u16,
    pub content_type: Option<String>,
    pub headers: Option<HttpHeaders>,
}

/// The one shape every produced response has: an error result carries no
/// content type and no header set, a real response always carries both.
pub open spec fn wf_response(r: &HttpResponse) -> bool {
    if r.status == ERROR_STATUS {
        r.content_type is None && r.headers is None
    } else {
        r.content_type is Some && r.headers is Some
    }
}

/// The error shape with `msg` as its diagnostic body.
pub open spec fn is_error_with(r: &HttpResponse, msg: Seq<char>) -> bool {
    &&& r.status == ERROR_STATUS
    &&& r.body@ == msg
    &&& r.content_type is None
    &&& r.headers is None
}

/// Builds the uniform error shape: sentinel status, the diagnostic as body,
/// no content type, no header set.
pub fn make_error_response(msg: &str) -> (r: HttpResponse)
    ensures
        is_error_with(&r, msg@),
{
    HttpResponse {
        body: String::from_str(msg),
        status: ERROR_STATUS,
        content_type: None,
        headers: None,
    }
}

/// The text holds a NUL character, which C text cannot carry.
pub open spec fn has_nul(s: Seq<char>) -> bool {
    exists|i: int| 0 <= i < s.len() && s[i] == '\0'
}

/// The text a diagnostic becomes at the C boundary: itself where it can be a
/// C string, the fixed generic message where an interior NUL forbids it.
pub open spec fn spec_c_safe_text(s: Seq<char>) -> Seq<char> {
    if has_nul(s) {
        "unknown error"@
    } else {
        s
    }
}

/// Decides what diagnostic text crosses the C boundary: the text itself when
/// it holds no interior NUL, else the fixed generic message.
pub fn c_safe_text(s: String) -> (r: String)
    ensures
        r@ == spec_c_safe_text(s@),
{
    let n = s.as_str().unicode_len();
    let mut i: usize = 0;
    while i < n
        invariant
            n == s@.len(),
            i <= n,
            forall|j: int| 0 <= j < i ==> s@[j] != '\0',
        decreases n - i,
    {
        if s.as_str().get_char(i) == '\0' {
            return String::from_str("unknown error");
        }
        i += 1;
    }
    s
}

/// An error result is itself well formed: the releasing side walks the same
/// shape whether the request succeeded or failed.
pub proof fn lemma_error_response_wf(r: &HttpResponse, msg: Seq<char>)
    requires
        is_error_with(r, msg),
    ensures
        wf_response(r),
{
}

} // verus!
