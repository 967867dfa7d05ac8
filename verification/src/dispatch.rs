//! Deciding what a request does and shaping what comes back.
//!
//! Validation turns a raw method name and the presence of a body into either
//! a recognised method or a finished error response; marshaling turns the
//! outcome of the transport exchange — performed outside the library — into
//! the uniform owned response shape.

use vstd::prelude::*;

use crate::method::{
    parse_method, requires_body, method_name, spec_parse_method, spec_requires_body,
    spec_method_name, Method,
};
use crate::response::{
    make_error_response, is_error_with, wf_response, HttpHeaderItem, HttpHeaders, HttpResponse,
    ERROR_STATUS,
};

verus! {

/// What validation decides for a method name `s` and a body present or not:
/// the recognised method, or the exact diagnostic of the rejection.
pub open spec fn spec_validate(s: Seq<char>, has_body: bool) -> Result<Method, Seq<char>> {
    match spec_parse_method(s) {
        Some(m) => if spec_requires_body(m) && !has_body {
            Err(spec_method_name(m) + " requires body"@)
        } else {
            Ok(m)
        },
        None => Err("unsupported HTTP method"@),
    }
}

/// Checks the request before any transport work: the method name must be
/// recognised (trimmed, case-insensitively), and a body-bearing method must
/// come with a body. A rejection is a finished error response.
pub fn validate_request(method: &str, has_body: bool) -> (r: Result<Method, HttpResponse>)
    ensures
        match spec_validate(method@, has_body) {
            Ok(m) => r matches Ok(rm) && rm == m,
            Err(msg) => r matches Err(e) && is_error_with(&e, msg),
        },
{
    match parse_method(method) {
        Some(m) => {
            if requires_body(m) && !has_body {
                let mut msg = String::from_str(method_name(m));
                msg.append(" requires body");
                Err(make_error_response(msg.as_str()))
            } else {
                Ok(m)
            }
        },
        None => Err(make_error_response("unsupported HTTP method")),
    }
}

/// The outcome of one transport exchange, as plain owned values.
pub enum TransportResult {
    /// The transport produced a response; any status, error statuses
    /// included, counts as produced.
    Success {
        status: u16,
        content_type: Option<String>,
        headers: Vec<HttpHeaderItem>,
        body: String,
    },
    /// The exchange itself failed (connection, name resolution, protocol).
    RequestFailed { detail: String },
    /// The response arrived but its body could not be read as text.
    BodyReadFailed { detail: String },
}

/// The content-type text a marshaled response carries: what the transport
/// reported, or the empty string where it reported none.
pub open spec fn spec_content_type_text(ct: Option<String>) -> Seq<char> {
    match ct {
        Some(v) => v@,
        None => Seq::<char>::empty(),
    }
}

/// Shapes a transport outcome into the owned response: a produced response
/// keeps its status, body and headers and always carries a content type and
/// a header set; either failure becomes the error shape with its diagnostic
/// prefixed by what failed.
pub fn marshal_response(t: TransportResult) -> (r: HttpResponse)
    ensures
        match t {
            TransportResult::Success { status, content_type, headers, body } => {
                &&& r.status == status
                &&& r.body@ == body@
                &&& r.content_type matches Some(c) && c@ == spec_content_type_text(content_type)
                &&& r.headers matches Some(h) && h.items@ == headers@
                &&& status != ERROR_STATUS ==> wf_response(&r)
            },
            TransportResult::RequestFailed { detail } => is_error_with(
                &r,
                "request error: "@ + detail@,
            ),
            TransportResult::BodyReadFailed { detail } => is_error_with(
                &r,
                "read body error: "@ + detail@,
            ),
        },
{
    match t {
        TransportResult::Success { status, content_type, headers, body } => {
            let ct = match content_type {
                Some(v) => v,
                None => String::new(),
            };
            HttpResponse {
                body,
                status,
                content_type: Some(ct),
                headers: Some(HttpHeaders { items: headers }),
            }
        },
        TransportResult::RequestFailed { detail } => {
            let mut msg = String::from_str("request error: ");
            msg.append(detail.as_str());
            make_error_response(msg.as_str())
        },
        TransportResult::BodyReadFailed { detail } => {
            let mut msg = String::from_str("read body error: ");
            msg.append(detail.as_str());
            make_error_response(msg.as_str())
        },
    }
}

/// `hay` has `needle` as a contiguous part.
pub open spec fn contains_seq(hay: Seq<char>, needle: Seq<char>) -> bool {
    exists|i: int|
        0 <= i && i + needle.len() <= hay.len() && #[trigger] hay.subrange(
            i,
            i + needle.len(),
        ) == needle
}

/// A body handed to a method that takes none is ignored: validation accepts
/// the request with the same method whether or not a body is present.
pub proof fn lemma_body_ignored(s: Seq<char>, m: Method)
    requires
        spec_parse_method(s) == Some(m),
        !spec_requires_body(m),
    ensures
        spec_validate(s, true) == Ok::<Method, Seq<char>>(m),
        spec_validate(s, false) == Ok::<Method, Seq<char>>(m),
{
}

/// A body-bearing method without a body is rejected, and the diagnostic
/// names the method and contains "requires body".
pub proof fn lemma_missing_body_rejected(s: Seq<char>, m: Method)
    requires
        spec_parse_method(s) == Some(m),
        spec_requires_body(m),
    ensures
        spec_validate(s, false) == Err::<Method, Seq<char>>(spec_method_name(m) + " requires body"@),
        contains_seq(spec_method_name(m) + " requires body"@, "requires body"@),
{
    reveal_strlit(" requires body");
    reveal_strlit("requires body");
    let name = spec_method_name(m);
    let msg = name + " requires body"@;
    let i = name.len() as int + 1;
    assert(msg.subrange(i, i + "requires body"@.len()) =~= "requires body"@);
}

/// An unrecognised method name is rejected with the one fixed diagnostic,
/// whether or not a body is present, and the diagnostic contains
/// "unsupported".
pub proof fn lemma_unsupported_rejected(s: Seq<char>, has_body: bool)
    requires
        spec_parse_method(s) is None,
    ensures
        spec_validate(s, has_body) == Err::<Method, Seq<char>>("unsupported HTTP method"@),
        contains_seq("unsupported HTTP method"@, "unsupported"@),
{
    reveal_strlit("unsupported HTTP method");
    reveal_strlit("unsupported");
    let i = 0int;
    assert("unsupported HTTP method"@.subrange(i, i + "unsupported"@.len()) =~= "unsupported"@);
}

} // verus!
