//! Response envelopes: status, content type, body, optional redirect
//! target, the fixed set of security headers that every response carries
//! by construction, and a ghost record of what was asked of the template
//! renderer to produce the body.

use vstd::prelude::*;

use crate::render::RenderError;

verus! {

/// What was handed to the template renderer to produce a response body:
/// the template's name and the context bindings, key to value.
pub struct RenderRecord {
    pub template: Seq<char>,
    pub bindings: Map<Seq<char>, Seq<char>>,
}

/// The record of one render request.
pub open spec fn render_record(template: Seq<char>, bindings: Map<Seq<char>, Seq<char>>) -> Option<
    RenderRecord,
> {
    Some(RenderRecord { template, bindings })
}

/// A finished HTTP response as the core logic describes it: everything
/// the transport layer needs to write the response out. `rendered_from`
/// is ghost state recording which template, under which bindings, was
/// asked to produce the body — `None` where no rendering was asked for.
pub struct ResponseEnvelope {
    pub status: u16,
    pub content_type: Option<String>,
    pub location: Option<String>,
    pub body: String,
    pub headers: Vec<(String, String)>,
    pub rendered_from: Ghost<Option<RenderRecord>>,
}

/// The fixed security header set, in order. Every envelope the library
/// builds carries exactly these five headers.
pub open spec fn has_security_headers(hs: Seq<(String, String)>) -> bool {
    &&& hs.len() == 5
    &&& hs[0].0@ == "Strict-Transport-Security"@
    &&& hs[0].1@ == "max-age=31536000; includeSubDomains"@
    &&& hs[1].0@ == "X-Frame-Options"@
    &&& hs[1].1@ == "DENY"@
    &&& hs[2].0@ == "X-Content-Type-Options"@
    &&& hs[2].1@ == "nosniff"@
    &&& hs[3].0@ == "X-XSS-Protection"@
    &&& hs[3].1@ == "1; mode=block"@
    &&& hs[4].0@ == "X-Robots-Tag"@
    &&& hs[4].1@ == "noindex, nofollow"@
}

/// Builds the fixed security header set.
fn security_headers() -> (hs: Vec<(String, String)>)
    ensures
        has_security_headers(hs@),
{
    let mut hs: Vec<(String, String)> = Vec::new();
    hs.push(
        (
            String::from_str("Strict-Transport-Security"),
            String::from_str("max-age=31536000; includeSubDomains"),
        ),
    );
    hs.push((String::from_str("X-Frame-Options"), String::from_str("DENY")));
    hs.push((String::from_str("X-Content-Type-Options"), String::from_str("nosniff")));
    hs.push((String::from_str("X-XSS-Protection"), String::from_str("1; mode=block")));
    hs.push((String::from_str("X-Robots-Tag"), String::from_str("noindex, nofollow")));
    hs
}

/// Wraps a rendered body in an envelope with the given status and content
/// type, attaching the fixed security headers.
pub fn wrap(status: u16, content_type: &str, body: String) -> (r: ResponseEnvelope)
    ensures
        r.status == status,
        r.content_type is Some,
        r.content_type->0@ == content_type@,
        r.location is None,
        r.body == body,
        has_security_headers(r.headers@),
        r.rendered_from@ is None,
{
    ResponseEnvelope {
        status,
        content_type: Some(String::from_str(content_type)),
        location: None,
        body,
        headers: security_headers(),
        rendered_from: Ghost(None),
    }
}

/// Builds the redirect envelope for a target location: status 302, an
/// empty body, no content type, no rendering, and the fixed security
/// headers.
pub fn redirect_to(location: String) -> (r: ResponseEnvelope)
    ensures
        r.status == 302,
        r.content_type is None,
        r.location is Some,
        r.location->0 == location,
        r.body@.len() == 0,
        has_security_headers(r.headers@),
        r.rendered_from@ is None,
{
    ResponseEnvelope {
        status: 302,
        content_type: None,
        location: Some(location),
        body: String::new(),
        headers: security_headers(),
        rendered_from: Ghost(None),
    }
}

/// Finishes a render attempt: a successful rendering becomes an HTML
/// response with the intended status; a failed one becomes the internal
/// fault response, status 500 with the given message. Either way the
/// fixed security headers are attached.
pub fn complete_render(status: u16, fail_message: &str, rendered: Result<
    String,
    RenderError,
>) -> (r: ResponseEnvelope)
    ensures
        has_security_headers(r.headers@),
        r.location is None,
        r.rendered_from@ is None,
        rendered matches Ok(html) ==> r.status == status && r.body == html && r.content_type
            is Some && r.content_type->0@ == "text/html"@,
        rendered is Err ==> r.status == 500 && r.body@ == fail_message@ && r.content_type is None,
{
    match rendered {
        Ok(html) => wrap(status, "text/html", html),
        Err(_) => {
            ResponseEnvelope {
                status: 500,
                content_type: None,
                location: None,
                body: String::from_str(fail_message),
                headers: security_headers(),
                rendered_from: Ghost(None),
            }
        },
    }
}

} // verus!
