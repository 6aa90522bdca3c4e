//! The request pipeline: normalization, validation, canonicalization,
//! and the handlers behind each route. Every handler wraps its outcome
//! in an envelope that carries the fixed security headers and records
//! which template, under which bindings, was asked to produce the body.

use vstd::prelude::*;

use crate::envelope::has_security_headers;
use crate::envelope::redirect_to;
use crate::envelope::render_record;
use crate::envelope::ResponseEnvelope;
use crate::name::lemma_slug_already_normalized;
use crate::name::normalize;
use crate::name::normalize_spec;
use crate::name::RejectReason;
use crate::name::validate;
use crate::name::ValidationOutcome;
use crate::render::render_into;
use crate::render::PageContext;
use crate::slugger::slug_of;
use crate::slugger::slugify;
use crate::slugger::slugify_twice;
use crate::text::dashes_to_spaces;
use crate::text::dashes_to_spaces_spec;
use crate::text::str_eq;

verus! {

/// The canonical URL of the greeting page for a given slug.
pub open spec fn wish_url(slug: Seq<char>) -> Seq<char> {
    "/wish?name="@ + slug
}

/// The context bindings of an error page: `error` bound to the message.
pub open spec fn error_bindings(message: Seq<char>) -> Map<Seq<char>, Seq<char>> {
    Map::<Seq<char>, Seq<char>>::empty().insert("error"@, message)
}

/// The context bindings of the greeting page: the display name, the
/// slug, and the canonical URL under their template keys.
pub open spec fn wish_bindings(display: Seq<char>, slug: Seq<char>, url: Seq<char>) -> Map<
    Seq<char>,
    Seq<char>,
> {
    Map::<Seq<char>, Seq<char>>::empty().insert("name"@, display).insert(
        "name_slug"@,
        slug,
    ).insert("canonical_url"@, url)
}

/// The context bindings of the home page.
pub open spec fn home_bindings() -> Map<Seq<char>, Seq<char>> {
    Map::<Seq<char>, Seq<char>>::empty().insert("message"@, "Greeting Maker 🎉"@).insert(
        "canonical_url"@,
        "/"@,
    )
}

/// What the greeting endpoint decides to do for a raw name, before any
/// template is rendered: reject it, redirect to the canonical slug form,
/// or render the page directly.
#[derive(Debug, PartialEq, Eq)]
pub enum CanonicalDecision {
    Invalid,
    Redirect { location: String },
    Render { display_name: String, slug: String, canonical_url: String },
}

/// Normalizes, validates, and canonicalizes a raw name. A normalized name
/// over 50 characters is rejected; one that differs from its slug is
/// redirected to the slug's canonical URL; one already in slug form is
/// rendered directly, with hyphens shown as spaces.
pub fn canonicalize(raw: &str) -> (d: CanonicalDecision)
    ensures
        ({
            let name = normalize_spec(raw@);
            &&& name.len() > 50 ==> d == CanonicalDecision::Invalid
            &&& name.len() <= 50 && name != slug_of(name) ==> (d matches CanonicalDecision::Redirect {
                location,
            } && location@ == wish_url(slug_of(name)))
            &&& name.len() <= 50 && name == slug_of(name) ==> (d matches CanonicalDecision::Render {
                display_name,
                slug,
                canonical_url,
            } && display_name@ == dashes_to_spaces_spec(name) && slug@ == name && canonical_url@
                == wish_url(name))
        }),
{
    let name = normalize(raw);
    match validate(name.as_str()) {
        ValidationOutcome::Rejected(RejectReason::TooLong) => CanonicalDecision::Invalid,
        ValidationOutcome::Valid => {
            let slug = slugify(name.as_str());
            if !str_eq(name.as_str(), slug.as_str()) {
                let location = String::from_str("/wish?name=").concat(slug.as_str());
                CanonicalDecision::Redirect { location }
            } else {
                let display_name = dashes_to_spaces(name.as_str());
                let canonical_url = String::from_str("/wish?name=").concat(slug.as_str());
                CanonicalDecision::Render { display_name, slug, canonical_url }
            }
        },
    }
}

/// Law: following one redirect reaches a fixed point. The target name
/// of a redirect is the slug of the normalized name; when that slug is
/// non-empty and at most 50 characters, canonicalizing it renders
/// directly — never a second redirect. The other targets are returned
/// as `None`: an empty slug re-normalizes to the default name and
/// redirects again, and an over-long slug is rejected.
pub fn follow_redirect(raw: &str) -> (d: Option<CanonicalDecision>)
    ensures
        ({
            let name = normalize_spec(raw@);
            let slug = slug_of(name);
            &&& 0 < slug.len() && slug.len() <= 50 ==> d is Some && (d->0
                matches CanonicalDecision::Render {
                display_name,
                slug: target,
                canonical_url,
            } && display_name@ == dashes_to_spaces_spec(slug) && target@ == slug && canonical_url@
                == wish_url(slug))
            &&& !(0 < slug.len() && slug.len() <= 50) ==> d is None
        }),
{
    let name = normalize(raw);
    let pair = slugify_twice(name.as_str());
    let slug = pair.0;
    let len = slug.as_str().unicode_len();
    if 0 < len && len <= 50 {
        proof {
            lemma_slug_already_normalized(slug@);
        }
        Some(canonicalize(slug.as_str()))
    } else {
        None
    }
}

/// The greeting endpoint. An over-long name has the invalid-name error
/// page rendered from `error.html` (status 400); a name that is not its
/// own slug yields a redirect (status 302) to the canonical URL with an
/// empty body and no rendering; a canonical name has the greeting page
/// rendered from `index.html` under its three bindings (status 200). A
/// failed rendering yields status 500 instead. Every outcome carries the
/// security headers.
pub fn greet(tmpl: &tera::Tera, raw: &str) -> (r: ResponseEnvelope)
    ensures
        has_security_headers(r.headers@),
        ({
            let name = normalize_spec(raw@);
            &&& name.len() > 50 ==> (r.status == 400 || r.status == 500) && r.location is None
                && r.rendered_from@ == render_record(
                "error.html"@,
                error_bindings("Invalid name provided."@),
            ) && (r.status == 500 ==> r.body@ == "Error rendering error page"@ && r.content_type
                is None)
            &&& name.len() <= 50 && name != slug_of(name) ==> r.status == 302 && r.location
                is Some && r.location->0@ == wish_url(slug_of(name)) && r.body@.len() == 0
                && r.rendered_from@ is None
            &&& name.len() <= 50 && name == slug_of(name) ==> (r.status == 200 || r.status == 500)
                && r.location is None && r.rendered_from@ == render_record(
                "index.html"@,
                wish_bindings(dashes_to_spaces_spec(name), name, wish_url(name)),
            ) && (r.status == 500 ==> r.body@ == "Template rendering failed"@ && r.content_type
                is None)
            &&& r.status == 400 ==> name.len() > 50
            &&& r.status == 302 ==> name != slug_of(name)
            &&& r.status == 200 || r.status == 400 ==> r.content_type is Some && r.content_type->0@
                == "text/html"@
        }),
{
    match canonicalize(raw) {
        CanonicalDecision::Invalid => {
            let mut ctx = PageContext::empty();
            ctx.insert_str("error", "Invalid name provided.");
            render_into(tmpl, "error.html", ctx, 400, "Error rendering error page")
        },
        CanonicalDecision::Redirect { location } => redirect_to(location),
        CanonicalDecision::Render { display_name, slug, canonical_url } => {
            let mut ctx = PageContext::empty();
            ctx.insert_str("name", display_name.as_str());
            ctx.insert_str("name_slug", slug.as_str());
            ctx.insert_str("canonical_url", canonical_url.as_str());
            render_into(tmpl, "index.html", ctx, 200, "Template rendering failed")
        },
    }
}

/// The home page, rendered from `home.html` under its greeting message
/// and canonical URL: status 200, or 500 when the rendering fails,
/// always with the security headers.
pub fn home(tmpl: &tera::Tera) -> (r: ResponseEnvelope)
    ensures
        has_security_headers(r.headers@),
        r.status == 200 || r.status == 500,
        r.location is None,
        r.rendered_from@ == render_record("home.html"@, home_bindings()),
        r.status == 200 ==> r.content_type is Some && r.content_type->0@ == "text/html"@,
        r.status == 500 ==> r.body@ == "Template rendering failed"@ && r.content_type is None,
{
    let mut ctx = PageContext::empty();
    ctx.insert_str("message", "Greeting Maker 🎉");
    ctx.insert_str("canonical_url", "/");
    render_into(tmpl, "home.html", ctx, 200, "Template rendering failed")
}

/// The not-found page, rendered from `error.html` with the not-found
/// message: status 404, or 500 when the rendering fails, always with
/// the security headers.
pub fn not_found(tmpl: &tera::Tera) -> (r: ResponseEnvelope)
    ensures
        has_security_headers(r.headers@),
        r.status == 404 || r.status == 500,
        r.location is None,
        r.rendered_from@ == render_record("error.html"@, error_bindings("Page not found."@)),
        r.status == 404 ==> r.content_type is Some && r.content_type->0@ == "text/html"@,
        r.status == 500 ==> r.body@ == "Template rendering failed"@ && r.content_type is None,
{
    let mut ctx = PageContext::empty();
    ctx.insert_str("error", "Page not found.");
    render_into(tmpl, "error.html", ctx, 404, "Template rendering failed")
}

/// The missing-name error page, rendered from `error.html` with the
/// missing-name message: status 400, or 500 when the rendering fails,
/// always with the security headers.
pub fn missing_name_error(tmpl: &tera::Tera) -> (r: ResponseEnvelope)
    ensures
        has_security_headers(r.headers@),
        r.status == 400 || r.status == 500,
        r.location is None,
        r.rendered_from@ == render_record(
            "error.html"@,
            error_bindings("Missing required field name - Please provide a valid name."@),
        ),
        r.status == 400 ==> r.content_type is Some && r.content_type->0@ == "text/html"@,
        r.status == 500 ==> r.body@ == "Template rendering failed"@ && r.content_type is None,
{
    let mut ctx = PageContext::empty();
    ctx.insert_str("error", "Missing required field name - Please provide a valid name.");
    render_into(tmpl, "error.html", ctx, 400, "Template rendering failed")
}

/// A path the routing table names.
pub open spec fn known_route(path: Seq<char>) -> bool {
    path == "/"@ || path == "/wish"@ || path == "/404"@ || path == "/error"@
}

/// Routes one request. The four named routes go to their handlers; every
/// other path falls through to the not-found page, status 404 with the
/// not-found error body. The greeting route without a name query falls
/// back to the missing-name error. Every outcome carries the security
/// headers.
pub fn handle(tmpl: &tera::Tera, path: &str, query_name: Option<&str>) -> (r: ResponseEnvelope)
    ensures
        has_security_headers(r.headers@),
        path@ == "/"@ ==> (r.status == 200 || r.status == 500) && r.rendered_from@
            == render_record("home.html"@, home_bindings()),
        path@ == "/wish"@ && query_name is Some ==> ({
            let name = normalize_spec(query_name->0@);
            &&& name.len() > 50 ==> (r.status == 400 || r.status == 500) && r.rendered_from@
                == render_record("error.html"@, error_bindings("Invalid name provided."@))
            &&& name.len() <= 50 && name != slug_of(name) ==> r.status == 302 && r.location
                is Some && r.location->0@ == wish_url(slug_of(name)) && r.body@.len() == 0
                && r.rendered_from@ is None
            &&& name.len() <= 50 && name == slug_of(name) ==> (r.status == 200 || r.status == 500)
                && r.rendered_from@ == render_record(
                "index.html"@,
                wish_bindings(dashes_to_spaces_spec(name), name, wish_url(name)),
            )
        }),
        r.status == 302 ==> path@ == "/wish"@ && query_name is Some && ({
            let name = normalize_spec(query_name->0@);
            name != slug_of(name)
        }),
        r.status == 200 ==> path@ == "/"@ || path@ == "/wish"@,
        path@ == "/wish"@ && query_name is None ==> (r.status == 400 || r.status == 500)
            && r.rendered_from@ == render_record(
            "error.html"@,
            error_bindings("Missing required field name - Please provide a valid name."@),
        ),
        path@ == "/404"@ ==> (r.status == 404 || r.status == 500) && r.rendered_from@
            == render_record("error.html"@, error_bindings("Page not found."@)),
        path@ == "/error"@ ==> (r.status == 400 || r.status == 500) && r.rendered_from@
            == render_record(
            "error.html"@,
            error_bindings("Missing required field name - Please provide a valid name."@),
        ),
        !known_route(path@) ==> (r.status == 404 || r.status == 500) && r.rendered_from@
            == render_record("error.html"@, error_bindings("Page not found."@)),
{
    proof {
        reveal_strlit("/");
        reveal_strlit("/wish");
        reveal_strlit("/404");
        reveal_strlit("/error");
        assert("/"@.len() == 1);
        assert("/wish"@.len() == 5);
        assert("/404"@.len() == 4);
        assert("/error"@.len() == 6);
    }
    if str_eq(path, "/") {
        home(tmpl)
    } else if str_eq(path, "/wish") {
        match query_name {
            Some(raw) => greet(tmpl, raw),
            None => missing_name_error(tmpl),
        }
    } else if str_eq(path, "/404") {
        not_found(tmpl)
    } else if str_eq(path, "/error") {
        missing_name_error(tmpl)
    } else {
        not_found(tmpl)
    }
}

} // verus!
