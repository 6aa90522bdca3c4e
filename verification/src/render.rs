//! The renderer boundary: tera's compiled template set and render
//! context are carried opaquely, while a ghost model tracks exactly
//! which bindings verified code has placed in a context, and every
//! finished render request is recorded in the envelope it produced.

use vstd::prelude::*;

use crate::envelope::complete_render;
use crate::envelope::has_security_headers;
use crate::envelope::render_record;
use crate::envelope::ResponseEnvelope;

verus! {

/// Declares tera::Tera, the compiled template set, as an opaque type.
#[verifier::external_type_specification]
#[verifier::external_body]
pub struct ExTera(tera::Tera);

/// Declares tera::Context, the render context, as an opaque type.
#[verifier::external_type_specification]
#[verifier::external_body]
pub struct ExContext(tera::Context);

/// Declares tera::Error, tera's failure type, as an opaque type.
#[verifier::external_type_specification]
#[verifier::external_body]
pub struct ExTeraError(tera::Error);

/// The library's own marker for a failed template rendering.
#[derive(Debug, PartialEq, Eq, Structural)]
pub enum RenderError {
    Failed,
}

/// Relies on tera::Context::new: a fresh, empty render context.
#[verifier::external_body]
fn context_new() -> (c: tera::Context) {
    tera::Context::new()
}

/// Relies on tera::Context::insert: binds a string value to a key in the
/// render context.
#[verifier::external_body]
fn context_insert(c: &mut tera::Context, key: &str, value: &str) {
    c.insert(key.to_owned(), value)
}

/// Relies on tera::Tera::render: produces the HTML text of the named
/// template under the given context, or fails.
#[verifier::external_body]
fn render_raw(t: &tera::Tera, name: &str, c: &tera::Context) -> (r: Result<
    String,
    tera::Error,
>) {
    t.render(name, c)
}

/// A render context together with the ghost model of its bindings. The
/// tera context inside is touched only by the methods here, each of
/// which keeps the model in step with the trusted call it makes.
pub struct PageContext {
    ctx: tera::Context,
    model: Ghost<Map<Seq<char>, Seq<char>>>,
}

impl PageContext {
    /// The key/value bindings this context holds.
    pub closed spec fn contents(&self) -> Map<Seq<char>, Seq<char>> {
        self.model@
    }

    /// A fresh context with no bindings.
    pub fn empty() -> (c: PageContext)
        ensures
            c.contents() == Map::<Seq<char>, Seq<char>>::empty(),
    {
        PageContext { ctx: context_new(), model: Ghost(Map::empty()) }
    }

    /// Binds a string value to a key.
    pub fn insert_str(&mut self, key: &str, value: &str)
        ensures
            final(self).contents() == old(self).contents().insert(key@, value@),
    {
        context_insert(&mut self.ctx, key, value);
        proof {
            self.model@ = self.model@.insert(key@, value@);
        }
    }
}

/// Renders a template, mapping tera's error type to the library's own.
fn render_page(t: &tera::Tera, name: &str, c: &PageContext) -> Result<String, RenderError> {
    match render_raw(t, name, &c.ctx) {
        Ok(html) => Ok(html),
        Err(_) => Err(RenderError::Failed),
    }
}

/// Hands the named template and the given context to the renderer and
/// finishes the envelope: the intended status with the rendered HTML
/// body on success, the internal fault response (status 500, the given
/// message) on failure. The envelope records exactly what was handed
/// over: this template name and this context's bindings.
pub fn render_into(
    t: &tera::Tera,
    template: &str,
    ctx: PageContext,
    status: u16,
    fail_message: &str,
) -> (r: ResponseEnvelope)
    ensures
        has_security_headers(r.headers@),
        r.location is None,
        r.rendered_from@ == render_record(template@, ctx.contents()),
        (r.status == status && r.content_type is Some && r.content_type->0@ == "text/html"@) || (
        r.status == 500 && r.body@ == fail_message@ && r.content_type is None),
{
    let rendered = render_page(t, template, &ctx);
    let mut r = complete_render(status, fail_message, rendered);
    proof {
        r.rendered_from@ = render_record(template@, ctx.contents());
    }
    r
}

} // verus!
