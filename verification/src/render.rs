//! The HTML side of the emitter: rendering through a shared `tera` template
//! engine, and the safe diagnostic page for engine failures.
//!
//! Building the engine compiles template files from disk and so stays with
//! the surrounding server, as does the process-wide compute-once cell that
//! guards it; this module takes the cached outcome of that initialization
//! and turns every render attempt into a well-formed response.

use vstd::prelude::*;
use crate::response::{error_page, error_page_text, HttpResponse};

verus! {

#[verifier::external_type_specification]
#[verifier::external_body]
pub struct ExTera(tera::Tera);

#[verifier::external_type_specification]
#[verifier::external_body]
pub struct ExTeraError(tera::Error);

/// Relies on `tera::Tera::render`, called with a context holding the data
/// value under `object`, the optional identity under `account` and the
/// environment flag under `dev`. Which text or error comes back depends on
/// the engine's compiled templates, so nothing is promised of it.
#[verifier::external_body]
pub(crate) fn render_template(
    engine: &tera::Tera,
    template: &str,
    object: &serde_json::Value,
    account: &Option<serde_json::Value>,
    dev: bool,
) -> Result<String, tera::Error> {
    let mut context = tera::Context::new();
    context.insert("object", object);
    context.insert("account", account);
    context.insert("dev", &dev);
    engine.render(template, &context)
}

/// The diagnostic text of a template failure: a generic message error's text
/// with its source chain, or the debug form of any other kind — a function
/// of the error value alone.
pub uninterp spec fn tera_error_text(e: tera::Error) -> Seq<char>;

/// Relies on `tera::Error`: formats a generic message error together with
/// its source chain, and any other kind through its debug form.
#[verifier::external_body]
pub(crate) fn tera_error_message(e: &tera::Error) -> (r: String)
    ensures
        r@ == tera_error_text(*e),
{
    match &e.kind {
        tera::ErrorKind::Msg(m) => format!("{m}\n{:?}", std::error::Error::source(e)),
        _ => format!("{:#?}", e.kind),
    }
}

/// The 500 diagnostic page for a template failure: the error's diagnostic
/// text reaches the body only in escaped form.
pub fn render_html_error(title: &str, error: &tera::Error) -> (r: HttpResponse)
    ensures
        r.status == 500,
        r.content_type is Html,
        r.body@ == error_page_text(title@, tera_error_text(*error)),
{
    let message = tera_error_message(error);
    error_page(title, message.as_str())
}

/// The decision behind the zero-argument language-list template function:
/// called with any argument it reports an error, called bare it hands the
/// configured list through unchanged.
pub fn langs_function(arg_count: usize, langs: Vec<String>) -> (r: Result<Vec<String>, String>)
    ensures
        arg_count == 0 ==> (r matches Ok(l) && l == langs),
        arg_count != 0 ==> (r matches Err(m) && m@ == "Get langs function takes no arguments"@),
{
    if arg_count != 0 {
        Err(String::from_str("Get langs function takes no arguments"))
    } else {
        Ok(langs)
    }
}

} // verus!
