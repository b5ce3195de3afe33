//! The response emitter: one data value, one template, one negotiated
//! format, one configurable status — and exactly one rendering path.

use vstd::prelude::*;
use crate::json::{json_parse, json_repr, to_json_string};
use crate::negotiate::{Format, HtmlContext};
use crate::render::{render_html_error, render_template, tera_error_text};
use crate::response::{error_page_text, ContentType, HttpResponse};

verus! {

/// A response waiting to be finished: the data to show, the template that
/// would show it as HTML, the negotiated format, and the status to send.
pub struct AutoOutputFormat {
    pub data: serde_json::Value,
    pub format: Format,
    pub template: String,
    pub status: u16,
}

/// Turns the outcome of a template render into the response: a successful
/// render keeps the configured status, a failed one is forced to the 500
/// diagnostic page whatever status was configured.
pub fn html_response_from_render(rendered: Result<String, tera::Error>, status: u16) -> (r:
    HttpResponse)
    ensures
        r.content_type is Html,
        rendered matches Ok(html) ==> r.status == status && r.body@ == html@,
        rendered matches Err(e) ==> r.status == 500 && r.body@ == error_page_text(
            "Error rendering template"@,
            tera_error_text(e),
        ),
{
    match rendered {
        Ok(html) => HttpResponse { status, content_type: ContentType::Html, body: html },
        Err(err) => render_html_error("Error rendering template", &err),
    }
}

impl AutoOutputFormat {
    /// Wraps a data value for emission with the given template and format;
    /// the status starts at 200.
    pub fn new(data: serde_json::Value, template: &str, format: Format) -> (r: Self)
        ensures
            r.data == data,
            r.format == format,
            r.template@ == template@,
            r.status == 200,
    {
        AutoOutputFormat { data, format, template: String::from_str(template), status: 200 }
    }

    /// Overrides the status the finished response will carry.
    pub fn with_status(self, status: u16) -> (r: Self)
        ensures
            r.status == status,
            r.data == self.data,
            r.format == self.format,
            r.template == self.template,
    {
        AutoOutputFormat { status, ..self }
    }

    /// Renders the HTML path: the engine's cached initialization outcome or
    /// the render itself failing both end in the escaped 500 diagnostic
    /// page; only a successful render keeps the configured status.
    pub fn create_html_response(
        data: &serde_json::Value,
        template: &str,
        status: u16,
        html_context: &HtmlContext,
        engine: Result<&tera::Tera, &tera::Error>,
        dev: bool,
    ) -> (r: HttpResponse)
        ensures
            r.content_type is Html,
            engine matches Err(e) ==> r.status == 500 && r.body@ == error_page_text(
                "Error initializing Tera"@,
                tera_error_text(*e),
            ),
            engine is Ok ==> r.status == status || (r.status == 500 && (exists|m: Seq<char>|
                r.body@ == error_page_text("Error rendering template"@, m))),
    {
        let tera = match engine {
            Ok(tera) => tera,
            Err(e) => {
                return render_html_error("Error initializing Tera", e);
            },
        };
        let rendered = render_template(tera, template, data, &html_context.account, dev);
        html_response_from_render(rendered, status)
    }

    /// Serializes the JSON path: the body is the data value's canonical
    /// JSON text, under the configured status.
    pub fn create_json_response(&self) -> (r: HttpResponse)
        ensures
            r.status == self.status,
            r.content_type is Json,
            r.body@ == json_repr(self.data),
            json_parse(r.body@) matches Some(t) ==> t == r.body@,
    {
        let body = to_json_string(&self.data);
        HttpResponse { status: self.status, content_type: ContentType::Json, body }
    }

    /// Finishes the response: exactly one of the two rendering paths runs,
    /// decided by the negotiated format.
    pub fn into_response(self, engine: Result<&tera::Tera, &tera::Error>, dev: bool) -> (r:
        HttpResponse)
        ensures
            self.format is Json ==> r.status == self.status && r.content_type is Json && r.body@
                == json_repr(self.data) && (json_parse(r.body@) matches Some(t) ==> t == r.body@),
            self.format is Html ==> r.content_type is Html,
            self.format is Html ==> (engine matches Err(e) ==> r.status == 500 && r.body@
                == error_page_text("Error initializing Tera"@, tera_error_text(*e))),
            self.format is Html && engine is Ok ==> r.status == self.status || (r.status == 500
                && (exists|m: Seq<char>|
                r.body@ == error_page_text("Error rendering template"@, m))),
    {
        match &self.format {
            Format::Html(context) => Self::create_html_response(
                &self.data,
                self.template.as_str(),
                self.status,
                context,
                engine,
                dev,
            ),
            Format::Json => self.create_json_response(),
        }
    }
}

} // verus!
