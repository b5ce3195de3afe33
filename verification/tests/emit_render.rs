use auto_format::emit::{html_response_from_render, AutoOutputFormat};
use auto_format::json::json_round_trip;
use auto_format::negotiate::{Format, HtmlContext};
use auto_format::render::{langs_function, render_html_error};
use auto_format::response::{error_page, ContentType};

fn int_value(n: i64) -> serde_json::Value {
    serde_json::Value::Number(serde_json::Number::from(n))
}

fn sample_object() -> serde_json::Value {
    let mut m = serde_json::Map::new();
    m.insert("a".to_string(), int_value(1));
    m.insert(
        "b".to_string(),
        serde_json::Value::Array(vec![
            serde_json::Value::Bool(true),
            serde_json::Value::Null,
            serde_json::Value::String("x<y&\"z\"".to_string()),
        ]),
    );
    serde_json::Value::Object(m)
}

fn empty_engine() -> tera::Tera {
    tera::Tera::default()
}

fn greeting_engine() -> tera::Tera {
    let mut t = tera::Tera::default();
    t.add_raw_template("greet.txt", "Hello {{ object }}").unwrap();
    t
}

#[test]
fn media_type_strings() {
    assert_eq!(ContentType::Json.media_type(), "application/json");
    assert_eq!(ContentType::Html.media_type(), "text/html");
    assert_eq!(ContentType::Text.media_type(), "text/plain");
}

#[test]
fn escaping_in_error_page_is_exact() {
    let page = error_page("T", "<x>&'\"/");
    assert_eq!(page.status, 500);
    assert_eq!(page.content_type, ContentType::Html);
    assert_eq!(
        page.body,
        "<h2>T</h2>\n<pre>&lt;x&gt;&amp;&#x27;&quot;&#x2F;</pre>"
    );
}

#[test]
fn hostile_error_text_never_reaches_the_body_raw() {
    let err = tera::Error::msg("<script>alert('pwned')</script>");
    let resp = render_html_error("Error rendering template", &err);
    assert_eq!(resp.status, 500);
    assert_eq!(resp.content_type, ContentType::Html);
    assert!(!resp.body.contains("<script>"));
    assert!(resp.body.contains("&lt;script&gt;"));
}

#[test]
fn new_emitter_defaults_to_status_200() {
    let out = AutoOutputFormat::new(int_value(5), "greet.txt", Format::Json);
    assert_eq!(out.status, 200);
    assert_eq!(out.template, "greet.txt");
    let engine = empty_engine();
    let resp = out.into_response(Ok(&engine), false);
    assert_eq!(resp.status, 200);
}

#[test]
fn json_response_serializes_the_data() {
    let engine = empty_engine();
    let out = AutoOutputFormat::new(sample_object(), "greet.txt", Format::Json);
    let resp = out.into_response(Ok(&engine), false);
    assert_eq!(resp.status, 200);
    assert_eq!(resp.content_type, ContentType::Json);
    assert_eq!(resp.body, "{\"a\":1,\"b\":[true,null,\"x<y&\\\"z\\\"\"]}");
}

#[test]
fn json_body_decodes_back_to_the_same_data() {
    // Round trip: the emitted JSON body parses back to a value equal to the
    // one that was emitted.
    let data = sample_object();
    let engine = empty_engine();
    let out = AutoOutputFormat::new(data.clone(), "greet.txt", Format::Json);
    let resp = out.into_response(Ok(&engine), false);
    let back: serde_json::Value = serde_json::from_str(&resp.body).unwrap();
    assert_eq!(back, data);
    // The verified round-trip function agrees.
    assert_eq!(json_round_trip(&data).unwrap(), data);
}

#[test]
fn html_response_renders_the_template() {
    let engine = greeting_engine();
    let ctx = HtmlContext::new(None);
    let out = AutoOutputFormat::new(
        serde_json::Value::String("world".to_string()),
        "greet.txt",
        Format::Html(ctx),
    );
    let resp = out.into_response(Ok(&engine), false);
    assert_eq!(resp.status, 200);
    assert_eq!(resp.content_type, ContentType::Html);
    assert_eq!(resp.body, "Hello world");
}

#[test]
fn html_render_sees_account_and_dev_flag() {
    let mut t = tera::Tera::default();
    t.add_raw_template("who.txt", "{{ account }}|{% if dev %}dev{% else %}prod{% endif %}")
        .unwrap();
    let ctx = HtmlContext::new(Some(serde_json::Value::String("ada".to_string())));
    let out = AutoOutputFormat::new(int_value(0), "who.txt", Format::Html(ctx));
    let resp = out.into_response(Ok(&t), true);
    assert_eq!(resp.body, "ada|dev");
}

#[test]
fn status_override_reaches_json_and_html() {
    let engine = greeting_engine();
    let json_out = AutoOutputFormat::new(int_value(1), "greet.txt", Format::Json)
        .with_status(201);
    let json_resp = json_out.into_response(Ok(&engine), false);
    assert_eq!(json_resp.status, 201);

    let html_out = AutoOutputFormat::new(
        serde_json::Value::String("w".to_string()),
        "greet.txt",
        Format::Html(HtmlContext::new(None)),
    )
    .with_status(201);
    let html_resp = html_out.into_response(Ok(&engine), false);
    assert_eq!(html_resp.status, 201);
    assert_eq!(html_resp.body, "Hello w");
}

#[test]
fn render_failure_forces_500_despite_override() {
    // The template does not exist, so the render fails: the configured 201
    // must be overridden by the fixed 500 of the diagnostic page.
    let engine = empty_engine();
    let out = AutoOutputFormat::new(
        int_value(1),
        "missing.txt",
        Format::Html(HtmlContext::new(None)),
    )
    .with_status(201);
    let resp = out.into_response(Ok(&engine), false);
    assert_eq!(resp.status, 500);
    assert_eq!(resp.content_type, ContentType::Html);
    assert!(resp.body.starts_with("<h2>Error rendering template</h2>"));
}

#[test]
fn engine_initialization_failure_is_a_safe_500() {
    let err = tera::Error::msg("compile trouble <tag>");
    let out = AutoOutputFormat::new(
        int_value(1),
        "greet.txt",
        Format::Html(HtmlContext::new(None)),
    )
    .with_status(201);
    let resp = out.into_response(Err(&err), false);
    assert_eq!(resp.status, 500);
    assert_eq!(resp.content_type, ContentType::Html);
    assert!(resp.body.starts_with("<h2>Error initializing Tera</h2>"));
    assert!(!resp.body.contains("<tag>"));
    assert!(resp.body.contains("&lt;tag&gt;"));
}

#[test]
fn render_outcome_decides_the_response() {
    let ok = html_response_from_render(Ok("fine".to_string()), 201);
    assert_eq!(ok.status, 201);
    assert_eq!(ok.body, "fine");
    let failed = html_response_from_render(Err(tera::Error::msg("why")), 201);
    assert_eq!(failed.status, 500);
}

#[test]
fn langs_function_takes_no_arguments() {
    let langs = vec!["python".to_string(), "rust".to_string()];
    assert_eq!(langs_function(0, langs.clone()), Ok(langs.clone()));
    assert_eq!(
        langs_function(2, langs),
        Err("Get langs function takes no arguments".to_string())
    );
}
