//! The library's notion of a finished HTTP response, plus the HTML escaping
//! used by the safe diagnostic page.

use vstd::prelude::*;

verus! {

/// The media kind of a finished response.
#[derive(Clone, Copy, PartialEq, Eq, Structural, Debug)]
pub enum ContentType {
    Json,
    Html,
    Text,
}

/// A finished HTTP response: status, media kind and body, everything the
/// surrounding server needs to put the response on the wire.
pub struct HttpResponse {
    pub status: u16,
    pub content_type: ContentType,
    pub body: String,
}

impl ContentType {
    /// The media type string to send in the `Content-Type` header.
    pub fn media_type(&self) -> (r: &'static str)
        ensures
            *self is Json ==> r@ == "application/json"@,
            *self is Html ==> r@ == "text/html"@,
            *self is Text ==> r@ == "text/plain"@,
    {
        match self {
            ContentType::Json => "application/json",
            ContentType::Html => "text/html",
            ContentType::Text => "text/plain",
        }
    }
}

/// What a single character becomes under HTML escaping.
pub open spec fn escape_char(c: char) -> Seq<char> {
    if c == '&' {
        seq!['&', 'a', 'm', 'p', ';']
    } else if c == '<' {
        seq!['&', 'l', 't', ';']
    } else if c == '>' {
        seq!['&', 'g', 't', ';']
    } else if c == '"' {
        seq!['&', 'q', 'u', 'o', 't', ';']
    } else if c == '\'' {
        seq!['&', '#', 'x', '2', '7', ';']
    } else if c == '/' {
        seq!['&', '#', 'x', '2', 'F', ';']
    } else {
        seq![c]
    }
}

/// HTML escaping of a whole string, character by character.
pub open spec fn escape_seq(s: Seq<char>) -> Seq<char>
    decreases s.len(),
{
    if s.len() == 0 {
        Seq::empty()
    } else {
        escape_seq(s.drop_last()) + escape_char(s.last())
    }
}

/// Escaped text never contains a raw angle bracket: whatever hostile markup
/// stood in the input cannot reach an HTML body through `escape_seq`.
pub proof fn lemma_escape_no_raw_markup(s: Seq<char>)
    ensures
        forall|i: int|
            0 <= i < escape_seq(s).len() ==> escape_seq(s)[i] != '<' && escape_seq(s)[i] != '>',
    decreases s.len(),
{
    if s.len() > 0 {
        lemma_escape_no_raw_markup(s.drop_last());
        assert forall|i: int|
            0 <= i < escape_seq(s).len() implies escape_seq(s)[i] != '<' && escape_seq(s)[i]
            != '>' by {
            let prefix = escape_seq(s.drop_last());
            if i < prefix.len() {
                assert(escape_seq(s)[i] == prefix[i]);
            } else {
                assert(escape_seq(s)[i] == escape_char(s.last())[i - prefix.len()]);
            }
        }
    }
}

/// Relies on `String::push`: appends the character at the end of the string.
#[verifier::external_body]
fn push_char(s: &mut String, c: char)
    ensures
        final(s)@ == old(s)@.push(c),
{
    s.push(c);
}

/// Escapes the HTML special characters `& < > " ' /` into their entities and
/// leaves every other character as it is.
pub fn escape_html(s: &str) -> (r: String)
    ensures
        r@ == escape_seq(s@),
{
    let n = s.unicode_len();
    let mut out = String::new();
    let mut i: usize = 0;
    while i < n
        invariant
            n == s@.len(),
            0 <= i <= n,
            out@ == escape_seq(s@.take(i as int)),
        decreases n - i,
    {
        let c = s.get_char(i);
        proof {
            assert(s@.take(i + 1).drop_last() =~= s@.take(i as int));
            assert(s@.take(i + 1).last() == s@[i as int]);
        }
        if c == '&' {
            out.append("&amp;");
            proof {
                reveal_strlit("&amp;");
                assert("&amp;"@ =~= escape_char('&'));
            }
        } else if c == '<' {
            out.append("&lt;");
            proof {
                reveal_strlit("&lt;");
                assert("&lt;"@ =~= escape_char('<'));
            }
        } else if c == '>' {
            out.append("&gt;");
            proof {
                reveal_strlit("&gt;");
                assert("&gt;"@ =~= escape_char('>'));
            }
        } else if c == '"' {
            out.append("&quot;");
            proof {
                reveal_strlit("&quot;");
                assert("&quot;"@ =~= escape_char('"'));
            }
        } else if c == '\'' {
            out.append("&#x27;");
            proof {
                reveal_strlit("&#x27;");
                assert("&#x27;"@ =~= escape_char('\''));
            }
        } else if c == '/' {
            out.append("&#x2F;");
            proof {
                reveal_strlit("&#x2F;");
                assert("&#x2F;"@ =~= escape_char('/'));
            }
        } else {
            push_char(&mut out, c);
            proof {
                assert(out@ =~= escape_seq(s@.take(i as int)) + escape_char(c));
            }
        }
        i = i + 1;
    }
    proof {
        assert(s@.take(n as int) =~= s@);
    }
    out
}

/// The body of the safe diagnostic page: an escaped title and an escaped
/// message, wrapped in fixed markup.
pub open spec fn error_page_text(title: Seq<char>, message: Seq<char>) -> Seq<char> {
    "<h2>"@ + escape_seq(title) + "</h2>\n<pre>"@ + escape_seq(message) + "</pre>"@
}

/// The diagnostic response for a template failure: always status 500, always
/// HTML, and its body interpolates the title and the message only in escaped
/// form.
pub fn error_page(title: &str, message: &str) -> (r: HttpResponse)
    ensures
        r.status == 500,
        r.content_type is Html,
        r.body@ == error_page_text(title@, message@),
{
    let mut body = String::new();
    body.append("<h2>");
    let escaped_title = escape_html(title);
    body.append(escaped_title.as_str());
    body.append("</h2>\n<pre>");
    let escaped_message = escape_html(message);
    body.append(escaped_message.as_str());
    body.append("</pre>");
    proof {
        assert(body@ =~= error_page_text(title@, message@));
    }
    HttpResponse { status: 500, content_type: ContentType::Html, body }
}

} // verus!
