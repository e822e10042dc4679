//! Reading values out of response bodies: named form fields from HTML, and
//! the provider's configuration object from the longest body line.
use vstd::prelude::*;

use crate::text::{chars_of, string_of};

verus! {

/// Why a value could not be read out of a response body.
#[derive(Clone, Copy, Debug, PartialEq, Eq, Structural)]
pub enum ScrapeError {
    /// The element, attribute or line that carries the value is absent.
    NotFound,
    /// The configuration line is there, but its payload is not JSON.
    MalformedBlob,
}

// ---------------------------------------------------------------------------
// HTML fields
// ---------------------------------------------------------------------------

/// What scraper yields for `html` parsed as a document: the attribute `attr`
/// of the first element that the CSS selector `selector` matches, if the
/// selector parses, some element matches and it carries that attribute.
pub uninterp spec fn html_first_match_attr(
    html: Seq<char>,
    selector: Seq<char>,
    attr: Seq<char>,
) -> Option<Seq<char>>;

/// Relies on scraper's `Html::parse_document`, `Selector::parse`, `Html::select`
/// and `ElementRef::attr`: the attribute `attr` of the first element that
/// `selector` matches, in the order of the parsed tree (which is document order
/// except where the HTML parser moves nodes, as it does with stray table content).
#[verifier::external_body]
fn first_match_attr(html: &str, selector: &str, attr: &str) -> (r: Option<String>)
    ensures
        r is Some <==> html_first_match_attr(html@, selector@, attr@) is Some,
        r matches Some(v) ==> html_first_match_attr(html@, selector@, attr@) == Some(v@),
{
    let document = scraper::Html::parse_document(html);
    let selector = match scraper::Selector::parse(selector) {
        Ok(s) => s,
        Err(_) => return None,
    };
    match document.select(&selector).next() {
        Some(element) => element.attr(attr).map(str::to_string),
        None => None,
    }
}

/// The values that the sign-in flow reads out of HTML pages.
#[derive(Clone, Copy, Debug, PartialEq, Eq, Structural)]
pub enum Field {
    /// The anti-forgery token of the single-sign-on entry form.
    AuthenticityToken,
    /// The assertion that the identity provider hands back.
    SamlResponse,
    /// The relay state that travels with the assertion.
    RelayState,
    /// The target of the first form: where the assertion is consumed.
    FormAction,
}

/// The CSS selector that locates `f`.
pub open spec fn field_selector(f: Field) -> Seq<char> {
    match f {
        Field::AuthenticityToken => "input[name=\"authenticity_token\"]"@,
        Field::SamlResponse => "input[name=\"SAMLResponse\"]"@,
        Field::RelayState => "input[name=\"RelayState\"]"@,
        Field::FormAction => "form"@,
    }
}

/// The attribute that holds `f` on the selected element.
pub open spec fn field_attr(f: Field) -> Seq<char> {
    match f {
        Field::FormAction => "action"@,
        _ => "value"@,
    }
}

/// The value of `f` in `html`, if present.
pub open spec fn field_in(html: Seq<char>, f: Field) -> Option<Seq<char>> {
    html_first_match_attr(html, field_selector(f), field_attr(f))
}

fn selector_of(f: Field) -> (r: &'static str)
    ensures
        r@ == field_selector(f),
{
    match f {
        Field::AuthenticityToken => "input[name=\"authenticity_token\"]",
        Field::SamlResponse => "input[name=\"SAMLResponse\"]",
        Field::RelayState => "input[name=\"RelayState\"]",
        Field::FormAction => "form",
    }
}

fn attr_of(f: Field) -> (r: &'static str)
    ensures
        r@ == field_attr(f),
{
    match f {
        Field::FormAction => "action",
        _ => "value",
    }
}

/// Reads `field` out of the HTML document `body`.
pub fn extract_field(body: &str, field: Field) -> (r: Result<String, ScrapeError>)
    ensures
        r is Ok <==> field_in(body@, field) is Some,
        r matches Ok(v) ==> field_in(body@, field) == Some(v@),
        r matches Err(e) ==> e == ScrapeError::NotFound,
{
    match first_match_attr(body, selector_of(field), attr_of(field)) {
        Some(v) => Ok(v),
        None => Err(ScrapeError::NotFound),
    }
}


// ---------------------------------------------------------------------------
// Lines of a body
// ---------------------------------------------------------------------------

/// `l` without one carriage return at its end.
pub open spec fn without_cr(l: Seq<char>) -> Seq<char> {
    if l.len() > 0 && l.last() == '\r' {
        l.drop_last()
    } else {
        l
    }
}

/// The lines of `s` that follow, where `cur` is the part of the current line
/// already read: each line ends at a newline (a carriage return before it is
/// dropped), and text after the last newline forms a line when it is not empty.
pub open spec fn lines_after(s: Seq<char>, cur: Seq<char>) -> Seq<Seq<char>>
    decreases s.len(),
{
    if s.len() == 0 {
        if cur.len() == 0 {
            seq![]
        } else {
            seq![cur]
        }
    } else if s[0] == '\n' {
        seq![without_cr(cur)] + lines_after(s.drop_first(), seq![])
    } else {
        lines_after(s.drop_first(), cur.push(s[0]))
    }
}

/// The lines of `s`, newline-delimited.
pub open spec fn lines(s: Seq<char>) -> Seq<Seq<char>> {
    lines_after(s, seq![])
}

/// The first of the longest lines in `ls`; empty when no line has a character.
pub open spec fn longest(ls: Seq<Seq<char>>) -> Seq<char>
    decreases ls.len(),
{
    if ls.len() == 0 {
        seq![]
    } else {
        let m = longest(ls.drop_last());
        if ls.last().len() > m.len() {
            ls.last()
        } else {
            m
        }
    }
}

proof fn lemma_longest_push(ls: Seq<Seq<char>>, l: Seq<char>)
    ensures
        longest(ls.push(l)) == (if l.len() > longest(ls).len() {
            l
        } else {
            longest(ls)
        }),
{
    assert(ls.push(l).drop_last() =~= ls);
}

/// The first longest line of `body`, or `None` when `body` has no lines.
pub fn longest_line(body: &str) -> (r: Option<String>)
    ensures
        r is None <==> lines(body@).len() == 0,
        r matches Some(l) ==> l@ == longest(lines(body@)),
{
    let cs = chars_of(body);
    let n = cs.len();
    let ghost s = cs@;
    let ghost mut done: Seq<Seq<char>> = seq![];
    let mut start: usize = 0;
    let mut best_from: usize = 0;
    let mut best_to: usize = 0;
    let mut any_line = false;
    let mut i: usize = 0;
    assert(s.skip(0) =~= s);
    assert(s.subrange(0, 0) =~= Seq::<char>::empty());
    assert(done + lines(s) =~= lines(s));
    while i < n
        invariant
            n == s.len(),
            s == cs@,
            s == body@,
            start <= i <= n,
            best_from <= best_to <= n,
            any_line == (done.len() > 0),
            s.subrange(best_from as int, best_to as int) == longest(done),
            lines(s) == done + lines_after(s.skip(i as int), s.subrange(start as int, i as int)),
        decreases n - i,
    {
        let ghost cur = s.subrange(start as int, i as int);
        assert(s.skip(i as int)[0] == s[i as int]);
        assert(s.skip(i as int).drop_first() =~= s.skip(i + 1));
        if cs[i] == '\n' {
            let mut end = i;
            if end > start && cs[end - 1] == '\r' {
                end = end - 1;
                assert(without_cr(cur) =~= s.subrange(start as int, end as int));
            } else {
                assert(without_cr(cur) =~= s.subrange(start as int, end as int));
            }
            proof {
                lemma_longest_push(done, without_cr(cur));
                let rest = lines_after(s.skip(i + 1), seq![]);
                assert(done + (seq![without_cr(cur)] + rest) =~= done.push(without_cr(cur)) + rest);
                done = done.push(without_cr(cur));
            }
            if end - start > best_to - best_from {
                best_from = start;
                best_to = end;
            }
            any_line = true;
            start = i + 1;
            assert(s.subrange(start as int, i + 1) =~= seq![]);
        } else {
            assert(cur.push(s[i as int]) =~= s.subrange(start as int, i + 1));
        }
        i = i + 1;
    }
    let ghost cur = s.subrange(start as int, n as int);
    assert(s.skip(n as int) =~= seq![]);
    if start < n {
        proof {
            lemma_longest_push(done, cur);
            assert(done + seq![cur] =~= done.push(cur));
        }
        if n - start > best_to - best_from {
            best_from = start;
            best_to = n;
        }
        Some(string_of(&cs, best_from, best_to))
    } else {
        assert(cur.len() == 0);
        assert(lines(s) =~= done);
        if !any_line {
            None
        } else {
            Some(string_of(&cs, best_from, best_to))
        }
    }
}


// ---------------------------------------------------------------------------
// The inline configuration object
// ---------------------------------------------------------------------------

/// The JSON text framed by a configuration line: the line without its first
/// eight characters and its last one; `None` when the line is too short.
pub open spec fn blob_text(line: Seq<char>) -> Option<Seq<char>> {
    if line.len() >= 9 {
        Some(line.subrange(8, line.len() - 1))
    } else {
        None
    }
}

/// The JSON text carried by the longest line of `body`.
pub open spec fn inline_text(body: Seq<char>) -> Option<Seq<char>> {
    if lines(body).len() == 0 {
        None
    } else {
        blob_text(longest(lines(body)))
    }
}

/// The JSON text in the longest line of `body`: `NotFound` when the body has
/// no lines, `MalformedBlob` when that line is too short to frame any text.
pub fn inline_blob_text(body: &str) -> (r: Result<String, ScrapeError>)
    ensures
        r matches Ok(t) ==> inline_text(body@) == Some(t@),
        r matches Err(e) ==> inline_text(body@) is None,
        r == Err::<String, ScrapeError>(ScrapeError::NotFound) <==> lines(body@).len() == 0,
{
    match longest_line(body) {
        None => Err(ScrapeError::NotFound),
        Some(line) => {
            let cs = chars_of(line.as_str());
            if cs.len() >= 9 {
                Ok(string_of(&cs, 8, cs.len() - 1))
            } else {
                Err(ScrapeError::MalformedBlob)
            }
        },
    }
}

/// Whether serde_json accepts `text` as a JSON document.
pub uninterp spec fn json_is_valid(text: Seq<char>) -> bool;

/// What serde_json gives for the member `key` of the document `text` when
/// that member is a JSON string; `None` for any other member or document.
pub uninterp spec fn json_str_member(text: Seq<char>, key: Seq<char>) -> Option<Seq<char>>;

#[verifier::external_type_specification]
#[verifier::external_body]
pub struct ExJsonValue(serde_json::Value);

/// A parsed JSON document together with the text it was parsed from.
struct JsonDoc {
    value: serde_json::Value,
    text: Ghost<Seq<char>>,
}

impl JsonDoc {
    /// The text this document was parsed from.
    closed spec fn source(&self) -> Seq<char> {
        self.text@
    }
}

/// Relies on serde_json::from_str into a `serde_json::Value`: it succeeds
/// exactly on JSON text.
#[verifier::external_body]
fn parse_json(text: &str) -> (r: Option<JsonDoc>)
    ensures
        r is Some <==> json_is_valid(text@),
        r matches Some(d) ==> d.source() == text@,
{
    match serde_json::from_str::<serde_json::Value>(text) {
        Ok(value) => Some(JsonDoc { value, text: Ghost(text@) }),
        Err(_) => None,
    }
}

/// Relies on serde_json's `Value::get` and `Value::as_str`: the member `key`
/// of the parsed object, when it is a string.
#[verifier::external_body]
fn str_member(doc: &JsonDoc, key: &str) -> (r: Option<String>)
    ensures
        r is Some <==> json_str_member(doc.source(), key@) is Some,
        r matches Some(v) ==> json_str_member(doc.source(), key@) == Some(v@),
{
    doc.value.get(key).and_then(serde_json::Value::as_str).map(str::to_string)
}

/// The string member `key` of the document `text`, or the empty string.
pub open spec fn member_or_empty(text: Seq<char>, key: Seq<char>) -> Seq<char> {
    match json_str_member(text, key) {
        Some(v) => v,
        None => seq![],
    }
}

/// The identifiers of one sign-in exchange that the provider embeds in a page.
#[derive(Clone, Debug)]
pub struct InlineConfig {
    /// The anti-forgery value (`canary`).
    pub canary: String,
    /// The request context (`sCtx`).
    pub ctx: String,
    /// The correlation id (`sessionId`).
    pub session_id: String,
    /// The flow token (`sFT`).
    pub flow_token: String,
}

/// The configuration read from the JSON text `t`: each identifier is the
/// string member of that name, or empty where the member is absent.
pub open spec fn config_of(t: Seq<char>, c: InlineConfig) -> bool {
    &&& c.canary@ == member_or_empty(t, "canary"@)
    &&& c.ctx@ == member_or_empty(t, "sCtx"@)
    &&& c.session_id@ == member_or_empty(t, "sessionId"@)
    &&& c.flow_token@ == member_or_empty(t, "sFT"@)
}

fn member_or_empty_of(doc: &JsonDoc, key: &str) -> (r: String)
    ensures
        r@ == member_or_empty(doc.source(), key@),
{
    match str_member(doc, key) {
        Some(v) => v,
        None => String::new(),
    }
}

/// Reads the inline configuration object out of `body`: `NotFound` when the
/// body has no lines, `MalformedBlob` when the longest line does not frame
/// JSON text.
pub fn extract_inline_config(body: &str) -> (r: Result<InlineConfig, ScrapeError>)
    ensures
        r == Err::<InlineConfig, ScrapeError>(ScrapeError::NotFound) <==> lines(body@).len() == 0,
        r == Err::<InlineConfig, ScrapeError>(ScrapeError::MalformedBlob) <==> lines(body@).len() > 0
            && !(inline_text(body@) matches Some(t) && json_is_valid(t)),
        r matches Ok(c) ==> inline_text(body@) matches Some(t) && json_is_valid(t) && config_of(t, c),
{
    let text = match inline_blob_text(body) {
        Ok(t) => t,
        Err(e) => return Err(e),
    };
    let doc = match parse_json(text.as_str()) {
        Some(d) => d,
        None => return Err(ScrapeError::MalformedBlob),
    };
    Ok(InlineConfig {
        canary: member_or_empty_of(&doc, "canary"),
        ctx: member_or_empty_of(&doc, "sCtx"),
        session_id: member_or_empty_of(&doc, "sessionId"),
        flow_token: member_or_empty_of(&doc, "sFT"),
    })
}

} // verus!
