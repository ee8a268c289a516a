//! What a command asks of the outside: requests to the platform, and lines for
//! the terminal.

use vstd::prelude::*;

use crate::json::{Json, JsonV};

verus! {

/// How a piece of text is set.
#[derive(Clone, Copy, Debug, PartialEq, Eq, Structural)]
pub enum Style {
    Plain,
    Bold,
    Dimmed,
    Green,
    Red,
    Yellow,
    BoldYellow,
    BoldCyan,
    BoldGreen,
}

/// Where a line goes.
#[derive(Clone, Copy, Debug, PartialEq, Eq, Structural)]
pub enum Channel {
    /// A line on standard output.
    Out,
    /// A line on standard error.
    Note,
    /// A report of success.
    Success,
    /// A warning.
    Warning,
    /// A report of failure.
    Failure,
    /// Standard output, with the cursor left behind the text.
    Prompt,
}

/// A piece of text in one style.
pub struct Span {
    pub text: String,
    pub style: Style,
}

/// A line for the terminal.
pub struct Output {
    pub channel: Channel,
    pub spans: Vec<Span>,
}

/// What a `Span` says.
pub ghost struct SpanV {
    pub text: Seq<char>,
    pub style: Style,
}

/// What an `Output` says.
pub ghost struct OutputV {
    pub channel: Channel,
    pub spans: Seq<SpanV>,
}

impl Span {
    pub open spec fn view(&self) -> SpanV {
        SpanV { text: self.text@, style: self.style }
    }
}

impl Output {
    pub open spec fn view(&self) -> OutputV {
        OutputV { channel: self.channel, spans: self.spans@.map_values(|s: Span| s@) }
    }
}

/// What a list of lines says.
pub open spec fn shown(out: Seq<Output>) -> Seq<OutputV> {
    out.map_values(|o: Output| o@)
}

/// A piece of text in one style.
pub open spec fn span(text: Seq<char>, style: Style) -> SpanV {
    SpanV { text, style }
}

/// A line of plain text.
pub open spec fn line(channel: Channel, text: Seq<char>) -> OutputV {
    OutputV { channel, spans: seq![span(text, Style::Plain)] }
}

/// A line of two pieces.
pub open spec fn line2(channel: Channel, a: SpanV, b: SpanV) -> OutputV {
    OutputV { channel, spans: seq![a, b] }
}

/// Adds a line of plain text.
pub fn emit(out: &mut Vec<Output>, channel: Channel, text: String)
    ensures
        shown(final(out)@) == shown(old(out)@).push(line(channel, text@)),
{
    let mut spans: Vec<Span> = Vec::new();
    spans.push(Span { text, style: Style::Plain });
    emit_spans(out, channel, spans);
    assert(shown(out@).last().spans == seq![span(text@, Style::Plain)]);
}

/// Adds a line of several pieces.
pub fn emit_spans(out: &mut Vec<Output>, channel: Channel, spans: Vec<Span>)
    ensures
        shown(final(out)@) == shown(old(out)@).push(
            OutputV { channel, spans: spans@.map_values(|s: Span| s@) },
        ),
{
    out.push(Output { channel, spans });
    assert(shown(out@) == shown(old(out)@).push(
        OutputV { channel, spans: spans@.map_values(|s: Span| s@) },
    ));
}

/// Adds lines.
pub fn append(out: &mut Vec<Output>, more: Vec<Output>)
    ensures
        shown(final(out)@) == shown(old(out)@) + shown(more@),
{
    let mut more: Vec<Output> = more;
    let ghost added = more@;
    out.append(&mut more);
    assert(shown(out@) == shown(old(out)@) + shown(added));
}

/// Adds a line of two pieces.
pub fn emit2(
    out: &mut Vec<Output>,
    channel: Channel,
    a: &str,
    a_style: Style,
    b: &str,
    b_style: Style,
)
    ensures
        shown(final(out)@) == shown(old(out)@).push(
            line2(channel, span(a@, a_style), span(b@, b_style)),
        ),
{
    let mut spans: Vec<Span> = Vec::new();
    spans.push(Span { text: a.to_owned(), style: a_style });
    spans.push(Span { text: b.to_owned(), style: b_style });
    emit_spans(out, channel, spans);
    assert(shown(out@).last().spans == seq![span(a@, a_style), span(b@, b_style)]);
}

/// A line of plain text on its own.
pub fn single(channel: Channel, text: String) -> (out: Vec<Output>)
    ensures
        shown(out@) == seq![line(channel, text@)],
{
    let mut out: Vec<Output> = Vec::new();
    emit(&mut out, channel, text);
    assert(shown(out@) == seq![line(channel, text@)]);
    out
}

/// No line at all.
pub fn silent() -> (out: Vec<Output>)
    ensures
        shown(out@) == Seq::<OutputV>::empty(),
{
    let out: Vec<Output> = Vec::new();
    assert(shown(out@) == Seq::<OutputV>::empty());
    out
}

/// What a list of lines says, or the message in its place.
pub open spec fn lines_or_error(r: Result<Vec<Output>, String>) -> Result<
    Seq<OutputV>,
    Seq<char>,
> {
    match r {
        Ok(out) => Ok(shown(out@)),
        Err(e) => Err(e@),
    }
}

/// The lines that go to standard output.
pub open spec fn stdout(lines: Seq<OutputV>) -> Seq<OutputV> {
    lines.filter(|o: OutputV| o.channel == Channel::Out)
}

/// Where all lines go to standard output, they are the lines that go there.
pub proof fn stdout_of_out_lines(lines: Seq<OutputV>)
    requires
        forall|i: int| 0 <= i < lines.len() ==> (#[trigger] lines[i]).channel == Channel::Out,
    ensures
        stdout(lines) == lines,
    decreases lines.len(),
{
    reveal(Seq::filter);
    if lines.len() > 0 {
        assert forall|i: int| 0 <= i < lines.drop_last().len() implies (
        #[trigger] lines.drop_last()[i]).channel == Channel::Out by {
            assert(lines[i].channel == Channel::Out);
        }
        stdout_of_out_lines(lines.drop_last());
        assert(lines.last() == lines[lines.len() - 1]);
        assert(lines.drop_last().push(lines.last()) == lines);
    }
}

/// The verb of a request.
#[derive(Clone, Copy, Debug, PartialEq, Eq, Structural)]
pub enum Method {
    Get,
    Post,
    Put,
    Delete,
}

/// A request to the platform.
pub struct Request {
    pub method: Method,
    pub path: String,
    pub body: Option<Json>,
}

/// What a `Request` says.
pub ghost struct RequestV {
    pub method: Method,
    pub path: Seq<char>,
    pub body: Option<JsonV>,
}

impl Request {
    pub open spec fn view(&self) -> RequestV {
        RequestV {
            method: self.method,
            path: self.path@,
            body: match self.body {
                Some(b) => Some(b@),
                None => None,
            },
        }
    }
}

/// A request to read `path`.
pub open spec fn getting(path: Seq<char>) -> RequestV {
    RequestV { method: Method::Get, path, body: None }
}

/// A request to post `body` to `path`.
pub open spec fn posting(path: Seq<char>, body: JsonV) -> RequestV {
    RequestV { method: Method::Post, path, body: Some(body) }
}

/// A request to read `path`.
pub fn get(path: String) -> (r: Request)
    ensures
        r@ == getting(path@),
{
    Request { method: Method::Get, path, body: None }
}

/// A request to post `body` to `path`.
pub fn post(path: String, body: Json) -> (r: Request)
    ensures
        r@ == posting(path@, body@),
{
    Request { method: Method::Post, path, body: Some(body) }
}

/// A text that may be absent, or a default.
pub open spec fn or_else(o: Option<String>, default: Seq<char>) -> Seq<char> {
    match o {
        Some(s) => s@,
        None => default,
    }
}

/// A text that may be absent, or a default.
pub fn text_or<'a>(o: &'a Option<String>, default: &'a str) -> (r: &'a str)
    ensures
        r@ == or_else(*o, default@),
{
    match o {
        Some(s) => s.as_str(),
        None => default,
    }
}

} // verus!
