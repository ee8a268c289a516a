//! Laws of requests and lines.

use vstd::prelude::*;

use crate::effect;
use crate::effect::{Channel, Method, Output, OutputV, Request, Style};
use crate::json::JsonV;

verus! {

/// What a line says leaves nothing of it out: its channel, and the text and the style
/// of each piece.
pub proof fn law_line_says_all(o: Output, i: int)
    requires
        0 <= i < o.spans@.len(),
    ensures
        o@.channel == o.channel,
        o@.spans.len() == o.spans@.len(),
        o@.spans[i].text == o.spans@[i].text@,
        o@.spans[i].style == o.spans@[i].style,
{
}

/// A list of lines says what each of its lines says, in order.
pub proof fn law_lines_say_all(out: Seq<Output>, i: int)
    requires
        0 <= i < out.len(),
    ensures
        effect::shown(out).len() == out.len(),
        effect::shown(out)[i].channel == out[i].channel,
        effect::shown(out)[i].spans.len() == out[i].spans@.len(),
        effect::shown(out)[i] == out[i]@,
{
}

/// A plain line is its text, in one piece without a style, where it is to go.
pub proof fn law_plain_line(channel: Channel, t: Seq<char>)
    ensures
        effect::line(channel, t).channel == channel,
        effect::line(channel, t).spans.len() == 1,
        effect::line(channel, t).spans[0].text == t,
        effect::line(channel, t).spans[0].style == Style::Plain,
{
}

/// A line of two pieces has both, in order, in their styles.
pub proof fn law_two_pieces(channel: Channel, a: Seq<char>, x: Style, b: Seq<char>, y: Style)
    ensures
        effect::line2(channel, effect::span(a, x), effect::span(b, y)).channel == channel,
        effect::line2(channel, effect::span(a, x), effect::span(b, y)).spans.len() == 2,
        effect::line2(channel, effect::span(a, x), effect::span(b, y)).spans[0].text == a,
        effect::line2(channel, effect::span(a, x), effect::span(b, y)).spans[0].style == x,
        effect::line2(channel, effect::span(a, x), effect::span(b, y)).spans[1].text == b,
        effect::line2(channel, effect::span(a, x), effect::span(b, y)).spans[1].style == y,
{
}

/// What a request says leaves nothing of it out: its verb, its path and its body.
pub proof fn law_request_says_all(r: Request)
    ensures
        r@.method == r.method,
        r@.path == r.path@,
        r.body is None ==> r@.body is None,
        r.body matches Some(b) ==> r@.body == Some(b@),
{
}

/// To read is to get a path, with no body; to post is to send one there.
pub proof fn law_reading_and_posting(path: Seq<char>, body: JsonV)
    ensures
        effect::getting(path).method == Method::Get,
        effect::getting(path).path == path,
        effect::getting(path).body is None,
        effect::posting(path, body).method == Method::Post,
        effect::posting(path, body).path == path,
        effect::posting(path, body).body == Some(body),
{
}

/// A default stands in for a text that is absent, and for no other.
pub proof fn law_default_stands_in(o: Option<String>, default: Seq<char>)
    ensures
        o is None ==> effect::or_else(o, default) == default,
        o matches Some(s) ==> effect::or_else(o, default) == s@,
{
}

/// A listing that fails says why, and nothing else.
pub proof fn law_listing_or_error(r: Result<Vec<Output>, String>)
    ensures
        r matches Ok(out) ==> effect::lines_or_error(r) == Ok::<_, Seq<char>>(effect::shown(out@)),
        r matches Err(e) ==> effect::lines_or_error(r) == Err::<Seq<OutputV>, _>(e@),
{
}

/// Of a listing, what goes to standard output is the lines of that channel.
pub proof fn law_standard_output(lines: Seq<OutputV>, o: OutputV)
    ensures
        effect::stdout(lines).contains(o) <==> lines.contains(o) && o.channel == Channel::Out,
{
    let keep = |o: OutputV| o.channel == Channel::Out;
    if lines.contains(o) && o.channel == Channel::Out {
        let i = choose|i: int| 0 <= i < lines.len() && lines[i] == o;
        assert(keep(lines[i]));
        lines.lemma_filter_contains(keep, i);
    }
    if effect::stdout(lines).contains(o) {
        let j = choose|j: int| 0 <= j < effect::stdout(lines).len() && effect::stdout(lines)[j] == o;
        lines.lemma_filter_pred(keep, j);
        lines.lemma_filter_contains_rev(keep, o);
    }
}

} // verus!
