//! Laws of texts.

use vstd::prelude::*;

use crate::text;

verus! {

/// Trimming a text at its end takes white space away, all of it and nothing else.
pub proof fn law_trim_end(s: Seq<char>)
    ensures
        exists|w: Seq<char>| text::blank(w) && s == #[trigger] (text::trim_end(s) + w),
        text::trim_end(s).len() > 0 ==> !text::white_space(text::trim_end(s).last()),
    decreases s.len(),
{
    if s.len() > 0 && text::white_space(s.last()) {
        let front = s.drop_last();
        law_trim_end(front);
        let w = choose|w: Seq<char>| text::blank(w) && front == #[trigger] (text::trim_end(front) + w);
        let all = w.push(s.last());
        assert(text::blank(all)) by {
            assert forall|i: int| 0 <= i < all.len() implies text::white_space(#[trigger] all[i]) by {
                if i < w.len() {
                    assert(text::white_space(w[i]));
                }
            }
        }
        assert(front.push(s.last()) == s);
        assert((text::trim_end(front) + w).push(s.last()) == text::trim_end(front) + all);
        assert(s == text::trim_end(s) + all);
    } else {
        assert(text::blank(Seq::<char>::empty()));
        assert(s == text::trim_end(s) + Seq::<char>::empty());
    }
}

/// Trimming a text at its start takes white space away, all of it and nothing else.
pub proof fn law_trim_start(s: Seq<char>)
    ensures
        exists|w: Seq<char>| text::blank(w) && s == #[trigger] (w + text::trim_start(s)),
        text::trim_start(s).len() > 0 ==> !text::white_space(text::trim_start(s)[0]),
    decreases s.len(),
{
    if s.len() > 0 && text::white_space(s[0]) {
        let rest = s.skip(1);
        law_trim_start(rest);
        let w = choose|w: Seq<char>| text::blank(w) && rest == #[trigger] (w + text::trim_start(rest));
        let all = seq![s[0]] + w;
        assert(text::blank(all)) by {
            assert forall|i: int| 0 <= i < all.len() implies text::white_space(#[trigger] all[i]) by {
                if i > 0 {
                    assert(text::white_space(w[i - 1]));
                }
            }
        }
        assert(seq![s[0]] + rest == s);
        assert(seq![s[0]] + (w + text::trim_start(rest)) == all + text::trim_start(rest));
        assert(s == all + text::trim_start(s));
    } else {
        assert(text::blank(Seq::<char>::empty()));
        assert(s == Seq::<char>::empty() + text::trim_start(s));
    }
}

/// Whatever white space stands round a text that begins and ends in something else,
/// trimming gives that text back.
pub proof fn law_trim(a: Seq<char>, s: Seq<char>, b: Seq<char>)
    requires
        text::blank(a),
        text::blank(b),
        s.len() > 0 ==> !text::white_space(s[0]) && !text::white_space(s.last()),
    ensures
        text::trim(a + s + b) == s,
    decreases a.len(),
{
    let all = a + s + b;
    if a.len() > 0 {
        assert(text::white_space(a[0]));
        assert(all[0] == a[0]);
        let rest = a.skip(1);
        assert(text::blank(rest)) by {
            assert forall|i: int| 0 <= i < rest.len() implies text::white_space(#[trigger] rest[i]) by {
                assert(text::white_space(a[i + 1]));
            }
        }
        assert(all.skip(1) == rest + s + b);
        law_trim(rest, s, b);
    } else {
        assert(all == s + b);
        if s.len() > 0 {
            assert(all[0] == s[0]);
            text::trim_end_append(s, b);
        } else {
            assert(all == b);
            text::trim_blank(b);
        }
    }
}

/// A line ends at a newline, which is no part of it, nor is a carriage return before
/// it; what follows is the next line's. What is left without a newline is a line too.
pub proof fn law_lines(l: Seq<char>, rest: Seq<char>)
    requires
        !l.contains('\n'),
    ensures
        text::lines(Seq::<char>::empty()).len() == 0,
        l.len() > 0 ==> text::lines(l) == seq![l],
        (l.len() == 0 || l.last() != '\r') ==> text::lines(l.push('\n') + rest) == seq![l]
            + text::lines(rest),
        text::lines(l.push('\r').push('\n') + rest) == seq![l] + text::lines(rest),
{
    assert forall|j: int| 0 <= j < l.len() implies l[j] != '\n' by {
        assert(l.contains(l[j]));
    }
    let n = l.len() as int;
    text::find_is(l, '\n', n);
    let a = l.push('\n') + rest;
    text::find_is(a, '\n', n);
    assert(a.take(n) == l);
    assert(a.skip(n + 1) == rest);
    let b = l.push('\r').push('\n') + rest;
    text::find_is(b, '\n', n + 1);
    assert(b.take(n + 1) == l.push('\r'));
    assert(b.skip(n + 2) == rest);
    assert(l.push('\r').drop_last() == l);
}

proof fn word_runs(word: Seq<char>, rest: Seq<char>)
    requires
        forall|i: int| 0 <= i < word.len() ==> !text::white_space(#[trigger] word[i]),
        rest.len() > 0 ==> text::white_space(rest[0]),
    ensures
        text::word_len(word + rest) == word.len(),
    decreases word.len(),
{
    let all = word + rest;
    if word.len() > 0 {
        assert(all[0] == word[0]);
        assert(all.skip(1) == word.skip(1) + rest);
        assert forall|i: int| 0 <= i < word.skip(1).len() implies !text::white_space(
            #[trigger] word.skip(1)[i],
        ) by {
            assert(!text::white_space(word[i + 1]));
        }
        word_runs(word.skip(1), rest);
    } else {
        assert(all == rest);
    }
}

/// Trimming at the start takes white space up to the first other character.
pub proof fn gap_skipped(gap: Seq<char>, s: Seq<char>)
    requires
        text::blank(gap),
        s.len() > 0 ==> !text::white_space(s[0]),
    ensures
        text::trim_start(gap + s) == s,
    decreases gap.len(),
{
    if gap.len() > 0 {
        assert(text::white_space(gap[0]));
        assert((gap + s)[0] == gap[0]);
        assert((gap + s).skip(1) == gap.skip(1) + s);
        assert forall|i: int| 0 <= i < gap.skip(1).len() implies text::white_space(
            #[trigger] gap.skip(1)[i],
        ) by {
            assert(text::white_space(gap[i + 1]));
        }
        gap_skipped(gap.skip(1), s);
    } else {
        assert(gap + s == s);
    }
}

/// The words of a text are its stretches without white space, in order.
pub proof fn law_words(gap: Seq<char>, word: Seq<char>, rest: Seq<char>)
    requires
        text::blank(gap),
        word.len() > 0,
        forall|i: int| 0 <= i < word.len() ==> !text::white_space(#[trigger] word[i]),
        rest.len() > 0 ==> text::white_space(rest[0]),
    ensures
        text::words(gap).len() == 0,
        text::words(gap + word + rest) == seq![word] + text::words(rest),
{
    gap_skipped(gap, Seq::empty());
    assert(gap + Seq::<char>::empty() == gap);
    assert(!text::white_space(word[0]));
    assert(gap + word + rest == gap + (word + rest));
    gap_skipped(gap, word + rest);
    word_runs(word, rest);
    assert((word + rest).take(word.len() as int) == word);
    assert((word + rest).skip(word.len() as int) == rest);
}

/// Joined texts stand one after another, with the separator between neighbours.
pub proof fn law_joined(parts: Seq<Seq<char>>, x: Seq<char>, sep: Seq<char>)
    ensures
        text::joined(Seq::<Seq<char>>::empty(), sep).len() == 0,
        text::joined(seq![x], sep) == x,
        parts.len() > 0 ==> text::joined(parts.push(x), sep) == text::joined(parts, sep) + sep + x,
{
    assert(parts.push(x).drop_last() == parts);
}

/// A padded text begins with the text, goes on with spaces, and is as long as asked
/// for, or as the text where that is longer.
pub proof fn law_pad(s: Seq<char>, width: nat, i: int)
    requires
        0 <= i < text::pad(s, width).len(),
    ensures
        text::pad(s, width).len() == if s.len() < width {
            width
        } else {
            s.len()
        },
        i < s.len() ==> text::pad(s, width)[i] == s[i],
        i >= s.len() ==> text::pad(s, width)[i] == ' ',
{
}

/// A clipped text is the beginning of the text, at most as long as asked for, and all
/// of it where it fits.
pub proof fn law_clip(s: Seq<char>, n: nat)
    ensures
        text::clip(s, n).is_prefix_of(s),
        text::clip(s, n).len() == if s.len() < n {
            s.len()
        } else {
            n
        },
{
}

/// A decimal number is read digit by digit: ten times what stands before the last
/// digit, and that digit.
pub proof fn law_decimal(n: nat, d: nat)
    requires
        d < 10,
    ensures
        text::decimal(d).len() == 1,
        text::decimal(d)[0] as int == '0' as int + d,
        n > 0 ==> text::decimal(10 * n + d) == text::decimal(n) + text::decimal(d),
{
    let m: nat = 10 * n + d;
    assert(m / 10 == n && m % 10 == d);
}

/// Texts are ordered by the first character in which they differ, and a text comes
/// before those that it begins.
pub proof fn law_order(p: Seq<char>, x: char, a: Seq<char>, y: char, b: Seq<char>)
    ensures
        x != y ==> (text::less(p.push(x) + a, p.push(y) + b) <==> (x as int) < (y as int)),
        text::less(p, p.push(x) + a),
        !text::less(p.push(x) + a, p),
        !text::less(p, p),
    decreases p.len(),
{
    let u = p.push(x) + a;
    let v = p.push(y) + b;
    if p.len() > 0 {
        let q = p.skip(1);
        law_order(q, x, a, y, b);
        assert(u[0] == p[0] && v[0] == p[0]);
        assert(u.skip(1) == q.push(x) + a);
        assert(v.skip(1) == q.push(y) + b);
    } else {
        assert(u[0] == x && v[0] == y);
    }
}

/// Lower case in ASCII: each capital becomes its small letter, and nothing else
/// changes.
pub proof fn law_lowered(s: Seq<char>, i: int)
    requires
        0 <= i < s.len(),
    ensures
        text::lowered(s).len() == s.len(),
        'A' <= s[i] <= 'Z' ==> text::lowered(s)[i] as int == s[i] as int + 32,
        !('A' <= s[i] <= 'Z') ==> text::lowered(s)[i] == s[i],
{
}

} // verus!
