//! Text primitives: equality, order, trimming, lines, words, padding, decimal
//! numbers.

use vstd::prelude::*;

verus! {

/// The Unicode `White_Space` property.
pub open spec fn white_space(c: char) -> bool {
    let n = c as int;
    ||| 0x09 <= n <= 0x0d
    ||| n == 0x20
    ||| n == 0x85
    ||| n == 0xa0
    ||| n == 0x1680
    ||| 0x2000 <= n <= 0x200a
    ||| n == 0x2028
    ||| n == 0x2029
    ||| n == 0x202f
    ||| n == 0x205f
    ||| n == 0x3000
}

/// Whether `c` has the Unicode `White_Space` property.
pub fn is_whitespace(c: char) -> (r: bool)
    ensures
        r == white_space(c),
{
    let n: u32 = c as u32;
    (0x09 <= n && n <= 0x0d) || n == 0x20 || n == 0x85 || n == 0xa0 || n == 0x1680 || (0x2000 <= n
        && n <= 0x200a) || n == 0x2028 || n == 0x2029 || n == 0x202f || n == 0x205f || n == 0x3000
}

/// Whether two texts hold the same characters.
pub fn same(a: &str, b: &str) -> (r: bool)
    ensures
        r == (a@ == b@),
{
    a.to_owned() == b.to_owned()
}

/// The characters of `s`.
pub fn chars(s: &str) -> (v: Vec<char>)
    ensures
        v@ == s@,
{
    let mut v: Vec<char> = Vec::new();
    for c in it: s.chars()
        invariant
            v@ == s@.take(it.index() as int),
            it.seq() == s@,
    {
        v.push(c);
    }
    v
}

/// `a` followed by `b`.
pub fn cat2(a: &str, b: &str) -> (r: String)
    ensures
        r@ == a@ + b@,
{
    let mut r: String = a.to_owned();
    r.append(b);
    r
}

/// Three texts in a row.
pub fn cat3(a: &str, b: &str, c: &str) -> (r: String)
    ensures
        r@ == a@ + b@ + c@,
{
    let mut r: String = cat2(a, b);
    r.append(c);
    r
}

/// Four texts in a row.
pub fn cat4(a: &str, b: &str, c: &str, d: &str) -> (r: String)
    ensures
        r@ == a@ + b@ + c@ + d@,
{
    let mut r: String = cat3(a, b, c);
    r.append(d);
    r
}

/// Five texts in a row.
pub fn cat5(a: &str, b: &str, c: &str, d: &str, e: &str) -> (r: String)
    ensures
        r@ == a@ + b@ + c@ + d@ + e@,
{
    let mut r: String = cat4(a, b, c, d);
    r.append(e);
    r
}

/// The text without the white space that it ends in.
pub open spec fn trim_end(s: Seq<char>) -> Seq<char>
    decreases s.len(),
{
    if s.len() > 0 && white_space(s.last()) {
        trim_end(s.drop_last())
    } else {
        s
    }
}

/// The text without the white space that it begins with.
pub open spec fn trim_start(s: Seq<char>) -> Seq<char>
    decreases s.len(),
{
    if s.len() > 0 && white_space(s[0]) {
        trim_start(s.skip(1))
    } else {
        s
    }
}

/// The text without the white space at either end.
pub open spec fn trim(s: Seq<char>) -> Seq<char> {
    trim_end(trim_start(s))
}

/// The text without the white space that it ends in.
pub fn trimmed_end(s: &str) -> (r: &str)
    ensures
        r@ == trim_end(s@),
{
    let cs: Vec<char> = chars(s);
    let mut n: usize = cs.len();
    assert(s@.take(n as int) == s@);
    while n > 0 && is_whitespace(cs[n - 1])
        invariant
            cs@ == s@,
            n <= s@.len(),
            trim_end(s@) == trim_end(s@.take(n as int)),
        decreases n,
    {
        assert(s@.take(n as int).drop_last() == s@.take(n - 1));
        n = n - 1;
    }
    s.substring_char(0, n)
}

/// The text without the white space that it begins with.
pub fn trimmed_start(s: &str) -> (r: &str)
    ensures
        r@ == trim_start(s@),
{
    let cs: Vec<char> = chars(s);
    let mut i: usize = 0;
    assert(s@.skip(0) == s@);
    while i < cs.len() && is_whitespace(cs[i])
        invariant
            cs@ == s@,
            i <= s@.len(),
            trim_start(s@) == trim_start(s@.skip(i as int)),
        decreases s@.len() - i,
    {
        assert(s@.skip(i as int).skip(1) == s@.skip(i + 1));
        i = i + 1;
    }
    assert(s@.subrange(i as int, s@.len() as int) == s@.skip(i as int));
    s.substring_char(i, cs.len())
}

/// The text without the white space at either end.
pub fn trimmed(s: &str) -> (r: &str)
    ensures
        r@ == trim(s@),
{
    trimmed_end(trimmed_start(s))
}

/// The place of the first `c`, or the length where there is none.
pub open spec fn find(s: Seq<char>, c: char) -> int
    decreases s.len(),
{
    if s.len() == 0 || s[0] == c {
        0
    } else {
        1 + find(s.skip(1), c)
    }
}

/// A place that holds `c`, or is the end, with no `c` before it, is the first.
pub proof fn find_is(s: Seq<char>, c: char, i: int)
    requires
        0 <= i <= s.len(),
        forall|j: int| 0 <= j < i ==> s[j] != c,
        i < s.len() ==> s[i] == c,
    ensures
        find(s, c) == i,
    decreases s.len(),
{
    if i > 0 {
        find_is(s.skip(1), c, i - 1);
    }
}

/// `find` gives a place within the text, or its length, with no `c` before it.
pub proof fn find_bounds(s: Seq<char>, c: char)
    ensures
        0 <= find(s, c) <= s.len(),
        forall|j: int| 0 <= j < find(s, c) ==> s[j] != c,
        find(s, c) < s.len() ==> s[find(s, c)] == c,
    decreases s.len(),
{
    if s.len() > 0 && s[0] != c {
        find_bounds(s.skip(1), c);
        assert forall|j: int| 0 <= j < find(s, c) implies s[j] != c by {
            if j > 0 {
                assert(s.skip(1)[j - 1] == s[j]);
            }
        }
    }
}

/// The place of the first `c` at or after `from`, or the length.
pub fn find_from(cs: &Vec<char>, c: char, from: usize) -> (i: usize)
    requires
        from <= cs@.len(),
    ensures
        from <= i <= cs@.len(),
        i - from == find(cs@.skip(from as int), c),
{
    let mut i: usize = from;
    while i < cs.len() && cs[i] != c
        invariant
            from <= i <= cs@.len(),
            forall|j: int| from <= j < i ==> cs@[j] != c,
        decreases cs@.len() - i,
    {
        i = i + 1;
    }
    proof {
        find_is(cs@.skip(from as int), c, i - from);
    }
    i
}

/// A line without the carriage return that it ends in.
pub open spec fn strip_cr(line: Seq<char>) -> Seq<char> {
    if line.len() > 0 && line.last() == '\r' {
        line.drop_last()
    } else {
        line
    }
}

/// The lines of a text. A line ends at `\n` or `\r\n`, which is no part of it; the
/// last line need not end in either.
pub open spec fn lines(s: Seq<char>) -> Seq<Seq<char>>
    decreases s.len(),
    via lines_decreases
{
    if s.len() == 0 {
        Seq::empty()
    } else {
        let i = find(s, '\n');
        if i < s.len() {
            seq![strip_cr(s.take(i))] + lines(s.skip(i + 1))
        } else {
            seq![s]
        }
    }
}

#[via_fn]
proof fn lines_decreases(s: Seq<char>) {
    find_bounds(s, '\n');
}

/// What a list of texts says.
pub open spec fn texts(v: Seq<String>) -> Seq<Seq<char>> {
    v.map_values(|s: String| s@)
}

/// The lines of a text.
pub fn lines_of(s: &str) -> (out: Vec<String>)
    ensures
        texts(out@) == lines(s@),
{
    let cs: Vec<char> = chars(s);
    let n: usize = cs.len();
    let mut out: Vec<String> = Vec::new();
    let mut from: usize = 0;
    assert(s@.skip(0) == s@);
    assert(texts(out@) == Seq::<Seq<char>>::empty());
    while from < n
        invariant
            cs@ == s@,
            n == s@.len(),
            from <= n,
            lines(s@) == texts(out@) + lines(s@.skip(from as int)),
        decreases n - from,
    {
        let i: usize = find_from(&cs, '\n', from);
        let ghost rest = s@.skip(from as int);
        let ghost before = out@;
        proof {
            find_bounds(rest, '\n');
        }
        if i < n {
            let to: usize = if i > from && cs[i - 1] == '\r' {
                i - 1
            } else {
                i
            };
            let line: String = s.substring_char(from, to).to_owned();
            assert(line@ == strip_cr(rest.take(i - from)));
            out.push(line);
            assert(rest.skip(i - from + 1) == s@.skip(i + 1));
            assert(texts(out@) == texts(before) + seq![strip_cr(rest.take(i - from))]);
            assert(texts(before) + lines(rest) == texts(out@) + lines(s@.skip(i + 1)));
            from = i + 1;
        } else {
            let line: String = s.substring_char(from, n).to_owned();
            assert(line@ == rest);
            out.push(line);
            assert(texts(out@) == texts(before) + seq![rest]);
            assert(s@.skip(n as int) == Seq::<char>::empty());
            assert(texts(before) + lines(rest) == texts(out@) + lines(s@.skip(n as int)));
            from = n;
        }
    }
    assert(s@.skip(n as int) == Seq::<char>::empty());
    out
}

/// Texts one after another, with a separator between two neighbours.
pub open spec fn joined(parts: Seq<Seq<char>>, sep: Seq<char>) -> Seq<char>
    decreases parts.len(),
{
    if parts.len() == 0 {
        Seq::empty()
    } else if parts.len() == 1 {
        parts[0]
    } else {
        joined(parts.drop_last(), sep) + sep + parts.last()
    }
}

/// Texts one after another, with a separator between two neighbours.
pub fn join(parts: &Vec<String>, sep: &str) -> (r: String)
    ensures
        r@ == joined(texts(parts@), sep@),
{
    let mut r: String = String::new();
    let n: usize = parts.len();
    for i in 0..n
        invariant
            n == parts@.len(),
            r@ == joined(texts(parts@).take(i as int), sep@),
    {
        assert(texts(parts@).take(i + 1).drop_last() == texts(parts@).take(i as int));
        if i > 0 {
            r.append(sep);
        }
        r.append(parts[i].as_str());
        assert(texts(parts@).take(i + 1).last() == parts@[i as int]@);
    }
    assert(texts(parts@).take(n as int) == texts(parts@));
    r
}

/// The number of characters before the first white space.
pub open spec fn word_len(s: Seq<char>) -> int
    decreases s.len(),
{
    if s.len() == 0 || white_space(s[0]) {
        0
    } else {
        1 + word_len(s.skip(1))
    }
}

/// The first word ends within the text.
pub proof fn word_len_bounds(s: Seq<char>)
    ensures
        0 <= word_len(s) <= s.len(),
    decreases s.len(),
{
    if s.len() > 0 && !white_space(s[0]) {
        word_len_bounds(s.skip(1));
    }
}

/// Trimming never makes a text longer.
pub proof fn trim_start_len(s: Seq<char>)
    ensures
        trim_start(s).len() <= s.len(),
        trim_start(s).len() > 0 ==> !white_space(trim_start(s)[0]),
    decreases s.len(),
{
    if s.len() > 0 && white_space(s[0]) {
        trim_start_len(s.skip(1));
    }
}

/// The words of a text: what stands between stretches of white space.
pub open spec fn words(s: Seq<char>) -> Seq<Seq<char>>
    decreases s.len(),
    via words_decreases
{
    let t = trim_start(s);
    if t.len() == 0 {
        Seq::empty()
    } else {
        seq![t.take(word_len(t))] + words(t.skip(word_len(t)))
    }
}

#[via_fn]
proof fn words_decreases(s: Seq<char>) {
    let t = trim_start(s);
    trim_start_len(s);
    if t.len() > 0 {
        word_len_bounds(t.skip(1));
    }
}

/// The words of a text.
pub fn words_of(s: &str) -> (out: Vec<String>)
    ensures
        texts(out@) == words(s@),
{
    let cs: Vec<char> = chars(s);
    let n: usize = cs.len();
    let mut out: Vec<String> = Vec::new();
    let mut from: usize = 0;
    assert(s@.skip(0) == s@);
    assert(texts(out@) == Seq::<Seq<char>>::empty());
    while from < n
        invariant
            cs@ == s@,
            n == s@.len(),
            from <= n,
            words(s@) == texts(out@) + words(s@.skip(from as int)),
        decreases n - from,
    {
        if is_whitespace(cs[from]) {
            assert(s@.skip(from as int).skip(1) == s@.skip(from + 1));
            from = from + 1;
        } else {
            let ghost rest = s@.skip(from as int);
            let ghost before = out@;
            let mut i: usize = from;
            assert(rest.skip(0) == rest);
            while i < n && !is_whitespace(cs[i])
                invariant
                    cs@ == s@,
                    n == s@.len(),
                    from <= i <= n,
                    rest == s@.skip(from as int),
                    word_len(rest) == i - from + word_len(rest.skip(i - from)),
                decreases n - i,
            {
                assert(rest.skip(i - from).skip(1) == rest.skip(i - from + 1));
                i = i + 1;
            }
            assert(word_len(rest) == i - from);
            assert(i > from);
            let word: String = s.substring_char(from, i).to_owned();
            assert(word@ == rest.take(i - from));
            assert(trim_start(rest) == rest);
            assert(rest.skip(i - from) == s@.skip(i as int));
            out.push(word);
            assert(texts(out@) == texts(before) + seq![rest.take(i - from)]);
            from = i;
        }
    }
    assert(s@.skip(n as int) == Seq::<char>::empty());
    assert(words(Seq::<char>::empty()) == Seq::<Seq<char>>::empty());
    out
}

/// The order of texts: by the first character that differs, and a text before
/// those that it begins.
pub open spec fn less(a: Seq<char>, b: Seq<char>) -> bool
    decreases a.len(),
{
    if b.len() == 0 {
        false
    } else if a.len() == 0 {
        true
    } else if a[0] != b[0] {
        (a[0] as int) < (b[0] as int)
    } else {
        less(a.skip(1), b.skip(1))
    }
}

/// Exactly one of: before, equal, after.
pub proof fn less_total(a: Seq<char>, b: Seq<char>)
    ensures
        less(a, b) || less(b, a) || a == b,
        !(less(a, b) && less(b, a)),
        a == b ==> !less(a, b),
    decreases a.len(),
{
    if a.len() > 0 && b.len() > 0 && a[0] == b[0] {
        less_total(a.skip(1), b.skip(1));
        if a.skip(1) == b.skip(1) {
            assert(a == seq![a[0]] + a.skip(1));
            assert(b == seq![b[0]] + b.skip(1));
        }
    } else if a.len() == 0 && b.len() == 0 {
        assert(a == b);
    } else if a.len() > 0 && b.len() > 0 {
        assert(a[0] as int != b[0] as int);
    }
}

/// The order is transitive.
pub proof fn less_transitive(a: Seq<char>, b: Seq<char>, c: Seq<char>)
    requires
        less(a, b),
        less(b, c),
    ensures
        less(a, c),
    decreases a.len(),
{
    if a.len() > 0 && b.len() > 0 && c.len() > 0 && a[0] == b[0] && b[0] == c[0] {
        less_transitive(a.skip(1), b.skip(1), c.skip(1));
    }
}

fn code(c: char) -> (n: u32)
    ensures
        n == c as int,
{
    c as u32
}

/// Whether `a` comes before `b`.
pub fn precedes(a: &str, b: &str) -> (r: bool)
    ensures
        r == less(a@, b@),
{
    let x: Vec<char> = chars(a);
    let y: Vec<char> = chars(b);
    let mut i: usize = 0;
    assert(x@.skip(0) == x@ && y@.skip(0) == y@);
    while i < x.len() && i < y.len()
        invariant
            x@ == a@,
            y@ == b@,
            i <= x@.len(),
            i <= y@.len(),
            less(a@, b@) == less(x@.skip(i as int), y@.skip(i as int)),
        decreases x@.len() - i,
    {
        if x[i] != y[i] {
            return code(x[i]) < code(y[i]);
        }
        assert(x@.skip(i as int).skip(1) == x@.skip(i + 1));
        assert(y@.skip(i as int).skip(1) == y@.skip(i + 1));
        i = i + 1;
    }
    i < y.len()
}

/// `n` spaces.
pub open spec fn spaces(n: nat) -> Seq<char> {
    Seq::new(n, |i: int| ' ')
}

/// The text, followed by as many spaces as it takes to be `width` long.
pub open spec fn pad(s: Seq<char>, width: nat) -> Seq<char> {
    if s.len() < width {
        s + spaces((width - s.len()) as nat)
    } else {
        s
    }
}

/// The text, followed by as many spaces as it takes to be `width` long.
pub fn padded(s: &str, width: usize) -> (r: String)
    ensures
        r@ == pad(s@, width as nat),
{
    let mut r: String = s.to_owned();
    let n: usize = s.unicode_len();
    let mut i: usize = n;
    assert(s@ + spaces(0) == s@);
    while i < width
        invariant
            n == s@.len(),
            n <= i,
            n < width ==> i <= width,
            r@ == s@ + spaces((i - n) as nat),
            n >= width ==> i == n,
        decreases width - i,
    {
        proof {
            reveal_strlit(" ");
        }
        r.append(" ");
        i = i + 1;
        assert(spaces((i - 1 - n) as nat) + " "@ == spaces((i - n) as nat));
        assert(s@ + (spaces((i - 1 - n) as nat) + " "@) == s@ + spaces((i - 1 - n) as nat) + " "@);
    }
    r
}

/// At most the first `n` characters.
pub open spec fn clip(s: Seq<char>, n: nat) -> Seq<char> {
    if s.len() > n {
        s.take(n as int)
    } else {
        s
    }
}

/// At most the first `n` characters.
pub fn clipped(s: &str, n: usize) -> (r: &str)
    ensures
        r@ == clip(s@, n as nat),
{
    if s.unicode_len() > n {
        s.substring_char(0, n)
    } else {
        s
    }
}

/// A decimal digit.
pub open spec fn digit(d: nat) -> char {
    (('0' as u32) + d) as char
}

/// A number in decimal.
pub open spec fn decimal(n: nat) -> Seq<char>
    decreases n,
{
    if n < 10 {
        seq![digit(n)]
    } else {
        decimal(n / 10).push(digit(n % 10))
    }
}

fn digit_text(d: u64) -> (r: &'static str)
    requires
        d < 10,
    ensures
        r@ == seq![digit(d as nat)],
{
    proof {
        reveal_strlit("0");
        reveal_strlit("1");
        reveal_strlit("2");
        reveal_strlit("3");
        reveal_strlit("4");
        reveal_strlit("5");
        reveal_strlit("6");
        reveal_strlit("7");
        reveal_strlit("8");
        reveal_strlit("9");
    }
    let r: &'static str = if d == 0 {
        "0"
    } else if d == 1 {
        "1"
    } else if d == 2 {
        "2"
    } else if d == 3 {
        "3"
    } else if d == 4 {
        "4"
    } else if d == 5 {
        "5"
    } else if d == 6 {
        "6"
    } else if d == 7 {
        "7"
    } else if d == 8 {
        "8"
    } else {
        "9"
    };
    assert(r@ == seq![digit(d as nat)]);
    r
}

/// A number in decimal.
pub fn decimal_text(n: u64) -> (r: String)
    ensures
        r@ == decimal(n as nat),
    decreases n,
{
    if n < 10 {
        digit_text(n).to_owned()
    } else {
        let mut r: String = decimal_text(n / 10);
        r.append(digit_text(n % 10));
        r
    }
}

/// What `str::to_lowercase` gives for a text.
pub uninterp spec fn lowercase(s: Seq<char>) -> Seq<char>;

/// The lower-case letter for an ASCII capital; any other character as it is.
pub open spec fn ascii_lower(c: char) -> char {
    if 'A' <= c <= 'Z' {
        (c as u32 + 32) as char
    } else {
        c
    }
}

/// A text in ASCII alone.
pub open spec fn plain(s: Seq<char>) -> bool {
    forall|i: int| 0 <= i < s.len() ==> (#[trigger] s[i] as int) < 128
}

/// The text with its ASCII capitals in lower case.
pub open spec fn lowered(s: Seq<char>) -> Seq<char> {
    s.map_values(|c: char| ascii_lower(c))
}

/// `str::to_lowercase`, whose result depends on the text alone. Of a text in
/// ASCII it turns the capitals into small letters and keeps the rest.
#[verifier::external_body]
pub(crate) fn to_lowercase(s: &str) -> (r: String)
    ensures
        r@ == lowercase(s@),
        plain(s@) ==> r@ == lowered(s@),
{
    s.to_lowercase()
}

/// What a text looks like in quotes, with its special characters escaped, as the
/// `Debug` form of `str` has it.
pub uninterp spec fn quoted(s: Seq<char>) -> Seq<char>;

/// The `Debug` form of `str`, which depends on the text alone.
#[verifier::external_body]
pub(crate) fn quote(s: &str) -> (r: String)
    ensures
        r@ == quoted(s@),
{
    format!("{s:?}")
}

/// A new line would begin at the end of the text.
pub open spec fn at_line_start(s: Seq<char>) -> bool {
    s.len() == 0 || s.last() == '\n'
}

/// What one more character does to the lines of a text.
pub proof fn lines_push(s: Seq<char>, c: char)
    ensures
        at_line_start(s) ==> lines(s.push(c)) == lines(s).push(
            if c == '\n' {
                Seq::empty()
            } else {
                seq![c]
            },
        ),
        !at_line_start(s) ==> lines(s).len() > 0 && lines(s.push(c)) == lines(s).drop_last().push(
            if c == '\n' {
                strip_cr(lines(s).last())
            } else {
                lines(s).last().push(c)
            },
        ),
    decreases s.len(),
{
    let i = find(s, '\n');
    let t = s.push(c);
    find_bounds(s, '\n');
    if i < s.len() {
        assert forall|j: int| 0 <= j < i implies t[j] != '\n' by {
            assert(s[j] != '\n');
        }
        find_is(t, '\n', i);
        let rest = s.skip(i + 1);
        lines_push(rest, c);
        assert(t.skip(i + 1) == rest.push(c));
        assert(t.take(i) == s.take(i));
        let head = seq![strip_cr(s.take(i))];
        assert(lines(s) == head + lines(rest));
        assert(lines(t) == head + lines(rest.push(c)));
        if at_line_start(rest) {
            assert(at_line_start(s));
            assert(lines(t) == lines(s).push(lines(t).last()));
        } else {
            assert(!at_line_start(s));
            assert((head + lines(rest)).drop_last() == head + lines(rest).drop_last());
            assert(lines(s).last() == lines(rest).last());
            assert(lines(t) == lines(s).drop_last().push(lines(t).last()));
        }
    } else {
        assert forall|j: int| 0 <= j < s.len() implies t[j] != '\n' by {
            assert(s[j] != '\n');
        }
        if s.len() > 0 {
            assert(s[s.len() - 1] != '\n');
        }
        if c == '\n' {
            find_is(t, '\n', s.len() as int);
            assert(t.take(s.len() as int) == s);
            assert(t.skip(s.len() as int + 1) == Seq::<char>::empty());
            assert(lines(Seq::<char>::empty()) == Seq::<Seq<char>>::empty());
            assert(lines(t) == seq![strip_cr(s)] + Seq::<Seq<char>>::empty());
            assert(lines(t) == seq![strip_cr(s)]);
            if s.len() == 0 {
                assert(strip_cr(s) == Seq::<char>::empty());
            }
        } else {
            find_is(t, '\n', t.len() as int);
            assert(lines(t) == seq![t]);
            if s.len() == 0 {
                assert(t == seq![c]);
            }
        }
        if s.len() > 0 {
            assert(lines(s) == seq![s]);
            assert(lines(s).drop_last() == Seq::<Seq<char>>::empty());
        } else {
            assert(lines(s) == Seq::<Seq<char>>::empty());
        }
    }
}

/// A text that ends in a newline has its lines apart from those of what follows.
pub proof fn lines_concat(a: Seq<char>, b: Seq<char>)
    requires
        at_line_start(a),
    ensures
        lines(a + b) == lines(a) + lines(b),
    decreases b.len(),
{
    if b.len() == 0 {
        assert(a + b == a);
        assert(lines(b) == Seq::<Seq<char>>::empty());
    } else {
        let front = b.drop_last();
        let c = b.last();
        lines_concat(a, front);
        lines_push(front, c);
        lines_push(a + front, c);
        assert(front.push(c) == b);
        assert((a + front).push(c) == a + b);
        if front.len() > 0 {
            assert((a + front).last() == front.last());
        } else {
            assert(a + front == a);
        }
        if !at_line_start(front) {
            assert((lines(a) + lines(front)).drop_last() == lines(a) + lines(front).drop_last());
        }
        assert(lines(a + b) == lines(a) + lines(b));
    }
}

/// All of the text is white space.
pub open spec fn blank(s: Seq<char>) -> bool {
    forall|i: int| 0 <= i < s.len() ==> white_space(#[trigger] s[i])
}

/// White space at the end makes no difference to a text whose end is trimmed.
pub proof fn trim_end_append(s: Seq<char>, w: Seq<char>)
    requires
        blank(w),
    ensures
        trim_end(s + w) == trim_end(s),
    decreases w.len(),
{
    if w.len() > 0 {
        assert(white_space(w[w.len() - 1]));
        assert((s + w).drop_last() == s + w.drop_last());
        trim_end_append(s, w.drop_last());
    } else {
        assert(s + w == s);
    }
}

/// Nothing is left of a text, trimmed at its end, exactly where it is blank.
pub proof fn trim_end_blank(s: Seq<char>)
    ensures
        trim_end(s).len() == 0 <==> blank(s),
    decreases s.len(),
{
    if s.len() > 0 {
        if white_space(s.last()) {
            trim_end_blank(s.drop_last());
            if blank(s.drop_last()) {
                assert forall|i: int| 0 <= i < s.len() implies white_space(#[trigger] s[i]) by {
                    if i < s.len() - 1 {
                        assert(white_space(s.drop_last()[i]));
                    }
                }
            }
            if blank(s) {
                assert forall|i: int| 0 <= i < s.drop_last().len() implies white_space(
                    #[trigger] s.drop_last()[i],
                ) by {
                    assert(white_space(s[i]));
                }
            }
        } else {
            assert(!white_space(s[s.len() - 1]));
        }
    }
}

/// Trimming at the start takes nothing but white space.
proof fn trim_start_blank(s: Seq<char>)
    ensures
        blank(trim_start(s)) <==> blank(s),
    decreases s.len(),
{
    if s.len() > 0 && white_space(s[0]) {
        trim_start_blank(s.skip(1));
        if blank(s.skip(1)) {
            assert forall|i: int| 0 <= i < s.len() implies white_space(#[trigger] s[i]) by {
                if i > 0 {
                    assert(white_space(s.skip(1)[i - 1]));
                }
            }
        }
        if blank(s) {
            assert forall|i: int| 0 <= i < s.skip(1).len() implies white_space(
                #[trigger] s.skip(1)[i],
            ) by {
                assert(white_space(s[i + 1]));
            }
        }
    }
}

/// Nothing is left of a trimmed text exactly where it is blank.
pub proof fn trim_blank(s: Seq<char>)
    ensures
        trim(s).len() == 0 <==> blank(s),
{
    trim_end_blank(trim_start(s));
    trim_start_blank(s);
}

/// Two texts in a row are blank exactly where both are.
pub proof fn blank_concat(a: Seq<char>, b: Seq<char>)
    ensures
        blank(a + b) <==> blank(a) && blank(b),
{
    if blank(a + b) {
        assert forall|i: int| 0 <= i < a.len() implies white_space(#[trigger] a[i]) by {
            assert(white_space((a + b)[i]));
        }
        assert forall|i: int| 0 <= i < b.len() implies white_space(#[trigger] b[i]) by {
            assert(white_space((a + b)[a.len() + i]));
        }
    }
    if blank(a) && blank(b) {
        assert forall|i: int| 0 <= i < (a + b).len() implies white_space(#[trigger] (a + b)[i]) by {
            if i < a.len() {
                assert(white_space(a[i]));
            } else {
                assert(white_space(b[i - a.len()]));
            }
        }
    }
}

/// Joined texts are blank exactly where each of them is, with a blank separator.
pub proof fn joined_blank(parts: Seq<Seq<char>>, sep: Seq<char>)
    requires
        blank(sep),
    ensures
        blank(joined(parts, sep)) <==> forall|i: int|
            0 <= i < parts.len() ==> blank(#[trigger] parts[i]),
    decreases parts.len(),
{
    if parts.len() > 1 {
        let front = parts.drop_last();
        joined_blank(front, sep);
        blank_concat(joined(front, sep), sep);
        blank_concat(joined(front, sep) + sep, parts.last());
        if forall|i: int| 0 <= i < parts.len() ==> blank(#[trigger] parts[i]) {
            assert forall|i: int| 0 <= i < front.len() implies blank(#[trigger] front[i]) by {
                assert(blank(parts[i]));
            }
            assert(blank(parts[parts.len() - 1]));
        }
        if blank(joined(parts, sep)) {
            assert forall|i: int| 0 <= i < parts.len() implies blank(#[trigger] parts[i]) by {
                if i < front.len() {
                    assert(blank(front[i]));
                }
            }
        }
    } else if parts.len() == 1 {
        assert(joined(parts, sep) == parts[0]);
    }
}

/// A number in decimal has digits alone.
pub proof fn decimal_digits(n: nat, i: int)
    requires
        0 <= i < decimal(n).len(),
    ensures
        '0' <= decimal(n)[i] <= '9',
    decreases n,
{
    if n >= 10 {
        if i < decimal(n / 10).len() {
            decimal_digits(n / 10, i);
        }
    }
}

} // verus!
