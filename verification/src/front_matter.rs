//! Lossless splitting of a content file into front matter and body.
//!
//! A content file opens with a `+++` line (leading whitespace tolerated),
//! holds a metadata block, and closes with a `+++` delimiter followed by
//! nothing but whitespace up to the end of its line; the body is whatever
//! follows that line.  The front matter keeps the line break that follows
//! the opening delimiter, so `\r\n` files survive unchanged.  Rendering
//! re-emits the delimiters and inserts one blank line before a non-empty
//! body.

use vstd::prelude::*;

verus! {

/// The whitespace class the delimiter search tolerates.
pub open spec fn is_space(c: char) -> bool {
    c == ' ' || c == '\t' || c == '\n' || c == '\r' || c == '\u{b}' || c == '\u{c}'
}

/// Index of the first non-whitespace character at or after `i`, or the
/// length of `t` when the rest is all whitespace.
pub open spec fn first_non_space(t: Seq<char>, i: int) -> int
    decreases t.len() - i,
{
    if 0 <= i < t.len() {
        if is_space(t[i]) {
            first_non_space(t, i + 1)
        } else {
            i
        }
    } else {
        t.len() as int
    }
}

/// Position just after the line break that must follow the opening
/// delimiter ending at `j`.
pub open spec fn after_open_newline(t: Seq<char>, j: int) -> Option<int> {
    if j < t.len() && t[j] == '\n' {
        Some(j + 1)
    } else if j + 1 < t.len() && t[j] == '\r' && t[j + 1] == '\n' {
        Some(j + 2)
    } else {
        None
    }
}

/// After a candidate closing delimiter, the rest of the file must be all
/// whitespace, or reach a line break before its first other character.
pub open spec fn tail_ok(t: Seq<char>, j: int) -> bool {
    let n = first_non_space(t, j);
    n == t.len() || exists|p: int| j <= p < n && #[trigger] t[p] == '\n'
}

/// Whether an acceptable closing delimiter starts at `q`.
pub open spec fn closing_at(t: Seq<char>, q: int) -> bool {
    &&& q + 3 <= t.len()
    &&& t[q] == '+'
    &&& t[q + 1] == '+'
    &&& t[q + 2] == '+'
    &&& tail_ok(t, q + 3)
}

/// The first acceptable closing delimiter at or after `q`.
pub open spec fn find_closing(t: Seq<char>, q: int) -> Option<int>
    decreases t.len() - q,
{
    if 0 <= q && q + 3 <= t.len() {
        if closing_at(t, q) {
            Some(q)
        } else {
            find_closing(t, q + 1)
        }
    } else {
        None
    }
}

/// The largest index of a `'\n'` in `t[j .. n)`, or `j - 1` when there is
/// none.
pub open spec fn last_newline_before(t: Seq<char>, j: int, n: int) -> int
    decreases n - j,
{
    if j < n && n <= t.len() {
        if t[n - 1] == '\n' {
            n - 1
        } else {
            last_newline_before(t, j, n - 1)
        }
    } else {
        j - 1
    }
}

/// The body that remains after a closing delimiter ending at `j`: empty
/// when only whitespace follows, else everything after the last line
/// break that precedes the first non-whitespace character.
pub open spec fn body_of(t: Seq<char>, j: int) -> Seq<char> {
    let n = first_non_space(t, j);
    if n == t.len() {
        Seq::empty()
    } else {
        t.subrange(last_newline_before(t, j, n) + 1, t.len() as int)
    }
}

/// What splitting the text yields: the front matter (from the line break
/// after the opening delimiter up to the closing delimiter) and the body,
/// or `None` when the delimiters are not found.
pub open spec fn split_spec(t: Seq<char>) -> Option<(Seq<char>, Seq<char>)> {
    let w = first_non_space(t, 0);
    if !(w + 3 <= t.len() && t[w] == '+' && t[w + 1] == '+' && t[w + 2] == '+') {
        None
    } else {
        match after_open_newline(t, w + 3) {
            None => None,
            Some(s) => match find_closing(t, s) {
                None => None,
                Some(q) => Some((t.subrange(w + 3, q), body_of(t, q + 3))),
            },
        }
    }
}

/// The opening or closing delimiter.
pub open spec fn plus3() -> Seq<char> {
    seq!['+', '+', '+']
}

/// The text written back for a front matter and a body: the delimiters
/// around the block, then one blank line before a non-empty body.
pub open spec fn render_spec(fm: Seq<char>, body: Seq<char>) -> Seq<char> {
    plus3() + fm + plus3() + seq!['\n'] + (if body.len() > 0 {
        seq!['\n']
    } else {
        Seq::<char>::empty()
    }) + body
}

/// A front matter as rendering expects it: it opens with the line break
/// kept from the opening delimiter line, and no three consecutive `+`
/// occur inside it.
pub open spec fn wf_front_matter(fm: Seq<char>) -> bool {
    &&& (fm.len() >= 1 && fm[0] == '\n') || (fm.len() >= 2 && fm[0] == '\r' && fm[1] == '\n')
    &&& forall|i: int|
        0 <= i <= fm.len() - 3 ==> !(#[trigger] fm[i] == '+' && fm[i + 1] == '+' && fm[i + 2]
            == '+')
}

/// A body as splitting produces it: empty, or holding a non-whitespace
/// character with no line break before the first one.
pub open spec fn wf_body(body: Seq<char>) -> bool {
    body.len() == 0 || {
        let m = first_non_space(body, 0);
        m < body.len() && forall|i: int| 0 <= i < m ==> #[trigger] body[i] != '\n'
    }
}

/// `first_non_space` lands exactly where a left-to-right scan stops.
proof fn lemma_first_non_space_at(t: Seq<char>, j: int, w: int)
    requires
        0 <= j <= w <= t.len(),
        forall|i: int| j <= i < w ==> is_space(#[trigger] t[i]),
        w == t.len() || !is_space(t[w]),
    ensures
        first_non_space(t, j) == w,
    decreases w - j,
{
    if j < w {
        lemma_first_non_space_at(t, j + 1, w);
    }
}

/// Basic bounds and character facts about `first_non_space`.
proof fn lemma_first_non_space_props(t: Seq<char>, j: int)
    requires
        0 <= j <= t.len(),
    ensures
        j <= first_non_space(t, j) <= t.len(),
        forall|i: int| j <= i < first_non_space(t, j) ==> is_space(#[trigger] t[i]),
        first_non_space(t, j) < t.len() ==> !is_space(t[first_non_space(t, j)]),
    decreases t.len() - j,
{
    if j < t.len() && is_space(t[j]) {
        lemma_first_non_space_props(t, j + 1);
    }
}

/// `find_closing` returns the first acceptable position.
proof fn lemma_find_closing_at(t: Seq<char>, s: int, q: int)
    requires
        0 <= s <= q,
        closing_at(t, q),
        forall|p: int| s <= p < q ==> !#[trigger] closing_at(t, p),
    ensures
        find_closing(t, s) == Some(q),
    decreases q - s,
{
    if s < q {
        lemma_find_closing_at(t, s + 1, q);
    }
}

/// `find_closing` finds nothing when no position is acceptable.
proof fn lemma_find_closing_none(t: Seq<char>, s: int)
    requires
        0 <= s,
        forall|p: int| s <= p && p + 3 <= t.len() ==> !#[trigger] closing_at(t, p),
    ensures
        find_closing(t, s) is None,
    decreases t.len() - s,
{
    if s + 3 <= t.len() {
        lemma_find_closing_none(t, s + 1);
    }
}

/// `last_newline_before` lands on the rightmost line break of the range.
proof fn lemma_last_newline_at(t: Seq<char>, j: int, n: int, p: int)
    requires
        j <= p < n <= t.len(),
        t[p] == '\n',
        forall|x: int| p < x < n ==> #[trigger] t[x] != '\n',
    ensures
        last_newline_before(t, j, n) == p,
    decreases n - j,
{
    if n - 1 > p {
        lemma_last_newline_at(t, j, n - 1, p);
    }
}

/// Exec mirror of [`is_space`].
fn is_space_exec(c: char) -> (r: bool)
    ensures
        r == is_space(c),
{
    c == ' ' || c == '\t' || c == '\n' || c == '\r' || c == '\u{b}' || c == '\u{c}'
}

/// Exec mirror of [`first_non_space`].
fn first_non_space_exec(text: &str, j: usize) -> (r: usize)
    requires
        j <= text@.len(),
    ensures
        r as int == first_non_space(text@, j as int),
        j <= r <= text@.len(),
{
    let n = text.unicode_len();
    let mut i = j;
    while i < n && is_space_exec(text.get_char(i))
        invariant
            n == text@.len(),
            j <= i <= n,
            forall|p: int| j <= p < i ==> is_space(#[trigger] text@[p]),
        decreases n - i,
    {
        i = i + 1;
    }
    proof {
        lemma_first_non_space_at(text@, j as int, i as int);
    }
    i
}

/// Exec mirror of [`tail_ok`].
fn tail_ok_exec(text: &str, j: usize) -> (r: bool)
    requires
        j <= text@.len(),
    ensures
        r == tail_ok(text@, j as int),
{
    let n = text.unicode_len();
    let mut i = j;
    let mut seen_nl = false;
    while i < n && is_space_exec(text.get_char(i))
        invariant
            n == text@.len(),
            j <= i <= n,
            forall|p: int| j <= p < i ==> is_space(#[trigger] text@[p]),
            seen_nl == exists|p: int| j <= p < i && #[trigger] text@[p] == '\n',
        decreases n - i,
    {
        if text.get_char(i) == '\n' {
            seen_nl = true;
            proof {
                assert(j <= i < i + 1 && text@[i as int] == '\n');
            }
        } else {
            proof {
                assert forall|p: int| j <= p < i + 1 && #[trigger] text@[p] == '\n' implies exists|
                    x: int,
                |
                    j <= x < i && #[trigger] text@[x] == '\n' by {
                    assert(p != i);
                }
            }
        }
        i = i + 1;
    }
    proof {
        lemma_first_non_space_at(text@, j as int, i as int);
    }
    i == n || seen_nl
}

/// Exec mirror of [`find_closing`], searching from `s`.
fn find_closing_exec(text: &str, s: usize) -> (r: Option<usize>)
    requires
        s <= text@.len(),
    ensures
        match find_closing(text@, s as int) {
            Some(qq) => r matches Some(q) && q as int == qq && closing_at(text@, qq) && s <= qq,
            None => r is None,
        },
{
    let n = text.unicode_len();
    let mut q = s;
    while n - q >= 3
        invariant
            n == text@.len(),
            s <= q <= n,
            forall|p: int| s <= p < q ==> !#[trigger] closing_at(text@, p),
        decreases n - q,
    {
        if text.get_char(q) == '+' && text.get_char(q + 1) == '+' && text.get_char(q + 2) == '+'
            && tail_ok_exec(text, q + 3) {
            proof {
                lemma_find_closing_at(text@, s as int, q as int);
            }
            return Some(q);
        }
        q = q + 1;
    }
    proof {
        lemma_find_closing_none(text@, s as int);
    }
    None
}

/// Exec mirror of [`last_newline_before`] when a line break is known to
/// be present.
fn last_newline_exec(text: &str, j: usize, m: usize) -> (r: usize)
    requires
        j <= m <= text@.len(),
        exists|p: int| j <= p < m && #[trigger] text@[p] == '\n',
    ensures
        r as int == last_newline_before(text@, j as int, m as int),
        j <= r < m,
        text@[r as int] == '\n',
{
    let mut k = m;
    while k > j
        invariant
            j <= k <= m <= text@.len(),
            forall|p: int| k <= p < m ==> #[trigger] text@[p] != '\n',
            exists|p: int| j <= p < m && #[trigger] text@[p] == '\n',
        decreases k - j,
    {
        k = k - 1;
        if text.get_char(k) == '\n' {
            proof {
                lemma_last_newline_at(text@, j as int, m as int, k as int);
            }
            return k;
        }
    }
    proof {
        assert(false);
    }
    j
}

/// Splits a file into its front matter (the text between the delimiters,
/// keeping the opening line break) and its body, or returns `None` when
/// the file carries no front matter.
pub fn split_front_matter(text: &str) -> (r: Option<(String, String)>)
    ensures
        match split_spec(text@) {
            Some(p) => r matches Some(fb) && fb.0@ == p.0 && fb.1@ == p.1,
            None => r is None,
        },
{
    let n = text.unicode_len();
    let w = first_non_space_exec(text, 0);
    if n - w < 3 {
        return None;
    }
    if !(text.get_char(w) == '+' && text.get_char(w + 1) == '+' && text.get_char(w + 2) == '+') {
        return None;
    }
    let oe = w + 3;
    let s: usize;
    if oe < n && text.get_char(oe) == '\n' {
        s = oe + 1;
    } else if n - oe >= 2 && text.get_char(oe) == '\r' && text.get_char(oe + 1) == '\n' {
        s = oe + 2;
    } else {
        return None;
    }
    match find_closing_exec(text, s) {
        None => None,
        Some(q) => {
            let fm = text.substring_char(oe, q).to_owned();
            let j = q + 3;
            let m = first_non_space_exec(text, j);
            let body: String;
            if m == n {
                body = String::new();
            } else {
                proof {
                    lemma_first_non_space_props(text@, j as int);
                }
                let p = last_newline_exec(text, j, m);
                body = text.substring_char(p + 1, n).to_owned();
            }
            Some((fm, body))
        },
    }
}

/// Renders a front matter and a body back into file text.
pub fn render(front_matter: &str, body: &str) -> (r: String)
    ensures
        r@ == render_spec(front_matter@, body@),
{
    let mut s = "+++".to_owned();
    s.append(front_matter);
    s.append("+++");
    s.append("\n");
    if body.unicode_len() > 0 {
        s.append("\n");
    }
    s.append(body);
    proof {
        reveal_strlit("+++");
        reveal_strlit("\n");
        assert(("+++")@ =~= plus3());
        assert(("\n")@ =~= seq!['\n']);
        assert(s@ =~= render_spec(front_matter@, body@));
    }
    s
}

/// Splitting recovers exactly what rendering wrote: for any well-formed
/// front matter and body, the rendered file splits back into the same
/// pair, so a file that needed no change is reproduced byte for byte.
pub proof fn lemma_round_trip(fm: Seq<char>, body: Seq<char>)
    requires
        wf_front_matter(fm),
        wf_body(body),
    ensures
        split_spec(render_spec(fm, body)) == Some((fm, body)),
{
    let t = render_spec(fm, body);
    let f = fm.len() as int;
    let qq = 3 + f;
    let l = t.len() as int;
    let sep: Seq<char> = if body.len() > 0 {
        seq!['\n']
    } else {
        Seq::<char>::empty()
    };
    assert(t =~= plus3() + fm + plus3() + seq!['\n'] + sep + body);
    assert(l == qq + 4 + sep.len() + body.len());

    // Opening delimiter.
    assert(t[0] == '+' && t[1] == '+' && t[2] == '+');
    assert(!is_space('+'));
    assert(first_non_space(t, 0) == 0);

    // The line break after the opening delimiter.
    let s: int = if fm.len() >= 1 && fm[0] == '\n' {
        4
    } else {
        5
    };
    assert(t[3] == fm[0]);
    if !(fm.len() >= 1 && fm[0] == '\n') {
        assert(fm.len() >= 2 && fm[0] == '\r' && fm[1] == '\n');
        assert(t[4] == fm[1]);
    }
    assert(after_open_newline(t, 3) == Some(s));

    // The rendered closing delimiter is acceptable.
    assert(t[qq] == '+' && t[qq + 1] == '+' && t[qq + 2] == '+');
    assert(t[qq + 3] == '\n');
    if body.len() == 0 {
        assert forall|i: int| qq + 3 <= i < l implies is_space(#[trigger] t[i]) by {
            assert(t[i] == '\n');
        }
        lemma_first_non_space_at(t, qq + 3, l);
        assert(tail_ok(t, qq + 3));
    } else {
        let mb = first_non_space(body, 0);
        lemma_first_non_space_props(body, 0);
        assert(t[qq + 4] == '\n');
        assert forall|i: int| qq + 3 <= i < qq + 5 + mb implies is_space(#[trigger] t[i]) by {
            if i >= qq + 5 {
                assert(t[i] == body[i - qq - 5]);
            } else {
                assert(t[i] == '\n');
            }
        }
        assert(t[qq + 5 + mb] == body[mb]);
        lemma_first_non_space_at(t, qq + 3, qq + 5 + mb);
        assert(first_non_space(t, qq + 3) == qq + 5 + mb);
        assert(qq + 3 <= qq + 3 < qq + 5 + mb && t[qq + 3] == '\n');
        assert(tail_ok(t, qq + 3));
    }
    assert(closing_at(t, qq));

    // No earlier position is acceptable.
    assert forall|p: int| s <= p < qq implies !#[trigger] closing_at(t, p) by {
        if p <= qq - 3 {
            assert(t[p] == fm[p - 3] && t[p + 1] == fm[p - 2] && t[p + 2] == fm[p - 1]);
            assert(!(fm[p - 3] == '+' && fm[p - 2] == '+' && fm[p - 1] == '+'));
        } else {
            // A candidate straddling the rendered delimiter is followed by
            // a `+`, which is not whitespace and is reached before any
            // line break.
            if t[p] == '+' && t[p + 1] == '+' && t[p + 2] == '+' {
                assert(t[p + 3] == '+');
                assert(!is_space('+'));
                assert(first_non_space(t, p + 3) == p + 3);
                assert(p + 3 < l);
                assert(!tail_ok(t, p + 3));
            }
        }
    }
    lemma_find_closing_at(t, s, qq);

    // The pieces recovered are the pieces rendered.
    assert(t.subrange(3, qq) =~= fm);
    if body.len() == 0 {
        assert(first_non_space(t, qq + 3) == l);
        assert(body_of(t, qq + 3) =~= body);
    } else {
        let mb = first_non_space(body, 0);
        lemma_first_non_space_props(body, 0);
        assert(first_non_space(t, qq + 3) == qq + 5 + mb);
        assert forall|x: int| qq + 4 < x < qq + 5 + mb implies #[trigger] t[x] != '\n' by {
            assert(t[x] == body[x - qq - 5]);
        }
        lemma_last_newline_at(t, qq + 3, qq + 5 + mb, qq + 4);
        assert(t.subrange(qq + 5, l) =~= body);
        assert(body_of(t, qq + 3) =~= body);
    }
    assert(split_spec(t) == Some((fm, body)));
}

} // verus!
