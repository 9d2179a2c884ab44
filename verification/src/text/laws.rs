//! What the readers of text promise, told in terms of positions and characters.

use crate::text;
use vstd::prelude::*;

verus! {

// ── Words ───────────────────────────────────────────────────────────────

/// A word stands from `i` up to `j`: no blank is in it, and a blank or an end of the
/// text is on either side.
pub open spec fn word_at(s: Seq<char>, i: int, j: int) -> bool {
    &&& 0 <= i < j <= s.len()
    &&& forall|k: int| i <= k < j ==> !text::is_space(#[trigger] s[k])
    &&& i == 0 || text::is_space(s[i - 1])
    &&& j == s.len() || text::is_space(s[j])
}

/// Nothing but blanks stands from `i` up to `j`.
pub open spec fn blank(s: Seq<char>, i: int, j: int) -> bool {
    forall|k: int| i <= k < j ==> text::is_space(#[trigger] s[k])
}

/// Every word of the text is found, at a place of its own: in front exactly where only
/// blanks stand before it.
pub proof fn law_every_word_is_found(s: Seq<char>, i: int, j: int) -> (k: int)
    requires
        word_at(s, i, j),
    ensures
        0 <= k < text::words(s).len(),
        text::words(s)[k] == s.subrange(i, j),
        k == 0 <==> blank(s, 0, i),
    decreases s.len(),
{
    if text::is_space(s[0]) {
        let rest = s.skip(1);
        assert(i > 0);
        assert forall|k: int| i - 1 <= k < j - 1 implies !text::is_space(#[trigger] rest[k]) by {
            assert(rest[k] == s[k + 1]);
        }
        if i > 1 {
            assert(rest[i - 2] == s[i - 1]);
        }
        if j < s.len() {
            assert(rest[j - 1] == s[j]);
        }
        let k = law_every_word_is_found(rest, i - 1, j - 1);
        assert(rest.subrange(i - 1, j - 1) == s.subrange(i, j));
        if blank(s, 0, i) {
            assert forall|m: int| 0 <= m < i - 1 implies text::is_space(#[trigger] rest[m]) by {
                assert(rest[m] == s[m + 1]);
            }
        }
        if blank(rest, 0, i - 1) {
            assert forall|m: int| 0 <= m < i implies text::is_space(#[trigger] s[m]) by {
                if m > 0 {
                    assert(rest[m - 1] == s[m]);
                }
            }
        }
        k
    } else {
        let w = text::word_len(s);
        text::lemma_word_len(s);
        let rest = s.skip(w);
        if i < w {
            if i > 0 {
                assert(!text::is_space(s[i - 1]));
            }
            if j < w {
                assert(!text::is_space(s[j]));
            } else if j > w {
                assert(text::is_space(s[w]));
            }
            assert(s.subrange(0, w) == s.take(w));
            0
        } else {
            if i == w {
                assert(!text::is_space(s[i]));
            }
            assert forall|k: int| i - w <= k < j - w implies !text::is_space(#[trigger] rest[k]) by {
                assert(rest[k] == s[k + w]);
            }
            assert(rest[i - w - 1] == s[i - 1]);
            if j < s.len() {
                assert(rest[j - w] == s[j]);
            }
            let k = law_every_word_is_found(rest, i - w, j - w);
            assert(rest.subrange(i - w, j - w) == s.subrange(i, j));
            assert(text::words(s)[k + 1] == text::words(rest)[k]);
            assert(!text::is_space(s[0]));
            k + 1
        }
    }
}

/// Only words of the text are found; a word that is not in front has another one
/// before it.
pub proof fn law_only_words_are_found(s: Seq<char>, k: int) -> (r: (int, int))
    requires
        0 <= k < text::words(s).len(),
    ensures
        word_at(s, r.0, r.1),
        text::words(s)[k] == s.subrange(r.0, r.1),
        k == 0 <==> blank(s, 0, r.0),
    decreases s.len(),
{
    if text::is_space(s[0]) {
        let rest = s.skip(1);
        let (i, j) = law_only_words_are_found(rest, k);
        assert forall|m: int| i + 1 <= m < j + 1 implies !text::is_space(#[trigger] s[m]) by {
            assert(rest[m - 1] == s[m]);
        }
        if i > 0 {
            assert(rest[i - 1] == s[i]);
        }
        if j < rest.len() {
            assert(rest[j] == s[j + 1]);
        }
        assert(rest.subrange(i, j) == s.subrange(i + 1, j + 1));
        if blank(rest, 0, i) {
            assert forall|m: int| 0 <= m < i + 1 implies text::is_space(#[trigger] s[m]) by {
                if m > 0 {
                    assert(rest[m - 1] == s[m]);
                }
            }
        }
        if blank(s, 0, i + 1) {
            assert forall|m: int| 0 <= m < i implies text::is_space(#[trigger] rest[m]) by {
                assert(rest[m] == s[m + 1]);
            }
        }
        (i + 1, j + 1)
    } else {
        let w = text::word_len(s);
        text::lemma_word_len(s);
        if k == 0 {
            assert(s.subrange(0, w) == s.take(w));
            (0, w)
        } else {
            let rest = s.skip(w);
            assert(text::words(s)[k] == text::words(rest)[k - 1]);
            let (i, j) = law_only_words_are_found(rest, k - 1);
            assert(w < s.len());
            assert(rest[0] == s[w]);
            if i == 0 {
                assert(!text::is_space(rest[0]));
            }
            assert forall|m: int| i + w <= m < j + w implies !text::is_space(#[trigger] s[m]) by {
                assert(rest[m - w] == s[m]);
            }
            assert(rest[i - 1] == s[i + w - 1]);
            if j < rest.len() {
                assert(rest[j] == s[j + w]);
            }
            assert(rest.subrange(i, j) == s.subrange(i + w, j + w));
            assert(!text::is_space(s[0]));
            (i + w, j + w)
        }
    }
}

/// Two words with nothing but blanks before and between them are the first two.
pub proof fn law_first_two_words(s: Seq<char>, a: int, b: int, c: int, d: int)
    requires
        word_at(s, a, b),
        blank(s, 0, a),
        word_at(s, c, d),
        b < c,
        blank(s, b, c),
    ensures
        text::words(s).len() >= 2,
        text::words(s)[0] == s.subrange(a, b),
        text::words(s)[1] == s.subrange(c, d),
    decreases s.len(),
{
    if text::is_space(s[0]) {
        let rest = s.skip(1);
        assert(a > 0);
        assert forall|k: int| a - 1 <= k < b - 1 implies !text::is_space(#[trigger] rest[k]) by {
            assert(rest[k] == s[k + 1]);
        }
        assert forall|k: int| c - 1 <= k < d - 1 implies !text::is_space(#[trigger] rest[k]) by {
            assert(rest[k] == s[k + 1]);
        }
        assert forall|k: int| 0 <= k < a - 1 implies text::is_space(#[trigger] rest[k]) by {
            assert(rest[k] == s[k + 1]);
        }
        assert forall|k: int| b - 1 <= k < c - 1 implies text::is_space(#[trigger] rest[k]) by {
            assert(rest[k] == s[k + 1]);
        }
        if a > 1 {
            assert(rest[a - 2] == s[a - 1]);
        }
        assert(rest[b - 1] == s[b]);
        assert(rest[c - 2] == s[c - 1]);
        if d < s.len() {
            assert(rest[d - 1] == s[d]);
        }
        law_first_two_words(rest, a - 1, b - 1, c - 1, d - 1);
        assert(rest.subrange(a - 1, b - 1) == s.subrange(a, b));
        assert(rest.subrange(c - 1, d - 1) == s.subrange(c, d));
    } else {
        if a > 0 {
            assert(text::is_space(s[0]));
        }
        let w = text::word_len(s);
        text::lemma_word_len(s);
        if b < w {
            assert(!text::is_space(s[b]));
        } else if w < b {
            assert(text::is_space(s[w]));
        }
        let rest = s.skip(w);
        assert forall|k: int| c - w <= k < d - w implies !text::is_space(#[trigger] rest[k]) by {
            assert(rest[k] == s[k + w]);
        }
        assert(rest[c - w - 1] == s[c - 1]);
        if d < s.len() {
            assert(rest[d - w] == s[d]);
        }
        assert forall|k: int| 0 <= k < c - w implies text::is_space(#[trigger] rest[k]) by {
            assert(rest[k] == s[k + w]);
        }
        let k = law_every_word_is_found(rest, c - w, d - w);
        assert(rest.subrange(c - w, d - w) == s.subrange(c, d));
        assert(s.subrange(0, w) == s.take(w));
        assert(text::words(s)[1] == text::words(rest)[0]);
    }
}

// ── Letters ─────────────────────────────────────────────────────────────

/// The two characters are one letter in upper and lower case, or the same.
pub open spec fn same_letter(x: char, y: char) -> bool {
    ||| x == y
    ||| 'A' <= x <= 'Z' && y as int == x as int + 32
    ||| 'A' <= y <= 'Z' && x as int == y as int + 32
}

/// The two texts differ in the case of their letters at most.
pub open spec fn same_but_for_case(x: Seq<char>, y: Seq<char>) -> bool {
    &&& x.len() == y.len()
    &&& forall|i: int| 0 <= i < x.len() ==> same_letter(#[trigger] x[i], y[i])
}

proof fn lemma_lower(x: char, y: char)
    ensures
        text::lower(x) == text::lower(y) <==> same_letter(x, y),
{
    assert(text::lower(x) as int == if 'A' <= x <= 'Z' {
        x as int + 32
    } else {
        x as int
    });
    assert(text::lower(y) as int == if 'A' <= y <= 'Z' {
        y as int + 32
    } else {
        y as int
    });
}

/// Two texts have the same lower case exactly where they differ in the case of their
/// letters at most.
pub proof fn law_lower_case(x: Seq<char>, y: Seq<char>)
    ensures
        text::lowered(x) == text::lowered(y) <==> same_but_for_case(x, y),
{
    let a = text::lowered(x);
    let b = text::lowered(y);
    assert(a.len() == x.len() && b.len() == y.len());
    if a == b {
        assert forall|i: int| 0 <= i < x.len() implies same_letter(#[trigger] x[i], y[i]) by {
            assert(a[i] == text::lower(x[i]));
            assert(b[i] == text::lower(y[i]));
            lemma_lower(x[i], y[i]);
        }
    }
    if same_but_for_case(x, y) {
        assert forall|i: int| 0 <= i < a.len() implies a[i] == b[i] by {
            assert(same_letter(x[i], y[i]));
            lemma_lower(x[i], y[i]);
        }
        assert(a =~= b);
    }
}

/// What is before the first `c`: a front part without `c`, which ends at one or at the
/// end.
pub proof fn law_before(s: Seq<char>, c: char)
    ensures
        text::before(s, c).len() <= s.len(),
        s.take(text::before(s, c).len() as int) == text::before(s, c),
        forall|i: int| 0 <= i < text::before(s, c).len() ==> #[trigger] text::before(s, c)[i] != c,
        text::before(s, c).len() < s.len() ==> s[text::before(s, c).len() as int] == c,
{
    text::lemma_first_at(s, c);
}

/// A text before which no `c` stands is cut at the next one.
pub proof fn law_cut(s: Seq<char>, c: char, t: Seq<char>)
    requires
        forall|i: int| 0 <= i < s.len() ==> #[trigger] s[i] != c,
    ensures
        text::before(s, c) == s,
        text::before(s + seq![c] + t, c) == s,
{
    text::lemma_first_at_unique(s, c, s.len() as int);
    let all = s + seq![c] + t;
    assert forall|i: int| 0 <= i < s.len() implies #[trigger] all[i] != c by {
        assert(all[i] == s[i]);
    }
    assert(all[s.len() as int] == c);
    text::lemma_first_at_unique(all, c, s.len() as int);
    assert(all.take(s.len() as int) == s);
    assert(s.take(s.len() as int) == s);
}

// ── What stands in a text ───────────────────────────────────────────────

/// The text is made of three parts.
pub open spec fn is_made_of(s: Seq<char>, a: Seq<char>, m: Seq<char>, b: Seq<char>) -> bool {
    s == a + m + b
}

/// The text holds `m`: something, `m`, and something again.
pub open spec fn holds(s: Seq<char>, m: Seq<char>) -> bool {
    exists|a: Seq<char>, b: Seq<char>| is_made_of(s, a, m, b)
}

/// The text holds `m`, but for the case of the letters.
pub open spec fn holds_in_any_case(s: Seq<char>, m: Seq<char>) -> bool {
    exists|a: Seq<char>, w: Seq<char>, b: Seq<char>|
        #[trigger] is_made_of(s, a, w, b) && same_but_for_case(w, m)
}

/// What is looked for is found wherever it stands, and only where it stands.
pub proof fn law_search(s: Seq<char>, m: Seq<char>)
    ensures
        text::contains(s, m) <==> holds(s, m),
{
    let n = m.len() as int;
    if text::contains(s, m) {
        let i = choose|i: int| text::occurs_at(s, m, i);
        assert(s =~= s.take(i) + s.subrange(i, i + n) + s.skip(i + n));
        assert(is_made_of(s, s.take(i), m, s.skip(i + n)));
    }
    if holds(s, m) {
        let (a, b) = choose|a: Seq<char>, b: Seq<char>| is_made_of(s, a, m, b);
        let i = a.len() as int;
        assert(s.subrange(i, i + n) =~= m);
        assert(text::occurs_at(s, m, i));
    }
}

/// A word in lower case is found in a text in lower case where it stands in the text
/// itself, but for the case of the letters.
pub proof fn law_search_in_any_case(s: Seq<char>, m: Seq<char>)
    requires
        forall|i: int| 0 <= i < m.len() ==> !('A' <= #[trigger] m[i] <= 'Z'),
    ensures
        text::contains(text::lowered(s), m) <==> holds_in_any_case(s, m),
{
    let n = m.len() as int;
    let l = text::lowered(s);
    assert(l.len() == s.len());
    assert(text::lowered(m) =~= m) by {
        assert forall|i: int| 0 <= i < n implies text::lowered(m)[i] == #[trigger] m[i] by {
            assert(text::lowered(m)[i] == text::lower(m[i]));
        }
    }
    if text::contains(l, m) {
        let i = choose|i: int| text::occurs_at(l, m, i);
        let w = s.subrange(i, i + n);
        assert(s =~= s.take(i) + w + s.skip(i + n));
        assert(text::lowered(w) =~= l.subrange(i, i + n));
        law_lower_case(w, m);
        assert(is_made_of(s, s.take(i), w, s.skip(i + n)));
    }
    if holds_in_any_case(s, m) {
        let (a, w, b) = choose|a: Seq<char>, w: Seq<char>, b: Seq<char>|
            #[trigger] is_made_of(s, a, w, b) && same_but_for_case(w, m);
        let i = a.len() as int;
        law_lower_case(w, m);
        assert(s.subrange(i, i + n) =~= w);
        assert(l.subrange(i, i + n) =~= text::lowered(w));
        assert(text::occurs_at(l, m, i));
    }
}

// ── Ends ────────────────────────────────────────────────────────────────

/// Spaces, tabs and line breaks are blank, and so are the wider spaces; what can be seen
/// is not.
pub proof fn law_blanks(c: char)
    ensures
        c == ' ' || c == '\t' || c == '\n' || c == '\r' ==> text::is_space(c),
        c == '\u{b}' || c == '\u{c}' || c == '\u{85}' || c == '\u{a0}' ==> text::is_space(c),
        c == '\u{1680}' || '\u{2000}' <= c <= '\u{200a}' || c == '\u{3000}' ==> text::is_space(c),
        c == '\u{2028}' || c == '\u{2029}' || c == '\u{202f}' || c == '\u{205f}'
            ==> text::is_space(c),
        '!' <= c <= '~' ==> !text::is_space(c),
        '\u{a1}' <= c <= '\u{167f}' ==> !text::is_space(c),
        c > '\u{3000}' ==> !text::is_space(c),
{
}

/// Trimming takes the blanks off both ends, and nothing else.
pub proof fn law_trimming(a: Seq<char>, m: Seq<char>, b: Seq<char>)
    requires
        forall|i: int| 0 <= i < a.len() ==> text::is_space(#[trigger] a[i]),
        forall|i: int| 0 <= i < b.len() ==> text::is_space(#[trigger] b[i]),
        m.len() > 0 ==> !text::is_space(m[0]) && !text::is_space(m.last()),
    ensures
        text::trimmed(a + m + b) == m,
    decreases a.len() + b.len(),
{
    let s = a + m + b;
    if a.len() > 0 {
        assert(text::is_space(a[0]));
        assert(s[0] == a[0]);
        let rest = a.skip(1);
        assert forall|i: int| 0 <= i < rest.len() implies text::is_space(#[trigger] rest[i]) by {
            assert(rest[i] == a[i + 1]);
        }
        law_trimming(rest, m, b);
        assert(s.skip(1) =~= rest + m + b);
    } else if b.len() > 0 {
        assert(text::is_space(b[b.len() - 1]));
        assert(s.last() == b.last());
        let rest = b.drop_last();
        assert forall|i: int| 0 <= i < rest.len() implies text::is_space(#[trigger] rest[i]) by {
            assert(rest[i] == b[i]);
        }
        law_trimming(a, m, rest);
        assert(s.drop_last() =~= a + m + rest);
        if m.len() > 0 {
            assert(s[0] == m[0]);
        } else {
            assert(s =~= b);
            assert(text::is_space(b[0]));
            law_trimming(a, m, b.skip(1));
            assert(s.skip(1) =~= a + m + b.skip(1));
        }
    } else {
        assert(s =~= m);
    }
}

/// However often the character stands at the end, it is taken off, and nothing else.
pub proof fn law_trailing(s: Seq<char>, tail: Seq<char>, c: char)
    requires
        s.len() > 0 ==> s.last() != c,
        forall|i: int| 0 <= i < tail.len() ==> #[trigger] tail[i] == c,
    ensures
        text::without_trailing(s + tail, c) == s,
    decreases tail.len(),
{
    if tail.len() > 0 {
        assert((s + tail).last() == tail[tail.len() - 1]);
        assert((s + tail).drop_last() =~= s + tail.drop_last());
        law_trailing(s, tail.drop_last(), c);
    } else {
        assert(s + tail =~= s);
    }
}

// ── Numerals and lists ──────────────────────────────────────────────────

/// A numeral is written digit by digit, the last one for the units; a negative one has
/// a minus sign in front.
pub proof fn law_numerals(tens: nat, units: nat)
    requires
        units < 10,
    ensures
        text::dec(units) == seq![('0' as int + units) as char],
        tens > 0 ==> text::dec(tens * 10 + units) == text::dec(tens).push(
            ('0' as int + units) as char,
        ),
        text::signed_dec(units as int) == text::dec(units),
        tens > 0 ==> text::signed_dec(-(tens as int)) == seq!['-'] + text::dec(tens),
{
}

/// Joined texts are told with the separator between any two, and nowhere else.
pub proof fn law_joining(a: Seq<Seq<char>>, b: Seq<Seq<char>>, x: Seq<char>, sep: Seq<char>)
    ensures
        text::join(Seq::empty(), sep) == Seq::<char>::empty(),
        text::join(seq![x], sep) == x,
        a.len() > 0 && b.len() > 0 ==> text::join(a + b, sep) == text::join(a, sep) + sep
            + text::join(b, sep),
    decreases b.len(),
{
    if a.len() > 0 && b.len() > 0 {
        let all = a + b;
        assert(all.last() == b.last());
        if b.len() == 1 {
            assert(all.drop_last() =~= a);
        } else {
            let front = b.drop_last();
            law_joining(a, front, x, sep);
            assert(all.drop_last() =~= a + front);
            assert(text::join(a, sep) + sep + (text::join(front, sep) + sep + b.last()) =~= (
            text::join(a, sep) + sep + text::join(front, sep)) + sep + b.last());
        }
    }
}

// ── Order ───────────────────────────────────────────────────────────────

/// The first character that differs decides the order of two texts; a text comes after
/// those that it continues.
pub proof fn law_order(a: Seq<char>, b: Seq<char>, k: int)
    requires
        0 <= k < b.len(),
        k <= a.len(),
        forall|j: int| 0 <= j < k ==> #[trigger] a[j] == b[j],
        k < a.len() ==> (a[k] as int) < b[k] as int,
    ensures
        text::text_less(a, b),
        !text::text_less(b, a),
    decreases k,
{
    if k > 0 {
        assert(a[0] == b[0]);
        let x = a.skip(1);
        let y = b.skip(1);
        assert forall|j: int| 0 <= j < k - 1 implies #[trigger] x[j] == y[j] by {
            assert(a[j + 1] == b[j + 1]);
        }
        law_order(x, y, k - 1);
    }
}

} // verus!
