//! Text as sequences of characters: searching, splitting, decimal numerals,
//! joining and sorting, each with the specification function it computes.

pub mod laws;

use crate::order;
use vstd::prelude::*;
use vstd::slice::slice_subrange;

verus! {

// ── Specifications ──────────────────────────────────────────────────────

/// The characters of each string of a list.
pub open spec fn texts(list: Seq<String>) -> Seq<Seq<char>> {
    Seq::new(list.len(), |i: int| list[i]@)
}

/// `pat` stands in `s` at position `i`.
pub open spec fn occurs_at(s: Seq<char>, pat: Seq<char>, i: int) -> bool {
    &&& 0 <= i <= s.len() - pat.len()
    &&& s.subrange(i, i + pat.len()) == pat
}

/// `pat` stands somewhere in `s`.
pub open spec fn contains(s: Seq<char>, pat: Seq<char>) -> bool {
    exists|i: int| occurs_at(s, pat, i)
}

/// `s` begins with `pat`.
pub open spec fn begins_with(s: Seq<char>, pat: Seq<char>) -> bool {
    &&& pat.len() <= s.len()
    &&& s.take(pat.len() as int) == pat
}

/// The position of the first `c` in `s`, or the length of `s` where there is none.
pub open spec fn first_at(s: Seq<char>, c: char) -> int
    decreases s.len(),
{
    if s.len() == 0 || s[0] == c {
        0
    } else {
        1 + first_at(s.skip(1), c)
    }
}

/// The part of `s` before the first `c` (all of `s` where there is none).
pub open spec fn before(s: Seq<char>, c: char) -> Seq<char> {
    s.take(first_at(s, c))
}

/// The pieces of `s` between occurrences of `c`; one piece more than there are
/// occurrences.
pub open spec fn split(s: Seq<char>, c: char) -> Seq<Seq<char>>
    decreases s.len(),
    via split_decreases
{
    let k = first_at(s, c);
    if k >= s.len() {
        seq![s]
    } else {
        seq![s.take(k)] + split(s.skip(k + 1), c)
    }
}

#[via_fn]
proof fn split_decreases(s: Seq<char>, c: char) {
    lemma_first_at(s, c);
}

/// The lower-case letter of an upper-case ASCII letter; any other character
/// stays as it is.
pub open spec fn lower(c: char) -> char {
    if 'A' <= c <= 'Z' {
        (c as u8 + 32) as char
    } else {
        c
    }
}

/// `s` with every upper-case ASCII letter replaced by its lower-case letter.
pub open spec fn lowered(s: Seq<char>) -> Seq<char> {
    Seq::new(s.len(), |i: int| lower(s[i]))
}

/// The characters with the Unicode property `White_Space`.
pub open spec fn is_space(c: char) -> bool {
    ||| 0x09 <= c as int <= 0x0d
    ||| c as int == 0x20
    ||| c as int == 0x85
    ||| c as int == 0xa0
    ||| c as int == 0x1680
    ||| 0x2000 <= c as int <= 0x200a
    ||| c as int == 0x2028
    ||| c as int == 0x2029
    ||| c as int == 0x202f
    ||| c as int == 0x205f
    ||| c as int == 0x3000
}

/// The number of characters before the first white space.
pub open spec fn word_len(s: Seq<char>) -> int
    decreases s.len(),
{
    if s.len() == 0 || is_space(s[0]) {
        0
    } else {
        1 + word_len(s.skip(1))
    }
}

/// The maximal runs of characters that are not white space, in order.
pub open spec fn words(s: Seq<char>) -> Seq<Seq<char>>
    decreases s.len(),
    via words_decreases
{
    if s.len() == 0 {
        Seq::empty()
    } else if is_space(s[0]) {
        words(s.skip(1))
    } else {
        seq![s.take(word_len(s))] + words(s.skip(word_len(s)))
    }
}

#[via_fn]
proof fn words_decreases(s: Seq<char>) {
    lemma_word_len(s);
}

/// `s` without the white space at its two ends.
pub open spec fn trimmed(s: Seq<char>) -> Seq<char>
    decreases s.len(),
{
    if s.len() == 0 {
        s
    } else if is_space(s[0]) {
        trimmed(s.skip(1))
    } else if is_space(s.last()) {
        trimmed(s.drop_last())
    } else {
        s
    }
}

/// `s` without the occurrences of `c` at its end.
pub open spec fn without_trailing(s: Seq<char>, c: char) -> Seq<char>
    decreases s.len(),
{
    if s.len() > 0 && s.last() == c {
        without_trailing(s.drop_last(), c)
    } else {
        s
    }
}

pub open spec fn is_digit(c: char) -> bool {
    '0' <= c <= '9'
}

pub open spec fn digit(d: nat) -> char {
    (d + 48) as char
}

/// The decimal numeral of `n`.
pub open spec fn dec(n: nat) -> Seq<char>
    decreases n,
{
    if n < 10 {
        seq![digit(n)]
    } else {
        dec(n / 10).push(digit(n % 10))
    }
}

/// The decimal numeral of `n`, with a minus sign where `n` is negative.
pub open spec fn signed_dec(n: int) -> Seq<char> {
    if n < 0 {
        seq!['-'] + dec((-n) as nat)
    } else {
        dec(n as nat)
    }
}

/// `s` consists of decimal digits, at least one.
pub open spec fn is_numeral(s: Seq<char>) -> bool {
    &&& s.len() > 0
    &&& forall|i: int| 0 <= i < s.len() ==> is_digit(#[trigger] s[i])
}

/// The number that a run of decimal digits denotes.
pub open spec fn numeral_value(s: Seq<char>) -> nat
    decreases s.len(),
{
    if s.len() == 0 {
        0
    } else {
        (numeral_value(s.drop_last()) * 10 + (s.last() as int - 48)) as nat
    }
}

/// The pieces in order, with `sep` between neighbours.
pub open spec fn join(list: Seq<Seq<char>>, sep: Seq<char>) -> Seq<char>
    decreases list.len(),
{
    if list.len() == 0 {
        Seq::empty()
    } else if list.len() == 1 {
        list[0]
    } else {
        join(list.drop_last(), sep) + sep + list.last()
    }
}

/// Lexicographic order by code points.
pub open spec fn text_less(a: Seq<char>, b: Seq<char>) -> bool
    decreases a.len(),
{
    if b.len() == 0 {
        false
    } else if a.len() == 0 {
        true
    } else if a[0] == b[0] {
        text_less(a.skip(1), b.skip(1))
    } else {
        (a[0] as int) < (b[0] as int)
    }
}

/// The order of texts as a value.
pub open spec fn text_order() -> spec_fn(Seq<char>, Seq<char>) -> bool {
    |a: Seq<char>, b: Seq<char>| text_less(a, b)
}

/// The texts of `list` in ascending order, each once.
pub open spec fn sorted_texts(list: Seq<Seq<char>>) -> Seq<Seq<char>> {
    order::sorted_unique(list, text_order())
}

// ── Lemmas ──────────────────────────────────────────────────────────────

/// What `without_trailing` says: a front part of `s` that does not end in `c`.
pub proof fn lemma_without_trailing(s: Seq<char>, c: char)
    ensures
        without_trailing(s, c).len() <= s.len(),
        without_trailing(s, c) == s.take(without_trailing(s, c).len() as int),
        without_trailing(s, c).len() > 0 ==> without_trailing(s, c).last() != c,
        forall|i: int| without_trailing(s, c).len() <= i < s.len() ==> #[trigger] s[i] == c,
    decreases s.len(),
{
    if s.len() > 0 && s.last() == c {
        lemma_without_trailing(s.drop_last(), c);
        let w = without_trailing(s.drop_last(), c);
        assert(s.drop_last().take(w.len() as int) == s.take(w.len() as int));
        assert forall|i: int| w.len() <= i < s.len() implies #[trigger] s[i] == c by {
            if i < s.len() - 1 {
                assert(s.drop_last()[i] == c);
            }
        }
    } else {
        assert(s.take(s.len() as int) == s);
    }
}

/// What `first_at` says: no `c` stands before it, and one stands there unless
/// it is the length.
pub proof fn lemma_first_at(s: Seq<char>, c: char)
    ensures
        0 <= first_at(s, c) <= s.len(),
        forall|i: int| 0 <= i < first_at(s, c) ==> #[trigger] s[i] != c,
        first_at(s, c) < s.len() ==> s[first_at(s, c)] == c,
    decreases s.len(),
{
    if s.len() > 0 && s[0] != c {
        lemma_first_at(s.skip(1), c);
        assert forall|i: int| 0 <= i < first_at(s, c) implies #[trigger] s[i] != c by {
            if i > 0 {
                assert(s.skip(1)[i - 1] == s[i]);
            }
        }
    }
}

/// The first position is the only one with these properties.
pub proof fn lemma_first_at_unique(s: Seq<char>, c: char, k: int)
    requires
        0 <= k <= s.len(),
        forall|i: int| 0 <= i < k ==> #[trigger] s[i] != c,
        k < s.len() ==> s[k] == c,
    ensures
        first_at(s, c) == k,
{
    lemma_first_at(s, c);
    let f = first_at(s, c);
    if f < k {
        assert(s[f] != c);
    } else if k < f {
        assert(s[k] != c);
    }
}

pub proof fn lemma_word_len(s: Seq<char>)
    ensures
        0 <= word_len(s) <= s.len(),
        s.len() > 0 && !is_space(s[0]) ==> word_len(s) > 0,
        forall|i: int| 0 <= i < word_len(s) ==> !is_space(#[trigger] s[i]),
        word_len(s) < s.len() ==> is_space(s[word_len(s)]),
    decreases s.len(),
{
    if s.len() > 0 && !is_space(s[0]) {
        lemma_word_len(s.skip(1));
        assert forall|i: int| 0 <= i < word_len(s) implies !is_space(#[trigger] s[i]) by {
            if i > 0 {
                assert(s.skip(1)[i - 1] == s[i]);
            }
        }
    }
}

proof fn lemma_word_len_unique(s: Seq<char>, k: int)
    requires
        0 <= k <= s.len(),
        forall|i: int| 0 <= i < k ==> !is_space(#[trigger] s[i]),
        k < s.len() ==> is_space(s[k]),
    ensures
        word_len(s) == k,
{
    lemma_word_len(s);
    let f = word_len(s);
    if f < k {
        assert(!is_space(s[f]));
    } else if k < f {
        assert(!is_space(s[k]));
    }
}

/// A decimal numeral consists of digits and denotes its number.
pub proof fn lemma_dec(n: nat)
    ensures
        is_numeral(dec(n)),
        numeral_value(dec(n)) == n,
        dec(n).len() > 1 ==> dec(n)[0] != '0',
        n > 0 ==> dec(n)[0] != '0',
    decreases n,
{
    reveal_with_fuel(numeral_value, 2);
    if n < 10 {
        assert(dec(n) == seq![digit(n)]);
        assert(dec(n).drop_last() == Seq::<char>::empty());
    } else {
        lemma_dec(n / 10);
        let q = dec(n / 10);
        assert(dec(n) == q.push(digit(n % 10)));
        assert(dec(n).drop_last() == q);
        assert(dec(n)[0] == q[0]);
        assert forall|i: int| 0 <= i < dec(n).len() implies is_digit(#[trigger] dec(n)[i]) by {
            if i < q.len() {
                assert(dec(n)[i] == q[i]);
            }
        }
    }
}

/// Numerals below ten, a hundred and a thousand have one, two and three digits
/// at most.
pub proof fn lemma_dec_len(n: nat)
    ensures
        n < 10 <==> dec(n).len() == 1,
        10 <= n < 100 <==> dec(n).len() == 2,
        100 <= n < 1000 <==> dec(n).len() == 3,
        dec(n).len() >= 1,
    decreases n,
{
    if n >= 10 {
        lemma_dec_len(n / 10);
        assert(dec(n).len() == dec(n / 10).len() + 1);
    }
}

proof fn lemma_less_irreflexive(a: Seq<char>)
    ensures
        !text_less(a, a),
    decreases a.len(),
{
    if a.len() > 0 {
        lemma_less_irreflexive(a.skip(1));
    }
}

proof fn lemma_less_transitive(a: Seq<char>, b: Seq<char>, c: Seq<char>)
    requires
        text_less(a, b),
        text_less(b, c),
    ensures
        text_less(a, c),
    decreases a.len(),
{
    if a.len() > 0 && a[0] == b[0] && b[0] == c[0] {
        lemma_less_transitive(a.skip(1), b.skip(1), c.skip(1));
    }
}

proof fn lemma_less_total(a: Seq<char>, b: Seq<char>)
    ensures
        a == b || text_less(a, b) || text_less(b, a),
    decreases a.len(),
{
    if a.len() == 0 || b.len() == 0 {
        if a.len() == 0 && b.len() == 0 {
            assert(a == b);
        }
    } else if a[0] == b[0] {
        lemma_less_total(a.skip(1), b.skip(1));
        if a.skip(1) == b.skip(1) {
            assert(a == seq![a[0]] + a.skip(1));
            assert(b == seq![b[0]] + b.skip(1));
        }
    }
}

/// The sorted list of texts is strictly ascending and holds exactly the given
/// texts.
pub proof fn law_sorting_keeps_the_texts(list: Seq<Seq<char>>)
    ensures
        order::ascending(sorted_texts(list), text_order()),
        forall|x: Seq<char>| #[trigger] sorted_texts(list).contains(x) <==> list.contains(x),
{
    let less = text_order();
    assert forall|a: Seq<char>| !#[trigger] less(a, a) by {
        lemma_less_irreflexive(a);
    }
    assert forall|a: Seq<char>, b: Seq<char>, c: Seq<char>| #[trigger] less(a, b) && #[trigger] less(
        b,
        c,
    ) implies less(a, c) by {
        lemma_less_transitive(a, b, c);
    }
    assert forall|a: Seq<char>, b: Seq<char>| a == b || #[trigger] less(a, b) || less(b, a) by {
        lemma_less_total(a, b);
    }
    order::lemma_sorted_unique(list, less);
}

// ── Executable functions ────────────────────────────────────────────────

/// `String::push` appends one character at the end of the string.
pub assume_specification[ String::push ](s: &mut String, c: char)
    ensures
        final(s)@ == old(s)@.push(c),
;

/// The characters of `s`, in order.
pub fn chars_of(s: &str) -> (v: Vec<char>)
    ensures
        v@ == s@,
{
    let mut v: Vec<char> = Vec::new();
    for c in it: s.chars()
        invariant
            v@ == it.seq().take(it.index() as int),
    {
        v.push(c);
    }
    v
}

/// The string that holds exactly these characters.
pub fn string_of(v: &[char]) -> (s: String)
    ensures
        s@ == v@,
{
    let mut s = String::new();
    let mut i: usize = 0;
    while i < v.len()
        invariant
            i <= v.len(),
            s@ == v@.take(i as int),
        decreases v.len() - i,
    {
        s.push(v[i]);
        i = i + 1;
    }
    s
}

pub fn same_text(a: &str, b: &str) -> (r: bool)
    ensures
        r == (a@ == b@),
{
    a.to_owned() == b.to_owned()
}

pub fn same_chars(a: &[char], b: &[char]) -> (r: bool)
    ensures
        r == (a@ == b@),
{
    if a.len() != b.len() {
        return false;
    }
    let mut i: usize = 0;
    while i < a.len()
        invariant
            i <= a.len(),
            a.len() == b.len(),
            forall|j: int| 0 <= j < i ==> a@[j] == b@[j],
        decreases a.len() - i,
    {
        if a[i] != b[i] {
            return false;
        }
        i = i + 1;
    }
    assert(a@ == b@);
    true
}

/// Whether `s` begins with `pat`.
pub fn starts_with(s: &[char], pat: &str) -> (r: bool)
    ensures
        r == begins_with(s@, pat@),
{
    let p = chars_of(pat);
    if p.len() > s.len() {
        return false;
    }
    let head = slice_subrange(s, 0, p.len());
    assert(head@ == s@.take(pat@.len() as int));
    same_chars(head, p.as_slice())
}

/// Whether `pat` stands somewhere in `s`.
pub fn has(s: &[char], pat: &str) -> (r: bool)
    ensures
        r == contains(s@, pat@),
{
    let p = chars_of(pat);
    if p.len() > s.len() {
        return false;
    }
    if p.len() == 0 {
        assert(s@.subrange(0, 0) == pat@);
        assert(occurs_at(s@, pat@, 0));
        return true;
    }
    let last: usize = s.len() - p.len();
    let mut i: usize = 0;
    while i <= last
        invariant
            i <= last + 1,
            last == s.len() - p.len(),
            p.len() > 0,
            p@ == pat@,
            forall|j: int| 0 <= j < i ==> !occurs_at(s@, pat@, j),
        decreases last + 1 - i,
    {
        let part = slice_subrange(s, i, i + p.len());
        if same_chars(part, p.as_slice()) {
            assert(occurs_at(s@, pat@, i as int));
            return true;
        }
        i = i + 1;
    }
    false
}

pub fn text_has(s: &str, pat: &str) -> (r: bool)
    ensures
        r == contains(s@, pat@),
{
    has(chars_of(s).as_slice(), pat)
}

/// The position of the first `c`, or the length where there is none.
pub fn find(s: &[char], c: char) -> (k: usize)
    ensures
        k as int == first_at(s@, c),
        k <= s.len(),
{
    let mut k: usize = 0;
    while k < s.len() && s[k] != c
        invariant
            k <= s.len(),
            forall|j: int| 0 <= j < k ==> s@[j] != c,
        decreases s.len() - k,
    {
        k = k + 1;
    }
    proof {
        lemma_first_at_unique(s@, c, k as int);
    }
    k
}

pub fn lower_char(c: char) -> (r: char)
    ensures
        r == lower(c),
{
    if 'A' <= c && c <= 'Z' {
        ((c as u8) + 32) as char
    } else {
        c
    }
}

/// `s` with its upper-case ASCII letters lowered.
pub fn to_lower(s: &[char]) -> (v: Vec<char>)
    ensures
        v@ == lowered(s@),
{
    let mut v: Vec<char> = Vec::new();
    let mut i: usize = 0;
    while i < s.len()
        invariant
            i <= s.len(),
            v@ == lowered(s@).take(i as int),
        decreases s.len() - i,
    {
        v.push(lower_char(s[i]));
        i = i + 1;
    }
    v
}

pub fn space(c: char) -> (r: bool)
    ensures
        r == is_space(c),
{
    let u: u32 = c as u32;
    (0x09 <= u && u <= 0x0d) || u == 0x20 || u == 0x85 || u == 0xa0 || u == 0x1680 || (0x2000 <= u
        && u <= 0x200a) || u == 0x2028 || u == 0x2029 || u == 0x202f || u == 0x205f || u == 0x3000
}

/// The runs of characters of `s` that are not white space.
pub fn split_words(s: &[char]) -> (list: Vec<String>)
    ensures
        texts(list@) == words(s@),
{
    let mut list: Vec<String> = Vec::new();
    let mut i: usize = 0;
    assert(s@.skip(0) == s@);
    while i < s.len()
        invariant
            i <= s.len(),
            texts(list@) + words(s@.skip(i as int)) == words(s@),
        decreases s.len() - i,
    {
        let ghost rest = s@.skip(i as int);
        assert(rest[0] == s@[i as int]);
        if space(s[i]) {
            assert(rest.skip(1) == s@.skip(i + 1));
            i = i + 1;
        } else {
            let start: usize = i;
            while i < s.len() && !space(s[i])
                invariant
                    start <= i <= s.len(),
                    forall|j: int| start <= j < i ==> !is_space(s@[j]),
                decreases s.len() - i,
            {
                i = i + 1;
            }
            let ghost k = i - start;
            proof {
                assert forall|j: int| 0 <= j < k implies !is_space(#[trigger] rest[j]) by {
                    assert(rest[j] == s@[start + j]);
                }
                if k < rest.len() {
                    assert(rest[k] == s@[start + k]);
                }
                lemma_word_len_unique(rest, k);
                assert(rest.take(k) == s@.subrange(start as int, i as int));
                assert(rest.skip(k) == s@.skip(i as int));
            }
            let ghost before_push = texts(list@);
            list.push(string_of(slice_subrange(s, start, i)));
            assert(texts(list@) == before_push + seq![rest.take(k)]);
        }
    }
    assert(words(s@.skip(i as int)) == Seq::<Seq<char>>::empty());
    list
}

/// The pieces of `s` between occurrences of `c`.
pub fn split_at_char(s: &[char], c: char) -> (list: Vec<Vec<char>>)
    ensures
        list@.len() == split(s@, c).len(),
        forall|i: int| 0 <= i < list@.len() ==> (#[trigger] list@[i])@ == split(s@, c)[i],
{
    let mut list: Vec<Vec<char>> = Vec::new();
    let mut rest: &[char] = s;
    let ghost all = split(s@, c);
    loop
        invariant_except_break
            all == split(s@, c),
            list@.len() + split(rest@, c).len() == all.len(),
            forall|i: int| 0 <= i < list@.len() ==> (#[trigger] list@[i])@ == all[i],
            split(rest@, c) == all.skip(list@.len() as int),
        ensures
            list@.len() == all.len(),
            forall|i: int| 0 <= i < list@.len() ==> (#[trigger] list@[i])@ == all[i],
        decreases rest.len(),
    {
        let k: usize = find(rest, c);
        let ghost here = split(rest@, c);
        if k >= rest.len() {
            let piece = vstd::slice::slice_to_vec(rest);
            assert(here == seq![rest@]);
            assert(here[0] == all[list@.len() as int]);
            list.push(piece);
            break ;
        }
        let piece = vstd::slice::slice_to_vec(slice_subrange(rest, 0, k));
        let tail = slice_subrange(rest, k + 1, rest.len());
        proof {
            assert(piece@ == rest@.take(k as int));
            assert(tail@ == rest@.skip(k + 1));
            assert(here == seq![piece@] + split(tail@, c));
            assert(here[0] == all[list@.len() as int]);
            assert(split(tail@, c) == here.skip(1));
            assert(here.skip(1) == all.skip(list@.len() as int + 1));
        }
        list.push(piece);
        rest = tail;
    }
    list
}

/// `s` without the white space at its two ends.
pub fn trim(s: &[char]) -> (r: &[char])
    ensures
        r@ == trimmed(s@),
{
    let mut lo: usize = 0;
    let mut hi: usize = s.len();
    assert(s@.subrange(0, s@.len() as int) == s@);
    loop
        invariant
            lo <= hi <= s.len(),
            trimmed(s@.subrange(lo as int, hi as int)) == trimmed(s@),
        decreases hi - lo,
    {
        let ghost cur = s@.subrange(lo as int, hi as int);
        if lo < hi && space(s[lo]) {
            assert(cur.skip(1) == s@.subrange(lo + 1, hi as int));
            lo = lo + 1;
        } else if lo < hi && space(s[hi - 1]) {
            assert(cur.drop_last() == s@.subrange(lo as int, hi - 1));
            hi = hi - 1;
        } else {
            return slice_subrange(s, lo, hi);
        }
    }
}

/// `s` without the occurrences of `c` at its end.
pub fn trim_end(s: &str, c: char) -> (r: String)
    ensures
        r@ == without_trailing(s@, c),
{
    let v = chars_of(s);
    let mut hi: usize = v.len();
    assert(v@.take(hi as int) == v@);
    while hi > 0 && v[hi - 1] == c
        invariant
            hi <= v.len(),
            without_trailing(v@.take(hi as int), c) == without_trailing(v@, c),
        decreases hi,
    {
        assert(v@.take(hi as int).drop_last() == v@.take(hi - 1));
        hi = hi - 1;
    }
    string_of(slice_subrange(v.as_slice(), 0, hi))
}

/// Appends the decimal numeral of `n`.
pub fn push_dec(s: &mut String, n: u64)
    ensures
        final(s)@ == old(s)@ + dec(n as nat),
    decreases n,
{
    if n >= 10 {
        push_dec(s, n / 10);
    }
    s.push(((n % 10) as u8 + 48) as char);
}

/// The decimal numeral of `n`.
pub fn dec_text(n: u64) -> (s: String)
    ensures
        s@ == dec(n as nat),
{
    let mut s = String::new();
    push_dec(&mut s, n);
    s
}

/// The decimal numeral of a signed number.
pub fn signed_text(n: i64) -> (s: String)
    ensures
        s@ == signed_dec(n as int),
{
    let mut s = String::new();
    if n < 0 {
        s.push('-');
        let m: u64 = (-(n as i128)) as u64;
        push_dec(&mut s, m);
    } else {
        push_dec(&mut s, n as u64);
    }
    s
}

/// The value of a decimal numeral that does not exceed `max`; `None` for
/// anything else.
pub fn numeral(s: &[char], max: u64) -> (r: Option<u64>)
    requires
        max <= 0xffff_ffff,
    ensures
        match r {
            Some(n) => is_numeral(s@) && numeral_value(s@) == n && n <= max,
            None => !is_numeral(s@) || numeral_value(s@) > max,
        },
{
    if s.len() == 0 {
        return None;
    }
    let mut n: u64 = 0;
    let mut over: bool = false;
    let mut i: usize = 0;
    assert(s@.take(0) == Seq::<char>::empty());
    while i < s.len()
        invariant
            i <= s.len(),
            max <= 0xffff_ffff,
            forall|j: int| 0 <= j < i ==> is_digit(#[trigger] s@[j]),
            !over ==> n == numeral_value(s@.take(i as int)) && n <= max,
            over ==> numeral_value(s@.take(i as int)) > max,
        decreases s.len() - i,
    {
        let c = s[i];
        if c < '0' || c > '9' {
            assert(!is_digit(s@[i as int]));
            return None;
        }
        let ghost head = s@.take(i + 1);
        assert(head.drop_last() == s@.take(i as int));
        assert(head.last() == c);
        assert(numeral_value(head) == numeral_value(s@.take(i as int)) * 10 + (c as int - 48));
        if !over {
            n = n * 10 + ((c as u32) - 48) as u64;
            if n > max {
                over = true;
            }
        }
        i = i + 1;
    }
    assert(s@.take(s@.len() as int) == s@);
    if over {
        None
    } else {
        Some(n)
    }
}

/// The strings of `list` with `sep` between neighbours.
pub fn join_texts(list: &[String], sep: &str) -> (s: String)
    ensures
        s@ == join(texts(list@), sep@),
{
    let mut s = String::new();
    let mut i: usize = 0;
    let ghost all = texts(list@);
    while i < list.len()
        invariant
            i <= list.len(),
            all == texts(list@),
            s@ == join(all.take(i as int), sep@),
        decreases list.len() - i,
    {
        assert(all.take(i + 1).drop_last() == all.take(i as int));
        assert(all.take(i + 1).last() == list@[i as int]@);
        if i > 0 {
            s.append(sep);
        }
        s.append(list[i].as_str());
        i = i + 1;
    }
    assert(all.take(all.len() as int) == all);
    s
}

/// Whether `a` comes before `b` in lexicographic order.
pub fn less(a: &str, b: &str) -> (r: bool)
    ensures
        r == text_less(a@, b@),
{
    let x = chars_of(a);
    let y = chars_of(b);
    let mut i: usize = 0;
    assert(x@.skip(0) == x@);
    assert(y@.skip(0) == y@);
    loop
        invariant
            i <= x.len(),
            i <= y.len(),
            x@ == a@,
            y@ == b@,
            text_less(x@.skip(i as int), y@.skip(i as int)) == text_less(a@, b@),
        decreases x.len() - i,
    {
        let ghost xs = x@.skip(i as int);
        let ghost ys = y@.skip(i as int);
        if i == y.len() {
            return false;
        }
        if i == x.len() {
            return true;
        }
        assert(xs[0] == x@[i as int] && ys[0] == y@[i as int]);
        if x[i] != y[i] {
            return x[i] < y[i];
        }
        assert(xs.skip(1) == x@.skip(i + 1));
        assert(ys.skip(1) == y@.skip(i + 1));
        i = i + 1;
    }
}

/// Puts `t` into the sorted list unless it is there already.
pub fn insert_sorted(list: &mut Vec<String>, t: String)
    ensures
        texts(final(list)@) == order::inserted(texts(old(list)@), t@, text_order()),
{
    let ghost all = texts(list@);
    let mut k: usize = 0;
    assert(all.skip(0) == all);
    assert(all.take(0) + order::inserted(all.skip(0), t@, text_order()) == order::inserted(all, t@, text_order()));
    while k < list.len() && !same_text(list[k].as_str(), t.as_str()) && !less(
        t.as_str(),
        list[k].as_str(),
    )
        invariant
            k <= list.len(),
            all == texts(list@),
            all.take(k as int) + order::inserted(all.skip(k as int), t@, text_order()) == order::inserted(all, t@, text_order()),
        decreases list.len() - k,
    {
        let ghost rest = all.skip(k as int);
        assert(rest[0] == all[k as int]);
        assert(rest.skip(1) == all.skip(k + 1));
        assert(all.take(k + 1) == all.take(k as int) + seq![rest[0]]);
        assert(all.take(k + 1) + order::inserted(all.skip(k + 1), t@, text_order()) == all.take(k as int) + order::inserted(
            rest,
            t@,
            text_order(),
        ));
        k = k + 1;
    }
    let ghost rest = all.skip(k as int);
    if k < list.len() && same_text(list[k].as_str(), t.as_str()) {
        assert(rest[0] == t@);
        assert(all.take(k as int) + rest == all);
    } else {
        let ghost tv = t@;
        let ghost old_list = list@;
        list.insert(k, t);
        proof {
            assert(order::inserted(rest, tv, text_order()) == seq![tv] + rest) by {
                if rest.len() > 0 {
                    assert(rest[0] == all[k as int]);
                }
            }
            assert(texts(list@) == all.take(k as int) + (seq![tv] + rest));
        }
    }
}

} // verus!
