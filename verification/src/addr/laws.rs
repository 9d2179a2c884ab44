//! What reading, writing and sorting addresses promise together.

use crate::addr;
use crate::addr::IpAddr;
use crate::order;
use crate::text;
use vstd::prelude::*;

verus! {

// ── Order ───────────────────────────────────────────────────────────────

proof fn lemma_parts_irreflexive(a: Seq<u16>)
    ensures
        !addr::parts_less(a, a),
    decreases a.len(),
{
    if a.len() > 0 {
        lemma_parts_irreflexive(a.skip(1));
    }
}

proof fn lemma_parts_transitive(a: Seq<u16>, b: Seq<u16>, c: Seq<u16>)
    requires
        addr::parts_less(a, b),
        addr::parts_less(b, c),
    ensures
        addr::parts_less(a, c),
    decreases a.len(),
{
    if a.len() > 0 && a[0] == b[0] && b[0] == c[0] {
        lemma_parts_transitive(a.skip(1), b.skip(1), c.skip(1));
    }
}

proof fn lemma_parts_total(a: Seq<u16>, b: Seq<u16>)
    requires
        a.len() == b.len(),
    ensures
        a == b || addr::parts_less(a, b) || addr::parts_less(b, a),
    decreases a.len(),
{
    if a.len() == 0 {
        assert(a == b);
    } else if a[0] == b[0] {
        lemma_parts_total(a.skip(1), b.skip(1));
        if a.skip(1) == b.skip(1) {
            assert(a == seq![a[0]] + a.skip(1));
            assert(b == seq![b[0]] + b.skip(1));
        }
    }
}

proof fn lemma_parts_determine(a: IpAddr, b: IpAddr)
    requires
        (a is V4) == (b is V4),
        a.parts() == b.parts(),
    ensures
        a == b,
{
    let p = a.parts();
    let q = b.parts();
    assert(p[0] == q[0] && p[1] == q[1] && p[2] == q[2] && p[3] == q[3]);
    if a is V6 {
        assert(p[4] == q[4] && p[5] == q[5] && p[6] == q[6] && p[7] == q[7]);
    }
}

/// Addresses are totally ordered; sorting puts a list into ascending order, keeps
/// every address of it, each once, and adds none.
pub proof fn law_sorting_keeps_the_addresses(list: Seq<IpAddr>)
    ensures
        order::strict_total(addr::ip_order()),
        order::ascending(addr::sorted_ips(list), addr::ip_order()),
        forall|ip: IpAddr| #[trigger] addr::sorted_ips(list).contains(ip) <==> list.contains(ip),
{
    let less = addr::ip_order();
    assert forall|a: IpAddr| !#[trigger] less(a, a) by {
        lemma_parts_irreflexive(a.parts());
    }
    assert forall|a: IpAddr, b: IpAddr, c: IpAddr| #[trigger] less(a, b) && #[trigger] less(
        b,
        c,
    ) implies less(a, c) by {
        if (a is V4) == (b is V4) && (b is V4) == (c is V4) {
            lemma_parts_transitive(a.parts(), b.parts(), c.parts());
        }
    }
    assert forall|a: IpAddr, b: IpAddr| a == b || #[trigger] less(a, b) || less(b, a) by {
        if (a is V4) == (b is V4) {
            lemma_parts_total(a.parts(), b.parts());
            if a.parts() == b.parts() {
                lemma_parts_determine(a, b);
            }
        }
    }
    order::lemma_sorted_unique(list, less);
}

// ── Splitting what was joined ───────────────────────────────────────────

/// `c` does not occur in `s`.
pub open spec fn free_of(s: Seq<char>, c: char) -> bool {
    forall|i: int| 0 <= i < s.len() ==> #[trigger] s[i] != c
}

proof fn lemma_split_whole(s: Seq<char>, c: char)
    requires
        free_of(s, c),
    ensures
        text::split(s, c) == seq![s],
{
    text::lemma_first_at(s, c);
}

/// A separator between two texts splits them.
pub proof fn lemma_split_append(s: Seq<char>, t: Seq<char>, c: char)
    ensures
        text::split(s + seq![c] + t, c) == text::split(s, c) + text::split(t, c),
    decreases s.len(),
{
    let all = s + seq![c] + t;
    let k = text::first_at(s, c);
    text::lemma_first_at(s, c);
    if k >= s.len() {
        assert(all[s.len() as int] == c);
        assert forall|i: int| 0 <= i < s.len() implies all[i] != c by {
            assert(all[i] == s[i]);
        }
        text::lemma_first_at_unique(all, c, s.len() as int);
        assert(all.take(s.len() as int) == s);
        assert(all.skip(s.len() as int + 1) == t);
    } else {
        assert(all[k] == s[k]);
        assert forall|i: int| 0 <= i < k implies all[i] != c by {
            assert(all[i] == s[i]);
        }
        text::lemma_first_at_unique(all, c, k);
        assert(all.take(k) == s.take(k));
        assert(all.skip(k + 1) == s.skip(k + 1) + seq![c] + t);
        lemma_split_append(s.skip(k + 1), t, c);
        assert(text::split(all, c) == seq![s.take(k)] + (text::split(s.skip(k + 1), c)
            + text::split(t, c)));
        assert(text::split(s, c) == seq![s.take(k)] + text::split(s.skip(k + 1), c));
    }
}

/// Texts without the separator are split again where they were joined.
pub proof fn lemma_split_join(list: Seq<Seq<char>>, c: char)
    requires
        list.len() > 0,
        forall|i: int| 0 <= i < list.len() ==> free_of(#[trigger] list[i], c),
    ensures
        text::split(text::join(list, seq![c]), c) == list,
    decreases list.len(),
{
    if list.len() == 1 {
        lemma_split_whole(list[0], c);
        assert(list == seq![list[0]]);
    } else {
        let init = list.drop_last();
        assert forall|i: int| 0 <= i < init.len() implies free_of(#[trigger] init[i], c) by {
            assert(init[i] == list[i]);
        }
        lemma_split_join(init, c);
        assert(free_of(list[list.len() - 1], c));
        lemma_split_whole(list.last(), c);
        lemma_split_append(text::join(init, seq![c]), list.last(), c);
        assert(list == init + seq![list.last()]);
    }
}

// ── IPv4 ────────────────────────────────────────────────────────────────

proof fn lemma_octet(a: u8)
    ensures
        addr::octet(text::dec(a as nat)) == Some(a),
        free_of(text::dec(a as nat), '.'),
        free_of(text::dec(a as nat), ':'),
{
    let s = text::dec(a as nat);
    text::lemma_dec(a as nat);
    text::lemma_dec_len(a as nat);
    assert forall|i: int| 0 <= i < s.len() implies #[trigger] s[i] != '.' && s[i] != ':' by {
        assert(text::is_digit(s[i]));
    }
}

proof fn lemma_v4_pieces(head: Seq<char>, a: u8, b: u8, c: u8, d: u8)
    requires
        free_of(head, '.'),
    ensures
        text::split(head + addr::v4_text(a, b, c, d), '.') == seq![
            head + text::dec(a as nat),
            text::dec(b as nat),
            text::dec(c as nat),
            text::dec(d as nat),
        ],
{
    reveal_strlit(".");
    lemma_octet(a);
    lemma_octet(b);
    lemma_octet(c);
    lemma_octet(d);
    let (p, q, r, s) = (
        head + text::dec(a as nat),
        text::dec(b as nat),
        text::dec(c as nat),
        text::dec(d as nat),
    );
    assert forall|i: int| 0 <= i < p.len() implies #[trigger] p[i] != '.' by {
        if i >= head.len() {
            assert(p[i] == text::dec(a as nat)[i - head.len()]);
        }
    }
    lemma_split_whole(p, '.');
    lemma_split_whole(q, '.');
    lemma_split_whole(r, '.');
    lemma_split_whole(s, '.');
    assert("."@ == seq!['.']);
    lemma_split_append(p, q, '.');
    lemma_split_append(p + seq!['.'] + q, r, '.');
    lemma_split_append(p + seq!['.'] + q + seq!['.'] + r, s, '.');
    assert(head + addr::v4_text(a, b, c, d) == p + seq!['.'] + q + seq!['.'] + r + seq!['.'] + s);
    assert(seq![p] + seq![q] + seq![r] + seq![s] == seq![p, q, r, s]);
}

proof fn lemma_v4_read_back(a: u8, b: u8, c: u8, d: u8)
    ensures
        addr::v4_of(addr::v4_text(a, b, c, d)) == Some(IpAddr::V4(a, b, c, d)),
        free_of(addr::v4_text(a, b, c, d), ':'),
{
    lemma_v4_pieces(Seq::empty(), a, b, c, d);
    lemma_octet(a);
    lemma_octet(b);
    lemma_octet(c);
    lemma_octet(d);
    assert(Seq::<char>::empty() + addr::v4_text(a, b, c, d) == addr::v4_text(a, b, c, d));
    assert(Seq::<char>::empty() + text::dec(a as nat) == text::dec(a as nat));
    reveal_strlit(".");
    lemma_free_of_append(text::dec(a as nat), "."@, ':');
    lemma_free_of_append(text::dec(a as nat) + "."@, text::dec(b as nat), ':');
    lemma_free_of_append(text::dec(a as nat) + "."@ + text::dec(b as nat), "."@, ':');
    lemma_free_of_append(
        text::dec(a as nat) + "."@ + text::dec(b as nat) + "."@,
        text::dec(c as nat),
        ':',
    );
    lemma_free_of_append(
        text::dec(a as nat) + "."@ + text::dec(b as nat) + "."@ + text::dec(c as nat),
        "."@,
        ':',
    );
    lemma_free_of_append(
        text::dec(a as nat) + "."@ + text::dec(b as nat) + "."@ + text::dec(c as nat) + "."@,
        text::dec(d as nat),
        ':',
    );
}

proof fn lemma_free_of_append(s: Seq<char>, t: Seq<char>, c: char)
    requires
        free_of(s, c),
        free_of(t, c),
    ensures
        free_of(s + t, c),
{
    assert forall|i: int| 0 <= i < (s + t).len() implies #[trigger] (s + t)[i] != c by {
        if i < s.len() {
            assert((s + t)[i] == s[i]);
        } else {
            assert((s + t)[i] == t[i - s.len()]);
        }
    }
}

// ── IPv6 ────────────────────────────────────────────────────────────────

proof fn lemma_hex(n: nat)
    requires
        n < 0x10000,
    ensures
        addr::hex_value(addr::hex(n)) == Some(n),
        1 <= addr::hex(n).len() <= (if n < 16 {
            1int
        } else if n < 256 {
            2
        } else if n < 4096 {
            3
        } else {
            4
        }),
        free_of(addr::hex(n), ':'),
        free_of(addr::hex(n), '.'),
    decreases n,
{
    reveal_with_fuel(addr::hex_value, 2);
    let s = addr::hex(n);
    if n < 16 {
        assert(s.drop_last() == Seq::<char>::empty());
        assert(s.last() == addr::hex_char(n));
    } else {
        lemma_hex(n / 16);
        let q = addr::hex(n / 16);
        assert(s.drop_last() == q);
        assert forall|i: int| 0 <= i < s.len() implies #[trigger] s[i] != ':' && s[i] != '.' by {
            if i < q.len() {
                assert(s[i] == q[i]);
            }
        }
    }
}

proof fn lemma_group(n: u16)
    ensures
        addr::group(addr::hex(n as nat)) == Some(n),
        addr::last_groups(addr::hex(n as nat), true) == Some(seq![n]),
        addr::last_groups(addr::hex(n as nat), false) == Some(seq![n]),
{
    lemma_hex(n as nat);
    lemma_split_whole(addr::hex(n as nat), '.');
}

spec fn hex_list(g: Seq<u16>) -> Seq<Seq<char>> {
    Seq::new(g.len(), |i: int| addr::hex(g[i] as nat))
}

proof fn lemma_groups_read_back(g: Seq<u16>, tail: bool)
    ensures
        addr::groups_of(hex_list(g), tail) == Some(g),
    decreases g.len(),
{
    if g.len() == 0 {
        assert(g == Seq::<u16>::empty());
    } else {
        lemma_groups_read_back(g.drop_last(), false);
        assert(hex_list(g).drop_last() == hex_list(g.drop_last()));
        lemma_group(g.last());
        assert(g == g.drop_last() + seq![g.last()]);
    }
}

/// No two colons stand side by side.
spec fn no_double(s: Seq<char>) -> bool {
    forall|i: int| 0 <= i < s.len() - 1 && #[trigger] s[i] == ':' ==> s[i + 1] != ':'
}

proof fn lemma_hex_groups_shape(g: Seq<u16>)
    requires
        g.len() > 0,
    ensures
        addr::hex_groups(g).len() > 0,
        addr::hex_groups(g)[0] != ':',
        addr::hex_groups(g).last() != ':',
        no_double(addr::hex_groups(g)),
        free_of(addr::hex_groups(g), '.'),
    decreases g.len(),
{
    reveal_strlit(":");
    let list = hex_list(g);
    let s = addr::hex_groups(g);
    lemma_hex(g.last() as nat);
    let back = addr::hex(g.last() as nat);
    if g.len() == 1 {
        assert(s == back);
    } else {
        let front = addr::hex_groups(g.drop_last());
        lemma_hex_groups_shape(g.drop_last());
        assert(list.drop_last() == hex_list(g.drop_last()));
        assert(s == front + ":"@ + back);
        assert(s[0] == front[0]);
        assert(s.last() == back.last());
        assert forall|i: int| 0 <= i < s.len() - 1 && #[trigger] s[i] == ':' implies s[i + 1] != ':' by {
            if i < front.len() {
                assert(s[i] == front[i]);
                if i < front.len() - 1 {
                    assert(s[i + 1] == front[i + 1]);
                }
            } else {
                assert(s[i + 1] == back[i - front.len()]);
            }
        }
        lemma_free_of_append(front, ":"@, '.');
        lemma_free_of_append(front + ":"@, back, '.');
    }
}

proof fn lemma_double_colon(s: Seq<char>, k: int)
    requires
        0 <= k <= s.len(),
        k < s.len() ==> k + 1 < s.len() && s[k] == ':' && s[k + 1] == ':',
        forall|i: int| 0 <= i < k && i + 1 < s.len() && #[trigger] s[i] == ':' ==> s[i + 1] != ':',
    ensures
        addr::double_colon(s) == k,
    decreases s.len(),
{
    if s.len() >= 2 && k > 0 {
        let rest = s.skip(1);
        assert(s[0] == ':' ==> s[1] != ':');
        assert forall|i: int| 0 <= i < k - 1 && i + 1 < rest.len() && #[trigger] rest[i] == ':' implies rest[i
            + 1] != ':' by {
            assert(rest[i] == s[i + 1]);
            assert(rest[i + 1] == s[i + 2]);
        }
        lemma_double_colon(rest, k - 1);
    }
}

proof fn lemma_side_read_back(g: Seq<u16>, tail: bool)
    ensures
        addr::side(addr::hex_groups(g), tail) == Some(g),
{
    reveal_strlit(":");
    if g.len() == 0 {
        assert(g == Seq::<u16>::empty());
    } else {
        lemma_hex_groups_shape(g);
        let list = hex_list(g);
        assert forall|i: int| 0 <= i < list.len() implies free_of(#[trigger] list[i], ':') by {
            lemma_hex(g[i] as nat);
        }
        assert(":"@ == seq![':']);
        lemma_split_join(list, ':');
        lemma_groups_read_back(g, tail);
    }
}

proof fn lemma_zero_run(g: Seq<u16>, i: int)
    requires
        0 <= i <= g.len(),
    ensures
        i + addr::zero_run(g, i) <= g.len(),
        forall|j: int| i <= j < i + addr::zero_run(g, i) ==> #[trigger] g[j] == 0,
    decreases g.len() - i,
{
    if i < g.len() && g[i] == 0 {
        lemma_zero_run(g, i + 1);
    }
}

proof fn lemma_longest_run(g: Seq<u16>, k: nat)
    requires
        k <= g.len(),
    ensures
        ({
            let run = addr::longest_run(g, k);
            &&& 0 <= run.0
            &&& run.0 + run.1 <= g.len()
            &&& forall|j: int| run.0 <= j < run.0 + run.1 ==> #[trigger] g[j] == 0
        }),
    decreases k,
{
    if k > 0 {
        lemma_longest_run(g, (k - 1) as nat);
        lemma_zero_run(g, k - 1);
    }
}

proof fn lemma_v6_read_back(g: Seq<u16>)
    requires
        g.len() == 8,
    ensures
        addr::v6_groups(addr::v6_text(g)) == Some(g),
        addr::v4_of(addr::v6_text(g)) is None,
{
    reveal_strlit("::");
    let s = addr::v6_text(g);
    let (start, len) = addr::longest_run(g, 8);
    lemma_longest_run(g, 8);
    if len > 1 {
        let h = g.take(start);
        let t = g.skip(start + len);
        let front = addr::hex_groups(h);
        let back = addr::hex_groups(t);
        let k = front.len() as int;
        assert(s == front + "::"@ + back);
        if h.len() > 0 {
            lemma_hex_groups_shape(h);
        }
        if t.len() > 0 {
            lemma_hex_groups_shape(t);
        }
        assert(s[k] == ':' && s[k + 1] == ':');
        assert forall|i: int| 0 <= i < k && i + 1 < s.len() && #[trigger] s[i] == ':' implies s[i + 1]
            != ':' by {
            assert(s[i] == front[i]);
            if i + 1 < k {
                assert(s[i + 1] == front[i + 1]);
            }
        }
        lemma_double_colon(s, k);
        assert(s.take(k) == front);
        assert(s.skip(k + 2) == back);
        lemma_side_read_back(h, false);
        lemma_side_read_back(t, true);
        assert(h + addr::zeros(8 - h.len() - t.len()) + t == g);
        lemma_free_of_append(front, "::"@, '.');
        lemma_free_of_append(front + "::"@, back, '.');
    } else {
        lemma_hex_groups_shape(g);
        lemma_double_colon(s, s.len() as int);
        lemma_side_read_back(g, true);
    }
    lemma_split_whole(s, '.');
}

proof fn lemma_mapped_tail(g: u16, h: u16)
    ensures
        addr::side(seq!['f', 'f', 'f', 'f', ':'] + mapped_v4(g, h), true) == Some(
            seq![0xffffu16, g, h],
        ),
{
    let (a, b, c, d) = ((g / 256) as u8, (g % 256) as u8, (h / 256) as u8, (h % 256) as u8);
    let v4 = mapped_v4(g, h);
    let ffff = seq!['f', 'f', 'f', 'f'];
    let s = seq!['f', 'f', 'f', 'f', ':'] + v4;
    lemma_v4_read_back(a, b, c, d);
    lemma_split_whole(ffff, ':');
    lemma_split_whole(v4, ':');
    lemma_split_append(ffff, v4, ':');
    assert(s == ffff + seq![':'] + v4);
    let pieces = seq![ffff, v4];
    assert(text::split(s, ':') == pieces) by {
        assert(seq![ffff] + seq![v4] == pieces);
    }
    let one = seq![0xffffu16];
    assert(hex_list(one) == seq![ffff]) by {
        assert(addr::hex(15) == seq!['f']);
        assert(addr::hex(255) == seq!['f', 'f']);
        assert(addr::hex(4095) == seq!['f', 'f', 'f']);
        assert(addr::hex(65535) == ffff);
    }
    lemma_groups_read_back(one, false);
    assert(pieces.drop_last() == seq![ffff]);
    assert((a * 256 + b) as u16 == g && (c * 256 + d) as u16 == h);
    assert(addr::last_groups(v4, true) == Some(seq![g, h]));
    assert(one + seq![g, h] == seq![0xffffu16, g, h]);
}

spec fn mapped_v4(g: u16, h: u16) -> Seq<char> {
    addr::v4_text((g / 256) as u8, (g % 256) as u8, (h / 256) as u8, (h % 256) as u8)
}

proof fn lemma_mapped_is_not_v4(a: u8, b: u8, c: u8, d: u8)
    ensures
        addr::v4_of("::ffff:"@ + addr::v4_text(a, b, c, d)) is None,
{
    reveal_strlit("::ffff:");
    let first = "::ffff:"@ + text::dec(a as nat);
    lemma_v4_pieces("::ffff:"@, a, b, c, d);
    assert(first[0] == ':');
    assert(!text::is_digit(first[0]));
    assert(addr::octet(first) is None);
}

proof fn lemma_mapped_read_back(g: u16, h: u16)
    ensures
        addr::v6_groups("::ffff:"@ + mapped_v4(g, h)) == Some(
            seq![0u16, 0, 0, 0, 0, 0xffff, g, h],
        ),
{
    let s = "::ffff:"@ + mapped_v4(g, h);
    let t = seq![0xffffu16, g, h];
    reveal_strlit("::ffff:");
    assert(s[0] == ':' && s[1] == ':');
    lemma_double_colon(s, 0);
    assert(s.take(0) == Seq::<char>::empty());
    assert(s.skip(2) == seq!['f', 'f', 'f', 'f', ':'] + mapped_v4(g, h));
    lemma_mapped_tail(g, h);
    assert(Seq::<u16>::empty() + addr::zeros(5) + t == seq![0u16, 0, 0, 0, 0, 0xffff, g, h]);
}

/// A digit, a lower-case hexadecimal letter, a dot or a colon.
pub open spec fn is_symbol(c: char) -> bool {
    ||| '0' <= c <= '9'
    ||| 'a' <= c <= 'f'
    ||| c == '.'
    ||| c == ':'
}

pub open spec fn all_symbols(s: Seq<char>) -> bool {
    forall|i: int| 0 <= i < s.len() ==> is_symbol(#[trigger] s[i])
}

proof fn lemma_symbols_append(s: Seq<char>, t: Seq<char>)
    requires
        all_symbols(s),
        all_symbols(t),
    ensures
        all_symbols(s + t),
{
    assert forall|i: int| 0 <= i < (s + t).len() implies is_symbol(#[trigger] (s + t)[i]) by {
        if i < s.len() {
            assert((s + t)[i] == s[i]);
        } else {
            assert((s + t)[i] == t[i - s.len()]);
        }
    }
}

proof fn lemma_dec_symbols(n: nat)
    ensures
        all_symbols(text::dec(n)),
{
    text::lemma_dec(n);
    let s = text::dec(n);
    assert forall|i: int| 0 <= i < s.len() implies is_symbol(#[trigger] s[i]) by {
        assert(text::is_digit(s[i]));
    }
}

proof fn lemma_hex_symbols(n: nat)
    ensures
        all_symbols(addr::hex(n)),
        addr::hex(n).len() > 0,
    decreases n,
{
    if n >= 16 {
        lemma_hex_symbols(n / 16);
        assert(addr::hex(n) == addr::hex(n / 16) + seq![addr::hex_char(n % 16)]);
        lemma_symbols_append(addr::hex(n / 16), seq![addr::hex_char(n % 16)]);
    }
}

proof fn lemma_groups_symbols(g: Seq<u16>)
    ensures
        all_symbols(addr::hex_groups(g)),
    decreases g.len(),
{
    reveal_strlit(":");
    let list = hex_list(g);
    if g.len() == 1 {
        lemma_hex_symbols(g[0] as nat);
    } else if g.len() > 1 {
        lemma_groups_symbols(g.drop_last());
        lemma_hex_symbols(g.last() as nat);
        assert(list.drop_last() == hex_list(g.drop_last()));
        let front = addr::hex_groups(g.drop_last());
        let back = addr::hex(g.last() as nat);
        lemma_symbols_append(front, ":"@);
        lemma_symbols_append(front + ":"@, back);
        assert(addr::hex_groups(g) == front + ":"@ + back);
    }
}

proof fn lemma_v4_symbols(a: u8, b: u8, c: u8, d: u8)
    ensures
        all_symbols(addr::v4_text(a, b, c, d)),
        addr::v4_text(a, b, c, d).len() > 0,
{
    reveal_strlit(".");
    let (p, q, r, s) = (
        text::dec(a as nat),
        text::dec(b as nat),
        text::dec(c as nat),
        text::dec(d as nat),
    );
    lemma_dec_symbols(a as nat);
    lemma_dec_symbols(b as nat);
    lemma_dec_symbols(c as nat);
    lemma_dec_symbols(d as nat);
    lemma_symbols_append(p, "."@);
    lemma_symbols_append(p + "."@, q);
    lemma_symbols_append(p + "."@ + q, "."@);
    lemma_symbols_append(p + "."@ + q + "."@, r);
    lemma_symbols_append(p + "."@ + q + "."@ + r, "."@);
    lemma_symbols_append(p + "."@ + q + "."@ + r + "."@, s);
}

/// An address is written with digits, lower-case hexadecimal letters, dots and colons
/// alone.
pub proof fn law_addresses_are_plain(ip: IpAddr)
    ensures
        all_symbols(ip.shown()),
        ip.shown().len() > 0,
{
    match ip {
        IpAddr::V4(a, b, c, d) => {
            lemma_v4_symbols(a, b, c, d);
        },
        IpAddr::V6(_, _, _, _, _, _, g, h) => {
            if ip.is_mapped() {
                reveal_strlit("::ffff:");
                let (a, b, c, d) = (
                    (g / 256) as u8,
                    (g % 256) as u8,
                    (h / 256) as u8,
                    (h % 256) as u8,
                );
                lemma_v4_symbols(a, b, c, d);
                lemma_symbols_append("::ffff:"@, addr::v4_text(a, b, c, d));
            } else {
                let parts = ip.parts();
                let run = addr::longest_run(parts, 8);
                reveal_strlit("::");
                if run.1 > 1 {
                    let front = addr::hex_groups(parts.take(run.0));
                    let back = addr::hex_groups(parts.skip(run.0 + run.1));
                    lemma_groups_symbols(parts.take(run.0));
                    lemma_groups_symbols(parts.skip(run.0 + run.1));
                    lemma_symbols_append(front, "::"@);
                    lemma_symbols_append(front + "::"@, back);
                } else {
                    lemma_groups_symbols(parts);
                    lemma_hex_groups_shape(parts);
                }
            }
        },
    }
}

/// A text without a colon is no IPv6 address.
pub proof fn lemma_v6_has_a_colon(s: Seq<char>)
    requires
        forall|i: int| 0 <= i < s.len() ==> #[trigger] s[i] != ':',
    ensures
        !(addr::ip_of(s) matches Some(ip) && ip is V6),
{
    lemma_double_colon(s, s.len() as int);
    lemma_split_whole(s, ':');
    let pieces = seq![s];
    assert(pieces.drop_last() == Seq::<Seq<char>>::empty());
    assert(addr::groups_of(pieces.drop_last(), false) == Some(Seq::<u16>::empty()));
    assert(pieces.last() == s);
    match addr::last_groups(s, true) {
        Some(g) => {
            assert(g.len() <= 2);
            assert(addr::groups_of(pieces, true) == Some(Seq::<u16>::empty() + g));
        },
        None => {
            assert(addr::groups_of(pieces, true) is None);
        },
    }
}

/// An address written out reads back as itself.
pub proof fn law_addresses_read_back(ip: IpAddr)
    ensures
        addr::ip_of(ip.shown()) == Some(ip),
{
    match ip {
        IpAddr::V4(a, b, c, d) => {
            lemma_v4_read_back(a, b, c, d);
        },
        IpAddr::V6(_, _, _, _, _, _, g, h) => {
            if ip.is_mapped() {
                lemma_mapped_is_not_v4(
                    (g / 256) as u8,
                    (g % 256) as u8,
                    (h / 256) as u8,
                    (h % 256) as u8,
                );
                lemma_mapped_read_back(g, h);
            } else {
                lemma_v6_read_back(ip.parts());
            }
        },
    }
}

} // verus!
