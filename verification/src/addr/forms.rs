//! How addresses are written and ordered, told by their numbers.

use crate::addr;
use crate::addr::IpAddr;
use crate::text;
use crate::text::laws;
use vstd::prelude::*;

verus! {

// ── IPv4 ────────────────────────────────────────────────────────────────

/// An IPv4 address is its four numbers with dots between them.
pub proof fn law_ipv4_text(a: u8, b: u8, c: u8, d: u8)
    ensures
        IpAddr::V4(a, b, c, d).shown() == text::join(
            seq![
                text::dec(a as nat),
                text::dec(b as nat),
                text::dec(c as nat),
                text::dec(d as nat),
            ],
            "."@,
        ),
{
    let p = seq![
        text::dec(a as nat),
        text::dec(b as nat),
        text::dec(c as nat),
        text::dec(d as nat),
    ];
    reveal_with_fuel(text::join, 4);
    assert(p.drop_last() =~= seq![p[0], p[1], p[2]]);
    assert(p.drop_last().drop_last() =~= seq![p[0], p[1]]);
    assert(p.drop_last().drop_last().drop_last() =~= seq![p[0]]);
}

/// A number of an IPv4 address is written in one way only: as the numeral of a number up
/// to 255, without leading zeros.
pub proof fn law_octets(s: Seq<char>, n: u8)
    ensures
        addr::octet(s) == Some(n) <==> s == text::dec(n as nat),
{
    text::lemma_dec(n as nat);
    text::lemma_dec_len(n as nat);
    if addr::octet(s) == Some(n) {
        lemma_canonical(s);
    }
}

proof fn lemma_canonical(s: Seq<char>)
    requires
        text::is_numeral(s),
        s.len() > 1 ==> s[0] != '0',
    ensures
        s == text::dec(text::numeral_value(s)),
        s[0] != '0' ==> text::numeral_value(s) > 0,
    decreases s.len(),
{
    let front = s.drop_last();
    let v = text::numeral_value(s);
    assert(text::is_digit(s[s.len() - 1]));
    assert(s =~= front.push(s.last()));
    if s.len() == 1 {
        assert(front =~= Seq::<char>::empty());
        assert(text::numeral_value(front) == 0);
        assert(s =~= text::dec(v));
    } else {
        assert forall|i: int| 0 <= i < front.len() implies text::is_digit(#[trigger] front[i]) by {
            assert(front[i] == s[i]);
        }
        assert(front[0] == s[0]);
        lemma_canonical(front);
        let u = text::numeral_value(front);
        let d = (s.last() as int - 48) as nat;
        assert(v == u * 10 + d);
        assert(v / 10 == u && v % 10 == d);
        assert(text::dec(v) == text::dec(u).push(text::digit(d)));
        assert(text::digit(d) == s.last());
    }
}

// ── IPv6 ────────────────────────────────────────────────────────────────

/// A group is written digit by digit in hexadecimal, in lower case and without leading
/// zeros.
pub proof fn law_hexadecimal(high: nat, low: nat)
    requires
        low < 16,
    ensures
        low < 10 ==> addr::hex(low) == seq![('0' as int + low) as char],
        low >= 10 ==> addr::hex(low) == seq![('a' as int + (low - 10)) as char],
        high > 0 ==> addr::hex(high * 16 + low) == addr::hex(high) + addr::hex(low),
{
    assert(addr::hex(high).push(addr::hex_char(low)) =~= addr::hex(high) + seq![
        addr::hex_char(low),
    ]);
}

/// Upper and lower case make no difference to a group that is read.
pub proof fn law_groups_in_any_case(s: Seq<char>, t: Seq<char>)
    requires
        laws::same_but_for_case(s, t),
    ensures
        addr::group(s) == addr::group(t),
{
    lemma_hex_case(s, t);
}

proof fn lemma_hex_case(s: Seq<char>, t: Seq<char>)
    requires
        laws::same_but_for_case(s, t),
    ensures
        addr::hex_value(s) == addr::hex_value(t),
    decreases s.len(),
{
    if s.len() > 0 {
        let a = s.drop_last();
        let b = t.drop_last();
        assert forall|i: int| 0 <= i < a.len() implies laws::same_letter(#[trigger] a[i], b[i]) by {
            assert(laws::same_letter(s[i], t[i]));
        }
        lemma_hex_case(a, b);
        assert(laws::same_letter(s[s.len() - 1], t[t.len() - 1]));
        assert(addr::hex_digit(s.last()) == addr::hex_digit(t.last()));
    }
}

/// The groups from `i` on are zero, `n` of them.
pub open spec fn is_zero_run(g: Seq<u16>, i: int, n: int) -> bool {
    &&& 0 <= i
    &&& 0 <= n
    &&& i + n <= g.len()
    &&& forall|k: int| i <= k < i + n ==> #[trigger] g[k] == 0
}

/// The longest run of zeros, and the first of several.
pub open spec fn is_longest_run(g: Seq<u16>, i: int, n: int) -> bool {
    &&& is_zero_run(g, i, n)
    &&& forall|j: int, m: int|
        #![trigger is_zero_run(g, j, m)]
        is_zero_run(g, j, m) && m > 0 ==> m < n || (m == n && j >= i)
}

/// The groups in hexadecimal.
pub open spec fn written(g: Seq<u16>) -> Seq<Seq<char>> {
    Seq::new(g.len(), |i: int| addr::hex(g[i] as nat))
}

proof fn lemma_zero_run(g: Seq<u16>, i: int)
    requires
        0 <= i <= g.len(),
    ensures
        is_zero_run(g, i, addr::zero_run(g, i) as int),
        i + addr::zero_run(g, i) < g.len() ==> g[i + addr::zero_run(g, i)] != 0,
    decreases g.len() - i,
{
    if i < g.len() && g[i] == 0 {
        lemma_zero_run(g, i + 1);
    }
}

proof fn lemma_longest_run(g: Seq<u16>, k: nat)
    requires
        k <= g.len(),
    ensures
        ({
            let (i, n) = addr::longest_run(g, k);
            &&& n > 0 ==> 0 <= i < k && n == addr::zero_run(g, i)
            &&& forall|j: int| 0 <= j < k ==> #[trigger] addr::zero_run(g, j) <= n
            &&& forall|j: int| 0 <= j < i ==> #[trigger] addr::zero_run(g, j) < n
        }),
    decreases k,
{
    if k > 0 {
        lemma_longest_run(g, (k - 1) as nat);
    }
}

proof fn lemma_no_longer(g: Seq<u16>, j: int, m: int)
    requires
        is_zero_run(g, j, m),
    ensures
        m <= addr::zero_run(g, j),
{
    lemma_zero_run(g, j);
    let z = addr::zero_run(g, j) as int;
    if m > z {
        assert(g[j + z] == 0);
    }
}

/// An IPv6 address is its eight groups with colons between them. The longest run of two
/// zeros or more, the first of several, is written as two colons.
pub proof fn law_ipv6_text(ip: IpAddr, i: int, n: int)
    requires
        ip is V6,
        !ip.is_mapped(),
        is_longest_run(ip.parts(), i, n),
    ensures
        n >= 2 ==> ip.shown() == text::join(written(ip.parts().take(i)), ":"@) + "::"@ + text::join(
            written(ip.parts().skip(i + n)),
            ":"@,
        ),
        n < 2 ==> ip.shown() == text::join(written(ip.parts()), ":"@),
{
    let g = ip.parts();
    let (a, z) = addr::longest_run(g, 8);
    lemma_longest_run(g, 8);
    if n >= 2 {
        lemma_no_longer(g, i, n);
        assert(i < g.len()) by {
            assert(i + n <= g.len());
        }
        assert(addr::zero_run(g, i) <= z);
        lemma_zero_run(g, a);
        assert(is_zero_run(g, a, z as int));
        assert(z == n);
        assert(a >= i);
        if a > i {
            assert(addr::zero_run(g, i) < z);
        }
    } else if z >= 2 {
        lemma_zero_run(g, a);
        assert(is_zero_run(g, a, z as int));
    }
}

/// An IPv4 address that is wrapped into IPv6 is written as such.
pub proof fn law_mapped_text(a: u8, b: u8, c: u8, d: u8)
    ensures
        IpAddr::V6(0, 0, 0, 0, 0, 0xffff, (a * 256 + b) as u16, (c * 256 + d) as u16).shown()
            == "::ffff:"@ + IpAddr::V4(a, b, c, d).shown(),
{
    let g = (a * 256 + b) as u16;
    let h = (c * 256 + d) as u16;
    assert((g / 256) as u8 == a && (g % 256) as u8 == b);
    assert((h / 256) as u8 == c && (h % 256) as u8 == d);
}

// ── Order ───────────────────────────────────────────────────────────────

/// IPv4 addresses come before IPv6 addresses; among those of one family, the first number
/// that differs decides.
pub proof fn law_order(a: IpAddr, b: IpAddr, k: int)
    ensures
        a is V4 && b is V6 ==> addr::ip_less(a, b) && !addr::ip_less(b, a),
        (a is V4) == (b is V4) && 0 <= k < a.parts().len() && a.parts()[k] < b.parts()[k] && (forall|
            j: int,
        |
            0 <= j < k ==> #[trigger] a.parts()[j] == b.parts()[j]) ==> addr::ip_less(a, b)
            && !addr::ip_less(b, a),
        !addr::ip_less(a, a),
{
    if (a is V4) == (b is V4) && 0 <= k < a.parts().len() && a.parts()[k] < b.parts()[k] && (forall|
        j: int,
    |
        0 <= j < k ==> #[trigger] a.parts()[j] == b.parts()[j]) {
        lemma_less(a.parts(), b.parts(), k);
    }
    lemma_not_less(a.parts());
}

proof fn lemma_less(a: Seq<u16>, b: Seq<u16>, k: int)
    requires
        a.len() == b.len(),
        0 <= k < a.len(),
        a[k] < b[k],
        forall|j: int| 0 <= j < k ==> #[trigger] a[j] == b[j],
    ensures
        addr::parts_less(a, b),
        !addr::parts_less(b, a),
    decreases k,
{
    if k > 0 {
        assert(a[0] == b[0]);
        let x = a.skip(1);
        let y = b.skip(1);
        assert forall|j: int| 0 <= j < k - 1 implies #[trigger] x[j] == y[j] by {
            assert(a[j + 1] == b[j + 1]);
        }
        lemma_less(x, y, k - 1);
    }
}

proof fn lemma_not_less(a: Seq<u16>)
    ensures
        !addr::parts_less(a, a),
    decreases a.len(),
{
    if a.len() > 0 {
        lemma_not_less(a.skip(1));
    }
}

} // verus!
