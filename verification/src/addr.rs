//! IP addresses: their textual form, read and written, and their order.

pub mod forms;
pub mod laws;

use crate::order;
use crate::text;
use vstd::prelude::*;
use vstd::slice::slice_subrange;

verus! {

/// An IP address: the four octets of an IPv4 address, or the eight 16-bit groups
/// of an IPv6 address.
#[derive(Debug, Clone, Copy, PartialEq, Eq, Structural)]
pub enum IpAddr {
    V4(u8, u8, u8, u8),
    V6(u16, u16, u16, u16, u16, u16, u16, u16),
}

// ── Reading ─────────────────────────────────────────────────────────────

/// The octet that a decimal numeral denotes: one to three digits, no leading
/// zero, at most 255.
pub open spec fn octet(s: Seq<char>) -> Option<u8> {
    if text::is_numeral(s) && s.len() <= 3 && (s.len() > 1 ==> s[0] != '0') && text::numeral_value(s)
        <= 255 {
        Some(text::numeral_value(s) as u8)
    } else {
        None
    }
}

/// The IPv4 address in dotted decimal notation.
pub open spec fn v4_of(s: Seq<char>) -> Option<IpAddr> {
    let p = text::split(s, '.');
    if p.len() == 4 {
        match (octet(p[0]), octet(p[1]), octet(p[2]), octet(p[3])) {
            (Some(a), Some(b), Some(c), Some(d)) => Some(IpAddr::V4(a, b, c, d)),
            _ => None,
        }
    } else {
        None
    }
}

/// The value of a hexadecimal digit of either case.
pub open spec fn hex_digit(c: char) -> Option<nat> {
    if '0' <= c <= '9' {
        Some((c as int - 48) as nat)
    } else if 'a' <= c <= 'f' {
        Some((c as int - 87) as nat)
    } else if 'A' <= c <= 'F' {
        Some((c as int - 55) as nat)
    } else {
        None
    }
}

/// The number that a run of hexadecimal digits denotes.
pub open spec fn hex_value(s: Seq<char>) -> Option<nat>
    decreases s.len(),
{
    if s.len() == 0 {
        Some(0)
    } else {
        match (hex_value(s.drop_last()), hex_digit(s.last())) {
            (Some(v), Some(d)) => Some(v * 16 + d),
            _ => None,
        }
    }
}

/// The group that one to four hexadecimal digits denote.
pub open spec fn group(s: Seq<char>) -> Option<u16> {
    if 1 <= s.len() <= 4 {
        match hex_value(s) {
            Some(v) => Some(v as u16),
            None => None,
        }
    } else {
        None
    }
}

/// The groups of consecutive pieces. Where `tail` holds, the last piece may be
/// an IPv4 address, which stands for two groups.
pub open spec fn groups_of(pieces: Seq<Seq<char>>, tail: bool) -> Option<Seq<u16>>
    decreases pieces.len(),
{
    if pieces.len() == 0 {
        Some(Seq::empty())
    } else {
        match (groups_of(pieces.drop_last(), false), last_groups(pieces.last(), tail)) {
            (Some(front), Some(back)) => Some(front + back),
            _ => None,
        }
    }
}

/// The groups of one piece: one group, or two where it is an IPv4 address and
/// `tail` allows one.
pub open spec fn last_groups(piece: Seq<char>, tail: bool) -> Option<Seq<u16>> {
    match (tail, v4_of(piece)) {
        (true, Some(IpAddr::V4(a, b, c, d))) => Some(
            seq![(a * 256 + b) as u16, (c * 256 + d) as u16],
        ),
        _ => match group(piece) {
            Some(g) => Some(seq![g]),
            None => None,
        },
    }
}

/// The groups of colon-separated pieces; none in the empty text.
pub open spec fn side(s: Seq<char>, tail: bool) -> Option<Seq<u16>> {
    if s.len() == 0 {
        Some(Seq::empty())
    } else {
        groups_of(text::split(s, ':'), tail)
    }
}

/// The position of the first two adjacent colons, or the length where there are
/// none.
pub open spec fn double_colon(s: Seq<char>) -> int
    decreases s.len(),
{
    if s.len() < 2 {
        s.len() as int
    } else if s[0] == ':' && s[1] == ':' {
        0
    } else {
        1 + double_colon(s.skip(1))
    }
}

pub open spec fn zeros(n: int) -> Seq<u16> {
    Seq::new(n as nat, |i: int| 0u16)
}

/// The eight groups of an IPv6 address: all written out, or with one run of at
/// least one zero group written as two colons.
pub open spec fn v6_groups(s: Seq<char>) -> Option<Seq<u16>> {
    let k = double_colon(s);
    if k < s.len() {
        match (side(s.take(k), false), side(s.skip(k + 2), true)) {
            (Some(h), Some(t)) => if h.len() + t.len() <= 7 {
                Some(h + zeros(8 - h.len() - t.len()) + t)
            } else {
                None
            },
            _ => None,
        }
    } else {
        match side(s, true) {
            Some(g) => if g.len() == 8 {
                Some(g)
            } else {
                None
            },
            None => None,
        }
    }
}

pub open spec fn v6_from(g: Seq<u16>) -> IpAddr {
    IpAddr::V6(g[0], g[1], g[2], g[3], g[4], g[5], g[6], g[7])
}

/// The address that a text denotes.
pub open spec fn ip_of(s: Seq<char>) -> Option<IpAddr> {
    match v4_of(s) {
        Some(ip) => Some(ip),
        None => match v6_groups(s) {
            Some(g) => Some(v6_from(g)),
            None => None,
        },
    }
}

// ── Writing ─────────────────────────────────────────────────────────────

pub open spec fn v4_text(a: u8, b: u8, c: u8, d: u8) -> Seq<char> {
    text::dec(a as nat) + "."@ + text::dec(b as nat) + "."@ + text::dec(c as nat) + "."@ + text::dec(
        d as nat,
    )
}

pub open spec fn hex_char(d: nat) -> char {
    if d < 10 {
        (d + 48) as char
    } else {
        (d + 87) as char
    }
}

/// The lower-case hexadecimal numeral of `n`, without leading zeros.
pub open spec fn hex(n: nat) -> Seq<char>
    decreases n,
{
    if n < 16 {
        seq![hex_char(n)]
    } else {
        hex(n / 16).push(hex_char(n % 16))
    }
}

/// The groups in hexadecimal with colons between them.
pub open spec fn hex_groups(g: Seq<u16>) -> Seq<char> {
    text::join(Seq::new(g.len(), |i: int| hex(g[i] as nat)), ":"@)
}

/// The number of zero groups from position `i` on, up to the first other one.
pub open spec fn zero_run(g: Seq<u16>, i: int) -> nat
    decreases g.len() - i,
{
    if 0 <= i < g.len() && g[i] == 0 {
        1 + zero_run(g, i + 1)
    } else {
        0
    }
}

/// Where the longest run of zero groups starts, and its length, among those that
/// start before position `k`; the first of several.
pub open spec fn longest_run(g: Seq<u16>, k: nat) -> (int, nat)
    decreases k,
{
    if k == 0 {
        (0, 0)
    } else {
        let best = longest_run(g, (k - 1) as nat);
        let here = zero_run(g, k - 1);
        if here > best.1 {
            (k - 1, here)
        } else {
            best
        }
    }
}

/// An IPv6 address in text: the longest run of two or more zero groups is
/// written as two colons.
pub open spec fn v6_text(g: Seq<u16>) -> Seq<char> {
    let run = longest_run(g, 8);
    if run.1 > 1 {
        hex_groups(g.take(run.0)) + "::"@ + hex_groups(g.skip(run.0 + run.1))
    } else {
        hex_groups(g)
    }
}

impl IpAddr {
    /// The numbers the address consists of: four octets, or eight groups.
    pub open spec fn parts(self) -> Seq<u16> {
        match self {
            IpAddr::V4(a, b, c, d) => seq![a as u16, b as u16, c as u16, d as u16],
            IpAddr::V6(a, b, c, d, e, f, g, h) => seq![a, b, c, d, e, f, g, h],
        }
    }

    /// The address is an IPv4 address wrapped into IPv6 (`::ffff:a.b.c.d`).
    pub open spec fn is_mapped(self) -> bool {
        self matches IpAddr::V6(a, b, c, d, e, f, _, _) && a == 0 && b == 0 && c == 0 && d == 0 && e
            == 0 && f == 0xffff
    }

    /// The address in text.
    pub open spec fn shown(self) -> Seq<char> {
        match self {
            IpAddr::V4(a, b, c, d) => v4_text(a, b, c, d),
            IpAddr::V6(_, _, _, _, _, _, g, h) => if self.is_mapped() {
                "::ffff:"@ + v4_text((g / 256) as u8, (g % 256) as u8, (h / 256) as u8, (h % 256) as u8)
            } else {
                v6_text(self.parts())
            },
        }
    }
}

/// Lexicographic order of the numbers of two addresses of one family.
pub open spec fn parts_less(a: Seq<u16>, b: Seq<u16>) -> bool
    decreases a.len(),
{
    if b.len() == 0 {
        false
    } else if a.len() == 0 {
        true
    } else if a[0] == b[0] {
        parts_less(a.skip(1), b.skip(1))
    } else {
        a[0] < b[0]
    }
}

/// The order of addresses: IPv4 before IPv6, then by their numbers.
pub open spec fn ip_less(a: IpAddr, b: IpAddr) -> bool {
    if (a is V4) == (b is V4) {
        parts_less(a.parts(), b.parts())
    } else {
        a is V4
    }
}

pub open spec fn ip_order() -> spec_fn(IpAddr, IpAddr) -> bool {
    |a: IpAddr, b: IpAddr| ip_less(a, b)
}

/// The addresses in ascending order, each once.
pub open spec fn sorted_ips(list: Seq<IpAddr>) -> Seq<IpAddr> {
    order::sorted_unique(list, ip_order())
}

// ── Executable functions ────────────────────────────────────────────────

fn read_octet(s: &[char]) -> (r: Option<u8>)
    ensures
        r == octet(s@),
{
    if s.len() > 3 || (s.len() > 1 && s[0] == '0') {
        return None;
    }
    match text::numeral(s, 255) {
        Some(n) => Some(n as u8),
        None => None,
    }
}

fn read_v4(s: &[char]) -> (r: Option<IpAddr>)
    ensures
        r == v4_of(s@),
{
    let p = text::split_at_char(s, '.');
    if p.len() != 4 {
        return None;
    }
    assert(p@[0]@ == text::split(s@, '.')[0]);
    assert(p@[1]@ == text::split(s@, '.')[1]);
    assert(p@[2]@ == text::split(s@, '.')[2]);
    assert(p@[3]@ == text::split(s@, '.')[3]);
    let a = read_octet(p[0].as_slice());
    let b = read_octet(p[1].as_slice());
    let c = read_octet(p[2].as_slice());
    let d = read_octet(p[3].as_slice());
    match (a, b, c, d) {
        (Some(a), Some(b), Some(c), Some(d)) => Some(IpAddr::V4(a, b, c, d)),
        _ => None,
    }
}

fn read_hex_digit(c: char) -> (r: Option<u16>)
    ensures
        match (r, hex_digit(c)) {
            (Some(a), Some(b)) => a == b && a < 16,
            (None, None) => true,
            _ => false,
        },
{
    if '0' <= c && c <= '9' {
        Some((c as u32 - 48) as u16)
    } else if 'a' <= c && c <= 'f' {
        Some((c as u32 - 87) as u16)
    } else if 'A' <= c && c <= 'F' {
        Some((c as u32 - 55) as u16)
    } else {
        None
    }
}

proof fn lemma_hex_value_bound(s: Seq<char>)
    ensures
        hex_value(s) matches Some(v) ==> v < pow16(s.len()),
    decreases s.len(),
{
    if s.len() > 0 {
        lemma_hex_value_bound(s.drop_last());
    }
}

spec fn pow16(n: nat) -> nat
    decreases n,
{
    if n == 0 {
        1
    } else {
        16 * pow16((n - 1) as nat)
    }
}

proof fn lemma_hex_value_prefix(s: Seq<char>, k: int)
    requires
        0 <= k <= s.len(),
        hex_value(s.take(k)) is None,
    ensures
        hex_value(s) is None,
    decreases s.len(),
{
    if k == s.len() {
        assert(s.take(k) == s);
    } else {
        assert(s.drop_last().take(k) == s.take(k));
        lemma_hex_value_prefix(s.drop_last(), k);
    }
}

fn read_group(s: &[char]) -> (r: Option<u16>)
    ensures
        r == group(s@),
{
    if s.len() < 1 || s.len() > 4 {
        return None;
    }
    let mut v: u16 = 0;
    let mut i: usize = 0;
    assert(s@.take(0) == Seq::<char>::empty());
    while i < s.len()
        invariant
            i <= s.len() <= 4,
            hex_value(s@.take(i as int)) == Some(v as nat),
        decreases s.len() - i,
    {
        let ghost head = s@.take(i + 1);
        proof {
            assert(head.drop_last() == s@.take(i as int));
            assert(head.last() == s@[i as int]);
            lemma_hex_value_bound(s@.take(i as int));
            reveal_with_fuel(pow16, 4);
            assert(pow16(i as nat) <= 4096);
        }
        match read_hex_digit(s[i]) {
            Some(d) => {
                v = v * 16 + d;
            },
            None => {
                proof {
                    lemma_hex_value_prefix(s@, i + 1);
                }
                return None;
            },
        }
        i = i + 1;
    }
    assert(s@.take(s@.len() as int) == s@);
    Some(v)
}

proof fn lemma_groups_prefix(pieces: Seq<Seq<char>>, tail: bool, k: int)
    requires
        0 <= k < pieces.len(),
        groups_of(pieces.take(k), false) is None,
    ensures
        groups_of(pieces, tail) is None,
    decreases pieces.len(),
{
    let init = pieces.drop_last();
    if k == pieces.len() - 1 {
        assert(pieces.take(k) == init);
    } else {
        assert(init.take(k) == pieces.take(k));
        lemma_groups_prefix(init, false, k);
    }
}

fn read_side(s: &[char], tail: bool) -> (r: Option<Vec<u16>>)
    ensures
        match (r, side(s@, tail)) {
            (Some(v), Some(g)) => v@ == g,
            (None, None) => true,
            _ => false,
        },
{
    let mut out: Vec<u16> = Vec::new();
    if s.len() == 0 {
        return Some(out);
    }
    let pieces = text::split_at_char(s, ':');
    let ghost all = text::split(s@, ':');
    let mut i: usize = 0;
    assert(all.take(0) == Seq::<Seq<char>>::empty());
    while i < pieces.len()
        invariant
            i <= pieces.len(),
            all == text::split(s@, ':'),
            pieces@.len() == all.len(),
            forall|j: int| 0 <= j < pieces@.len() ==> (#[trigger] pieces@[j])@ == all[j],
            groups_of(all.take(i as int), tail && i == pieces.len()) == Some(out@),
            s@.len() > 0,
        decreases pieces.len() - i,
    {
        let ghost head = all.take(i + 1);
        let ghost before = out@;
        let piece = pieces[i].as_slice();
        let v4_allowed = tail && i + 1 == pieces.len();
        proof {
            assert(head.drop_last() == all.take(i as int));
            assert(head.last() == piece@);
        }
        let mut done = false;
        if v4_allowed {
            match read_v4(piece) {
                Some(IpAddr::V4(a, b, c, d)) => {
                    out.push(a as u16 * 256 + b as u16);
                    out.push(c as u16 * 256 + d as u16);
                    done = true;
                    assert(out@ == before + seq![(a * 256 + b) as u16, (c * 256 + d) as u16]);
                },
                _ => {},
            }
        }
        if !done {
            match read_group(piece) {
                Some(g) => {
                    out.push(g);
                    assert(out@ == before + seq![g]);
                },
                None => {
                    proof {
                        assert(groups_of(head, v4_allowed) is None);
                        if i + 1 < pieces.len() {
                            lemma_groups_prefix(all, tail, i + 1);
                        } else {
                            assert(head == all);
                        }
                    }
                    return None;
                },
            }
        }
        i = i + 1;
    }
    assert(all.take(all.len() as int) == all);
    Some(out)
}

fn find_double_colon(s: &[char]) -> (k: usize)
    ensures
        k as int == double_colon(s@),
        k < s.len() ==> k + 2 <= s.len(),
        k <= s.len(),
{
    let mut k: usize = 0;
    assert(s@.skip(0) == s@);
    loop
        invariant
            k <= s.len(),
            k + double_colon(s@.skip(k as int)) == double_colon(s@),
        decreases s.len() - k,
    {
        let ghost rest = s@.skip(k as int);
        if s.len() - k < 2 {
            return s.len();
        }
        assert(rest[0] == s@[k as int] && rest[1] == s@[k + 1]);
        if s[k] == ':' && s[k + 1] == ':' {
            return k;
        }
        assert(rest.skip(1) == s@.skip(k + 1));
        k = k + 1;
    }
}

fn read_v6(s: &[char]) -> (r: Option<IpAddr>)
    ensures
        r == (match v6_groups(s@) {
            Some(g) => Some(v6_from(g)),
            None => None,
        }),
{
    let k: usize = find_double_colon(s);
    if k < s.len() {
        let front = slice_subrange(s, 0, k);
        let back = slice_subrange(s, k + 2, s.len());
        assert(front@ == s@.take(k as int));
        assert(back@ == s@.skip(k + 2));
        let h = match read_side(front, false) {
            Some(h) => h,
            None => return None,
        };
        let t = match read_side(back, true) {
            Some(t) => t,
            None => return None,
        };
        if h.len() > 7 || t.len() > 7 - h.len() {
            return None;
        }
        let mut g: Vec<u16> = h;
        let gap: usize = 8 - g.len() - t.len();
        let ghost base = g@;
        let mut i: usize = 0;
        while i < gap
            invariant
                i <= gap,
                g@ == base + zeros(i as int),
            decreases gap - i,
        {
            g.push(0);
            assert(g@ == base + zeros(i + 1));
            i = i + 1;
        }
        let mut j: usize = 0;
        let ghost mid = g@;
        while j < t.len()
            invariant
                j <= t.len(),
                g@ == mid + t@.take(j as int),
            decreases t.len() - j,
        {
            g.push(t[j]);
            assert(g@ == mid + t@.take(j + 1));
            j = j + 1;
        }
        assert(t@.take(t@.len() as int) == t@);
        assert(g@ == base + zeros(gap as int) + t@);
        Some(IpAddr::V6(g[0], g[1], g[2], g[3], g[4], g[5], g[6], g[7]))
    } else {
        match read_side(s, true) {
            Some(g) => if g.len() == 8 {
                Some(IpAddr::V6(g[0], g[1], g[2], g[3], g[4], g[5], g[6], g[7]))
            } else {
                None
            },
            None => None,
        }
    }
}

/// Reads an address of either family from characters.
pub fn read_ip(s: &[char]) -> (r: Option<IpAddr>)
    ensures
        r == ip_of(s@),
{
    match read_v4(s) {
        Some(ip) => Some(ip),
        None => read_v6(s),
    }
}

/// Reads an address of either family.
pub fn parse_ip(s: &str) -> (r: Option<IpAddr>)
    ensures
        r == ip_of(s@),
{
    read_ip(text::chars_of(s).as_slice())
}

fn push_v4(s: &mut String, a: u8, b: u8, c: u8, d: u8)
    ensures
        final(s)@ == old(s)@ + v4_text(a, b, c, d),
{
    text::push_dec(s, a as u64);
    s.append(".");
    text::push_dec(s, b as u64);
    s.append(".");
    text::push_dec(s, c as u64);
    s.append(".");
    text::push_dec(s, d as u64);
    assert(s@ == old(s)@ + v4_text(a, b, c, d));
}

fn push_hex(s: &mut String, n: u16)
    ensures
        final(s)@ == old(s)@ + hex(n as nat),
    decreases n,
{
    if n >= 16 {
        push_hex(s, n / 16);
    }
    let d: u8 = (n % 16) as u8;
    if d < 10 {
        s.push((d + 48) as char);
    } else {
        s.push((d + 87) as char);
    }
}

fn push_hex_groups(s: &mut String, g: &[u16])
    ensures
        final(s)@ == old(s)@ + hex_groups(g@),
{
    let ghost all = Seq::new(g@.len(), |i: int| hex(g@[i] as nat));
    let ghost start = s@;
    let mut i: usize = 0;
    assert(s@ == start + text::join(all.take(0), ":"@));
    while i < g.len()
        invariant
            i <= g.len(),
            all == Seq::new(g@.len(), |i: int| hex(g@[i] as nat)),
            s@ == start + text::join(all.take(i as int), ":"@),
        decreases g.len() - i,
    {
        assert(all.take(i + 1).drop_last() == all.take(i as int));
        assert(all.take(i + 1).last() == hex(g@[i as int] as nat));
        let ghost before = s@;
        if i > 0 {
            s.append(":");
        }
        push_hex(s, g[i]);
        assert(s@ == start + text::join(all.take(i + 1), ":"@));
        i = i + 1;
    }
    assert(all.take(all.len() as int) == all);
}

fn count_zeros(g: &[u16], i: usize) -> (n: usize)
    requires
        i <= g.len(),
    ensures
        n == zero_run(g@, i as int),
        i + n <= g.len(),
    decreases g.len() - i,
{
    if i < g.len() && g[i] == 0 {
        1 + count_zeros(g, i + 1)
    } else {
        0
    }
}

fn find_longest_run(g: &[u16]) -> (r: (usize, usize))
    requires
        g.len() == 8,
    ensures
        (r.0 as int, r.1 as nat) == longest_run(g@, 8),
        r.0 + r.1 <= 8,
{
    let mut start: usize = 0;
    let mut len: usize = 0;
    let mut k: usize = 0;
    while k < 8
        invariant
            k <= 8,
            g.len() == 8,
            (start as int, len as nat) == longest_run(g@, k as nat),
            start + len <= 8,
        decreases 8 - k,
    {
        let here: usize = count_zeros(g, k);
        if here > len {
            start = k;
            len = here;
        }
        k = k + 1;
    }
    (start, len)
}

fn v6_to_text(g: &[u16]) -> (s: String)
    requires
        g.len() == 8,
    ensures
        s@ == v6_text(g@),
{
    let mut s = String::new();
    let run = find_longest_run(g);
    if run.1 > 1 {
        let front = slice_subrange(g, 0, run.0);
        let back = slice_subrange(g, run.0 + run.1, 8);
        assert(front@ == g@.take(run.0 as int));
        assert(back@ == g@.skip(run.0 + run.1));
        push_hex_groups(&mut s, front);
        s.append("::");
        push_hex_groups(&mut s, back);
    } else {
        push_hex_groups(&mut s, g);
    }
    s
}

impl IpAddr {
    pub fn is_v4(&self) -> (r: bool)
        ensures
            r == (*self is V4),
    {
        match self {
            IpAddr::V4(..) => true,
            IpAddr::V6(..) => false,
        }
    }

    /// The numbers the address consists of.
    pub fn to_parts(&self) -> (v: Vec<u16>)
        ensures
            v@ == self.parts(),
    {
        let mut v: Vec<u16> = Vec::new();
        match *self {
            IpAddr::V4(a, b, c, d) => {
                v.push(a as u16);
                v.push(b as u16);
                v.push(c as u16);
                v.push(d as u16);
            },
            IpAddr::V6(a, b, c, d, e, f, g, h) => {
                v.push(a);
                v.push(b);
                v.push(c);
                v.push(d);
                v.push(e);
                v.push(f);
                v.push(g);
                v.push(h);
            },
        }
        v
    }

    /// The address in text.
    pub fn to_text(&self) -> (s: String)
        ensures
            s@ == self.shown(),
    {
        match *self {
            IpAddr::V4(a, b, c, d) => {
                let mut s = String::new();
                push_v4(&mut s, a, b, c, d);
                s
            },
            IpAddr::V6(a, b, c, d, e, f, g, h) => {
                if a == 0 && b == 0 && c == 0 && d == 0 && e == 0 && f == 0xffff {
                    let mut s = "::ffff:".to_owned();
                    push_v4(&mut s, (g / 256) as u8, (g % 256) as u8, (h / 256) as u8, (h % 256) as u8);
                    s
                } else {
                    v6_to_text(self.to_parts().as_slice())
                }
            },
        }
    }

    /// Whether the address comes before `other`.
    pub fn comes_before(&self, other: &IpAddr) -> (r: bool)
        ensures
            r == ip_less(*self, *other),
    {
        if self.is_v4() != other.is_v4() {
            return self.is_v4();
        }
        let x = self.to_parts();
        let y = other.to_parts();
        let mut i: usize = 0;
        assert(x@.skip(0) == x@);
        assert(y@.skip(0) == y@);
        loop
            invariant
                i <= x.len(),
                i <= y.len(),
                x@ == self.parts(),
                y@ == other.parts(),
                parts_less(x@.skip(i as int), y@.skip(i as int)) == parts_less(
                    self.parts(),
                    other.parts(),
                ),
                (*self is V4) == (*other is V4),
            decreases x.len() - i,
        {
            let ghost xs = x@.skip(i as int);
            let ghost ys = y@.skip(i as int);
            if i == y.len() {
                return false;
            }
            if i == x.len() {
                return true;
            }
            assert(xs[0] == x@[i as int] && ys[0] == y@[i as int]);
            if x[i] != y[i] {
                return x[i] < y[i];
            }
            assert(xs.skip(1) == x@.skip(i + 1));
            assert(ys.skip(1) == y@.skip(i + 1));
            i = i + 1;
        }
    }
}

/// The addresses in text.
pub open spec fn ip_texts(ips: Seq<IpAddr>) -> Seq<Seq<char>> {
    Seq::new(ips.len(), |i: int| ips[i].shown())
}

/// The addresses in text, with commas between them.
pub fn list_ips(ips: &[IpAddr]) -> (s: String)
    ensures
        s@ == text::join(ip_texts(ips@), ", "@),
{
    let mut list: Vec<String> = Vec::new();
    let mut i: usize = 0;
    while i < ips.len()
        invariant
            i <= ips.len(),
            list@.len() == i,
            forall|j: int| 0 <= j < i ==> (#[trigger] list@[j])@ == ips@[j].shown(),
        decreases ips.len() - i,
    {
        list.push(ips[i].to_text());
        i = i + 1;
    }
    assert(text::texts(list@) == ip_texts(ips@));
    text::join_texts(list.as_slice(), ", ")
}

/// Whether `list` holds `ip`.
pub fn holds(list: &[IpAddr], ip: IpAddr) -> (r: bool)
    ensures
        r == list@.contains(ip),
{
    let mut i: usize = 0;
    while i < list.len()
        invariant
            i <= list.len(),
            forall|j: int| 0 <= j < i ==> list@[j] != ip,
        decreases list.len() - i,
    {
        if list[i] == ip {
            return true;
        }
        i = i + 1;
    }
    false
}

/// The same addresses in the same order.
pub fn copy_ips(list: &[IpAddr]) -> (v: Vec<IpAddr>)
    ensures
        v@ == list@,
{
    vstd::slice::slice_to_vec(list)
}

fn insert_ip(list: &mut Vec<IpAddr>, t: IpAddr)
    ensures
        final(list)@ == order::inserted(old(list)@, t, ip_order()),
{
    let ghost all = list@;
    let mut k: usize = 0;
    assert(all.skip(0) == all);
    assert(all.take(0) + order::inserted(all.skip(0), t, ip_order()) == order::inserted(
        all,
        t,
        ip_order(),
    ));
    while k < list.len() && list[k] != t && !t.comes_before(&list[k])
        invariant
            k <= list.len(),
            all == list@,
            all.take(k as int) + order::inserted(all.skip(k as int), t, ip_order())
                == order::inserted(all, t, ip_order()),
        decreases list.len() - k,
    {
        let ghost rest = all.skip(k as int);
        assert(rest[0] == all[k as int]);
        assert(rest.skip(1) == all.skip(k + 1));
        assert(all.take(k + 1) == all.take(k as int) + seq![rest[0]]);
        assert(all.take(k + 1) + order::inserted(all.skip(k + 1), t, ip_order()) == all.take(
            k as int,
        ) + order::inserted(rest, t, ip_order()));
        k = k + 1;
    }
    let ghost rest = all.skip(k as int);
    if k < list.len() && list[k] == t {
        assert(rest[0] == t);
        assert(all.take(k as int) + rest == all);
    } else {
        list.insert(k, t);
        proof {
            if rest.len() > 0 {
                assert(rest[0] == all[k as int]);
            }
            assert(order::inserted(rest, t, ip_order()) == seq![t] + rest);
            assert(list@ == all.take(k as int) + (seq![t] + rest));
        }
    }
}

/// The addresses in ascending order, each once.
pub fn sort_ips(list: &[IpAddr]) -> (v: Vec<IpAddr>)
    ensures
        v@ == sorted_ips(list@),
{
    let mut v: Vec<IpAddr> = Vec::new();
    let mut i: usize = 0;
    assert(list@.take(0) == Seq::<IpAddr>::empty());
    while i < list.len()
        invariant
            i <= list.len(),
            v@ == sorted_ips(list@.take(i as int)),
        decreases list.len() - i,
    {
        assert(list@.take(i + 1).drop_last() == list@.take(i as int));
        insert_ip(&mut v, list[i]);
        i = i + 1;
    }
    assert(list@.take(list@.len() as int) == list@);
    v
}

} // verus!
