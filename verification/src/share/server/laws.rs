//! What the share server promises: whom it lets in, what it answers, what it keeps and
//! what it shows.

use crate::addr;
use crate::addr::IpAddr;
use crate::clock::Moment;
use crate::measure::Millis;
use crate::share::server::id;
use crate::share::server::ratelimit;
use crate::share::server::render;
use crate::share::server::render::SharedPage;
use crate::share::server::retention;
use crate::share::server::retention::Timestamp;
use crate::share::server::stored;
use crate::share::server::stored::PagePartsView;
use crate::share::server::uploads;
use crate::text;
use crate::text::laws;
use vstd::prelude::*;

verus! {

// ── Identifiers ─────────────────────────────────────────────────────────

/// A byte stands for a letter or a digit: the letters first, then the digits, over and
/// over. Two bytes stand for the same one exactly where they differ by a multiple of 36.
pub proof fn law_symbols(b: u8, c: u8)
    ensures
        b < 26 ==> id::symbol(b) as int == 'a' as int + b,
        26 <= b < 36 ==> id::symbol(b) as int == '0' as int + (b - 26),
        id::symbol(b) == id::symbol(c) <==> (b - c) % 36 == 0,
{
    assert(id::symbol(b) as int == if b % 36 < 26 {
        b % 36 + 97
    } else {
        b % 36 + 22
    });
    assert(id::symbol(c) as int == if c % 36 < 26 {
        c % 36 + 97
    } else {
        c % 36 + 22
    });
}

/// An identifier has one character for each of the first ten bytes; more bytes do not
/// matter.
pub proof fn law_identifiers(bytes: Seq<u8>, more: Seq<u8>, i: int)
    requires
        bytes.len() == 10,
    ensures
        id::id_of(bytes).len() == 10,
        0 <= i < 10 ==> id::id_of(bytes)[i] == id::symbol(bytes[i]),
        id::id_of(bytes + more) == id::id_of(bytes),
        id::valid_id(id::id_of(bytes)),
{
    assert(id::id_of(bytes + more) =~= id::id_of(bytes));
    id::law_ids_are_valid(bytes);
}

/// A text is an identifier exactly where it has ten characters, each a letter from `a`
/// to `z` or a digit: one more, one fewer or one other character makes it none.
pub proof fn law_form_of_identifiers(s: Seq<char>, i: int, c: char)
    requires
        id::valid_id(s),
        0 <= i < 10,
    ensures
        s.len() == 10,
        !id::valid_id(s.push(c)),
        !id::valid_id(s.drop_last()),
        id::valid_id(s.update(i, c)) <==> 'a' <= c <= 'z' || '0' <= c <= '9',
{
    let t = s.update(i, c);
    assert(t[i] == c);
    assert(forall|j: int| 0 <= j < 10 && j != i ==> #[trigger] t[j] == s[j]);
    if id::is_symbol(c) {
        assert forall|j: int| 0 <= j < t.len() implies id::is_symbol(#[trigger] t[j]) by {
            if j != i {
                assert(id::is_symbol(s[j]));
            }
        }
    }
}

/// The file of a report is named by its identifier, so that no two share one.
pub proof fn law_files(a: Seq<char>, b: Seq<char>)
    ensures
        uploads::file_of(a) == uploads::file_of(b) <==> a == b,
        uploads::file_of(a) == a + ".json"@,
{
    if uploads::file_of(a) == uploads::file_of(b) {
        assert(uploads::file_of(a).len() == a.len() + ".json"@.len());
        assert(uploads::file_of(b).len() == b.len() + ".json"@.len());
        assert(uploads::file_of(a).take(a.len() as int) =~= a);
        assert(uploads::file_of(b).take(b.len() as int) =~= b);
    }
}

// ── Retention ───────────────────────────────────────────────────────────

/// A report is kept for so many days of 24 hours, to the nanosecond, and then no longer.
pub proof fn law_days_of_retention(modified: Timestamp, now: Timestamp, days: u32, past: int)
    requires
        now.nanos - modified.nanos == days * 24 * 60 * 60 * 1_000_000_000 + past,
    ensures
        retention::outlived(modified, now, days) <==> past > 0,
{
}

/// Whether a file is deleted depends on itself alone, and the order is that of the list.
pub proof fn law_files_are_judged_one_by_one(
    a: Seq<(&str, Timestamp)>,
    b: Seq<(&str, Timestamp)>,
    name: &str,
    modified: Timestamp,
    now: Timestamp,
    days: u32,
)
    ensures
        retention::stale(a + b, now, days) == retention::stale(a, now, days) + retention::stale(
            b,
            now,
            days,
        ),
        retention::stale(seq![(name, modified)], now, days) == if retention::outlived(
            modified,
            now,
            days,
        ) {
            seq![name@]
        } else {
            Seq::empty()
        },
    decreases b.len(),
{
    reveal_with_fuel(retention::stale, 2);
    assert(seq![(name, modified)].drop_last() =~= Seq::<(&str, Timestamp)>::empty());
    assert(Seq::<Seq<char>>::empty().push(name@) =~= seq![name@]);
    if b.len() > 0 {
        law_files_are_judged_one_by_one(a, b.drop_last(), name, modified, now, days);
        assert((a + b).drop_last() =~= a + b.drop_last());
        assert(retention::stale(a + b, now, days) =~= retention::stale(a, now, days)
            + retention::stale(b, now, days));
    } else {
        assert(a + b =~= a);
        assert(retention::stale(a + b, now, days) =~= retention::stale(a, now, days)
            + retention::stale(b, now, days));
    }
}

// ── The rate limit ──────────────────────────────────────────────────────

/// A request counts as long as no more than the window has passed since. Each counts by
/// itself, and their order stays.
pub proof fn law_what_counts(
    a: Seq<Moment>,
    b: Seq<Moment>,
    t: Moment,
    now: Moment,
    window: Millis,
)
    requires
        t.nanos <= now.nanos,
    ensures
        ratelimit::recent(a + b, now, window) == ratelimit::recent(a, now, window)
            + ratelimit::recent(b, now, window),
        now.nanos - t.nanos <= window.nanos ==> ratelimit::recent(seq![t], now, window) == seq![t],
        now.nanos - t.nanos > window.nanos ==> ratelimit::recent(seq![t], now, window).len() == 0,
    decreases b.len(),
{
    reveal_with_fuel(ratelimit::recent, 2);
    assert(seq![t].drop_last() =~= Seq::<Moment>::empty());
    assert(Seq::<Moment>::empty().push(t) =~= seq![t]);
    if b.len() > 0 {
        law_what_counts(a, b.drop_last(), t, now, window);
        assert((a + b).drop_last() =~= a + b.drop_last());
        assert(ratelimit::recent(a + b, now, window) =~= ratelimit::recent(a, now, window)
            + ratelimit::recent(b, now, window));
    } else {
        assert(a + b =~= a);
        assert(ratelimit::recent(a + b, now, window) =~= ratelimit::recent(a, now, window)
            + ratelimit::recent(b, now, window));
    }
}

/// An allowed request is remembered behind the others that still count; one that is
/// refused is not remembered, so that refusals do not put off the end of the wait.
pub proof fn law_what_is_remembered(
    history: Seq<Moment>,
    now: Moment,
    limit: u32,
    window: Millis,
)
    ensures
        ({
            let kept = ratelimit::recent(history, now, window);
            let after = ratelimit::after_request(history, now, limit, window);
            &&& kept.len() < limit ==> after.drop_last() == kept && after.last() == now
            &&& kept.len() >= limit ==> after == kept
        }),
{
    let kept = ratelimit::recent(history, now, window);
    assert(kept.push(now).drop_last() =~= kept);
}

/// Of requests at one moment, exactly as many are allowed as the limit says.
pub proof fn law_limit_is_used_in_full(t: Moment, n: nat, limit: u32, window: Millis)
    ensures
        ratelimit::remembered(Seq::new(n, |i: int| t), limit, window).len() == if n <= limit {
            n
        } else {
            limit as nat
        },
    decreases n,
{
    let times = Seq::new(n, |i: int| t);
    if n > 0 {
        let front = Seq::new((n - 1) as nat, |i: int| t);
        assert(times.drop_last() =~= front);
        law_limit_is_used_in_full(t, (n - 1) as nat, limit, window);
        let state = ratelimit::remembered(front, limit, window);
        lemma_one_moment(t, (n - 1) as nat, limit, window);
        lemma_all_recent(state, t, window);
    }
}

proof fn lemma_all_recent(history: Seq<Moment>, t: Moment, window: Millis)
    requires
        forall|i: int| 0 <= i < history.len() ==> #[trigger] history[i] == t,
    ensures
        ratelimit::recent(history, t, window) == history,
    decreases history.len(),
{
    if history.len() > 0 {
        let front = history.drop_last();
        assert forall|i: int| 0 <= i < front.len() implies #[trigger] front[i] == t by {
            assert(front[i] == history[i]);
        }
        lemma_all_recent(front, t, window);
        assert(history[history.len() - 1] == t);
        assert(front.push(history.last()) =~= history);
    }
}

proof fn lemma_one_moment(t: Moment, n: nat, limit: u32, window: Millis)
    ensures
        ({
            let state = ratelimit::remembered(Seq::new(n, |i: int| t), limit, window);
            forall|i: int| 0 <= i < state.len() ==> #[trigger] state[i] == t
        }),
    decreases n,
{
    if n > 0 {
        let front = Seq::new((n - 1) as nat, |i: int| t);
        assert(Seq::new(n, |i: int| t).drop_last() =~= front);
        lemma_one_moment(t, (n - 1) as nat, limit, window);
        lemma_all_recent(ratelimit::remembered(front, limit, window), t, window);
    }
}

// ── Who asked ───────────────────────────────────────────────────────────

/// The client is the first entry of the list that a proxy passes on, with or without
/// blanks around it and whatever follows. Without a list, or where its first entry is no
/// address, it is whoever connected.
pub proof fn law_client(
    list: &str,
    a: Seq<char>,
    ip: IpAddr,
    b: Seq<char>,
    rest: Seq<char>,
    peer: IpAddr,
)
    requires
        forall|i: int| 0 <= i < a.len() ==> text::is_space(#[trigger] a[i]),
        forall|i: int| 0 <= i < b.len() ==> text::is_space(#[trigger] b[i]),
    ensures
        list@ == a + ip.shown() + b ==> uploads::client_of(Some(list), peer) == ip,
        list@ == (a + ip.shown() + b) + seq![','] + rest ==> uploads::client_of(Some(list), peer)
            == ip,
        uploads::client_of(None, peer) == peer,
{
    let s = ip.shown();
    let entry = a + s + b;
    addr::laws::law_addresses_are_plain(ip);
    addr::laws::law_addresses_read_back(ip);
    assert(addr::laws::is_symbol(s[0]));
    assert(addr::laws::is_symbol(s[s.len() - 1]));
    laws::law_blanks(s[0]);
    laws::law_blanks(s.last());
    laws::law_trimming(a, s, b);
    assert forall|i: int| 0 <= i < entry.len() implies #[trigger] entry[i] != ',' by {
        laws::law_blanks(',');
        if i < a.len() {
            assert(text::is_space(a[i]));
        } else if i < a.len() + s.len() {
            assert(addr::laws::is_symbol(s[i - a.len()]));
            assert(entry[i] == s[i - a.len()]);
        } else {
            assert(text::is_space(b[i - a.len() - s.len()]));
        }
    }
    laws::law_cut(entry, ',', rest);
}

// ── What is answered ────────────────────────────────────────────────────

/// An upload is answered with 429 where the limit is used up; else with 413 where it is
/// too large; else with 400 and the complaint where it is no JSON, or where it holds no
/// verdict; else it is admitted.
pub proof fn law_answers(
    allowed: bool,
    size: nat,
    max_bytes: u64,
    fault: Option<Seq<char>>,
    has_verdict: bool,
)
    ensures
        ({
            let r = uploads::refused(allowed, size, max_bytes, fault, has_verdict);
            let (status, message) = r->0;
            &&& r is Some && status == 429 <==> !allowed
            &&& r is Some && status == 413 <==> allowed && size > max_bytes
            &&& r is Some && status == 400 <==> allowed && size <= max_bytes && (fault is Some
                || !has_verdict)
            &&& r is None <==> allowed && size <= max_bytes && fault is None && has_verdict
            &&& allowed && size <= max_bytes && fault is Some ==> message == "invalid JSON: "@
                + fault->0
        }),
{
}

/// The links to reports begin with the public URL, without slashes at its end, where one
/// is set, else with `https` and the host that was asked, or `localhost`.
pub proof fn law_base_of_links(
    url: &str,
    host: &str,
    base: Seq<char>,
    tail: Seq<char>,
    any: Option<&str>,
)
    requires
        forall|i: int| 0 <= i < tail.len() ==> #[trigger] tail[i] == '/',
        base.len() > 0 ==> base.last() != '/',
    ensures
        url@ == base + tail ==> uploads::base_of(Some(url), any) == base,
        uploads::base_of(None, Some(host)) == "https://"@ + host@,
        uploads::base_of(None, None) == "https://localhost"@,
{
    laws::law_trailing(base, tail, '/');
    reveal_strlit("https://");
    reveal_strlit("localhost");
    reveal_strlit("https://localhost");
    assert("https://"@ + "localhost"@ =~= "https://localhost"@);
}

// ── What is shown ───────────────────────────────────────────────────────

/// The five characters that mean something in HTML are replaced, each by its own name;
/// all others stay. Texts are written character by character.
pub proof fn law_escaping(a: Seq<char>, b: Seq<char>, c: char)
    ensures
        render::escaped(a + b) == render::escaped(a) + render::escaped(b),
        render::escaped(seq!['<']) == "&lt;"@,
        render::escaped(seq!['>']) == "&gt;"@,
        render::escaped(seq!['&']) == "&amp;"@,
        render::escaped(seq!['"']) == "&quot;"@,
        render::escaped(seq!['\'']) == "&#39;"@,
        c != '<' && c != '>' && c != '&' && c != '"' && c != '\'' ==> render::escaped(seq![c])
            == seq![c],
    decreases b.len(),
{
    lemma_one_character('<');
    lemma_one_character('>');
    lemma_one_character('&');
    lemma_one_character('"');
    lemma_one_character('\'');
    lemma_one_character(c);
    if b.len() > 0 {
        law_escaping(a, b.drop_last(), c);
        assert((a + b).drop_last() =~= a + b.drop_last());
        assert(render::escaped(a + b) =~= render::escaped(a) + render::escaped(b));
    } else {
        assert(a + b =~= a);
        assert(render::escaped(a + b) =~= render::escaped(a) + render::escaped(b));
    }
}

proof fn lemma_one_character(c: char)
    ensures
        render::escaped(seq![c]) == render::escape(c),
{
    reveal_with_fuel(render::escaped, 2);
    assert(seq![c].drop_last() =~= Seq::<char>::empty());
    assert(Seq::<char>::empty() + render::escape(c) =~= render::escape(c));
}

/// A list holds each of its texts, escaped and as an item of its own, in order.
pub proof fn law_lists(a: Seq<Seq<char>>, b: Seq<Seq<char>>, x: Seq<char>)
    ensures
        render::list_text(seq![x]) == "<li>"@ + render::escaped(x) + "</li>"@,
        render::list_text(a + b) == render::list_text(a) + render::list_text(b),
    decreases b.len(),
{
    reveal_with_fuel(render::list_text, 2);
    assert(seq![x].drop_last() =~= Seq::<Seq<char>>::empty());
    let item = "<li>"@ + render::escaped(x) + "</li>"@;
    assert(Seq::<char>::empty() + item =~= item);
    if b.len() > 0 {
        law_lists(a, b.drop_last(), x);
        assert((a + b).drop_last() =~= a + b.drop_last());
        assert(render::list_text(a + b) =~= render::list_text(a) + render::list_text(b));
    } else {
        assert(a + b =~= a);
        assert(render::list_text(a + b) =~= render::list_text(a) + render::list_text(b));
    }
}

/// The page of an English report tells the statement, all grounds, all secondary findings
/// where there are any, the next step and the version, in that order and escaped.
pub proof fn law_english_page(name: Seq<char>, p: SharedPage)
    requires
        p.lang is En,
    ensures
        ({
            let notes = if p.secondary@.len() > 0 {
                "<h2>"@ + "[NOTES]"@ + "</h2><ul>"@ + render::list_text(
                    text::texts(p.secondary@),
                ) + "</ul>"@
            } else {
                Seq::empty()
            };
            render::page_text(name, p) == "<!DOCTYPE html><html lang=\""@ + "en"@
                + "\"><head><meta charset=\"utf-8\"><title>"@ + render::escaped(
                "netblame "@ + name,
            ) + "</title></head><body>"@ + "<h1>"@ + "[VERDICT]"@ + " "@ + render::escaped(
                p.headline@,
            ) + "</h1>"@ + ("<h2>"@ + "[EVIDENCE]"@ + "</h2><ul>"@ + render::list_text(
                text::texts(p.evidence@),
            ) + "</ul>"@) + notes + "<h2>"@ + "[NEXT STEP]"@ + "</h2><p>"@ + render::escaped(
                p.next_step@,
            ) + "</p><p>netblame "@ + render::escaped(p.version@) + "</p></body></html>"@
        }),
{
}

/// The page of a Japanese report is the same, with its headings in Japanese.
pub proof fn law_japanese_page(name: Seq<char>, p: SharedPage)
    requires
        p.lang is Ja,
    ensures
        ({
            let notes = if p.secondary@.len() > 0 {
                "<h2>"@ + "【所見】"@ + "</h2><ul>"@ + render::list_text(
                    text::texts(p.secondary@),
                ) + "</ul>"@
            } else {
                Seq::empty()
            };
            render::page_text(name, p) == "<!DOCTYPE html><html lang=\""@ + "ja"@
                + "\"><head><meta charset=\"utf-8\"><title>"@ + render::escaped(
                "netblame "@ + name,
            ) + "</title></head><body>"@ + "<h1>"@ + "【判定】"@ + " "@ + render::escaped(
                p.headline@,
            ) + "</h1>"@ + ("<h2>"@ + "【根拠】"@ + "</h2><ul>"@ + render::list_text(
                text::texts(p.evidence@),
            ) + "</ul>"@) + notes + "<h2>"@ + "【次の一手】"@ + "</h2><p>"@ + render::escaped(
                p.next_step@,
            ) + "</p><p>netblame "@ + render::escaped(p.version@) + "</p></body></html>"@
        }),
{
}

// ── What is read back ───────────────────────────────────────────────────

/// The page of a stored report shows what its document holds at these places.
pub proof fn law_places(body: Seq<u8>)
    ensures
        ({
            let parts = stored::parts_in(body);
            &&& parts.headline == stored::json_text_at(body, "/verdict/headline"@)
            &&& parts.evidence == stored::json_list_at(body, "/verdict/evidence"@)
            &&& parts.secondary == stored::json_list_at(body, "/verdict/secondary"@)
            &&& parts.next_step == stored::json_text_at(body, "/verdict/next_step"@)
            &&& parts.netblame_version == stored::json_text_at(body, "/netblame_version"@)
            &&& parts.created_lang == stored::json_text_at(body, "/created_lang"@)
        }),
{
}

/// Each part of a page is that of the document, and blank where the document has none.
/// The page is in Japanese only where the document says so.
pub proof fn law_parts_of_a_page(p: SharedPage, parts: PagePartsView)
    requires
        stored::page_is(p, parts),
    ensures
        p.lang is Ja <==> parts.created_lang == Some("ja"@),
        parts.headline is Some ==> p.headline@ == parts.headline->0,
        parts.headline is None ==> p.headline@.len() == 0,
        parts.next_step is Some ==> p.next_step@ == parts.next_step->0,
        parts.next_step is None ==> p.next_step@.len() == 0,
        parts.netblame_version is Some ==> p.version@ == parts.netblame_version->0,
        parts.netblame_version is None ==> p.version@.len() == 0,
        parts.evidence is Some ==> text::texts(p.evidence@) == stored::texts_among(
            parts.evidence->0,
        ),
        parts.evidence is None ==> p.evidence@.len() == 0,
        parts.secondary is Some ==> text::texts(p.secondary@) == stored::texts_among(
            parts.secondary->0,
        ),
        parts.secondary is None ==> p.secondary@.len() == 0,
{
    assert(text::texts(p.evidence@).len() == p.evidence@.len());
    assert(text::texts(p.secondary@).len() == p.secondary@.len());
}

/// Items that are no texts are left out; the others stay, in order.
pub proof fn law_items(
    a: Seq<Option<Seq<char>>>,
    b: Seq<Option<Seq<char>>>,
    x: Seq<char>,
)
    ensures
        stored::texts_among(seq![Some(x)]) == seq![x],
        stored::texts_among(seq![None]) == Seq::<Seq<char>>::empty(),
        stored::texts_among(a + b) == stored::texts_among(a) + stored::texts_among(b),
    decreases b.len(),
{
    reveal_with_fuel(stored::texts_among, 2);
    assert(seq![Some(x)].drop_last() =~= Seq::<Option<Seq<char>>>::empty());
    assert(seq![None::<Seq<char>>].drop_last() =~= Seq::<Option<Seq<char>>>::empty());
    assert(Seq::<Seq<char>>::empty().push(x) =~= seq![x]);
    if b.len() > 0 {
        law_items(a, b.drop_last(), x);
        assert((a + b).drop_last() =~= a + b.drop_last());
        assert(stored::texts_among(a + b) =~= stored::texts_among(a) + stored::texts_among(b));
    } else {
        assert(a + b =~= a);
        assert(stored::texts_among(a + b) =~= stored::texts_among(a) + stored::texts_among(b));
    }
}

} // verus!
