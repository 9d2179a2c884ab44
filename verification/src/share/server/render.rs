//! The pages of the share server: plain HTML, without scripts.

use crate::i18n;
use crate::i18n::{Lang, MsgKey};
use crate::text;
use vstd::prelude::*;

verus! {

/// A stored report, as far as its page shows it.
#[derive(Debug, Clone)]
pub struct SharedPage {
    /// The language that the report was made in.
    pub lang: Lang,
    /// The version of the program that made it.
    pub version: String,
    pub headline: String,
    pub evidence: Vec<String>,
    pub secondary: Vec<String>,
    pub next_step: String,
}

/// What a character is written as in HTML.
pub open spec fn escape(c: char) -> Seq<char> {
    if c == '&' {
        "&amp;"@
    } else if c == '<' {
        "&lt;"@
    } else if c == '>' {
        "&gt;"@
    } else if c == '"' {
        "&quot;"@
    } else if c == '\'' {
        "&#39;"@
    } else {
        seq![c]
    }
}

/// A text as it is written in HTML.
pub open spec fn escaped(s: Seq<char>) -> Seq<char>
    decreases s.len(),
{
    if s.len() == 0 {
        Seq::empty()
    } else {
        escaped(s.drop_last()) + escape(s.last())
    }
}

fn push_escaped(out: &mut String, s: &str)
    ensures
        final(out)@ == old(out)@ + escaped(s@),
{
    let chars = text::chars_of(s);
    let ghost before = out@;
    let mut i: usize = 0;
    while i < chars.len()
        invariant
            i <= chars@.len(),
            chars@ == s@,
            out@ == before + escaped(s@.take(i as int)),
        decreases chars@.len() - i,
    {
        assert(s@.take(i + 1).drop_last() == s@.take(i as int));
        assert(s@.take(i + 1).last() == s@[i as int]);
        let c = chars[i];
        if c == '&' {
            out.append("&amp;");
        } else if c == '<' {
            out.append("&lt;");
        } else if c == '>' {
            out.append("&gt;");
        } else if c == '"' {
            out.append("&quot;");
        } else if c == '\'' {
            out.append("&#39;");
        } else {
            out.push(c);
        }
        assert(out@ == before + escaped(s@.take(i + 1)));
        i = i + 1;
    }
    assert(s@.take(s@.len() as int) == s@);
}

/// The language code of a page.
pub open spec fn code_of(lang: Lang) -> Seq<char> {
    match lang {
        Lang::En => "en"@,
        Lang::Ja => "ja"@,
    }
}

/// The beginning of a page, up to its body.
pub open spec fn head_text(lang: Lang, title: Seq<char>) -> Seq<char> {
    "<!DOCTYPE html><html lang=\""@ + code_of(lang) + "\"><head><meta charset=\"utf-8\"><title>"@
        + escaped(title) + "</title></head><body>"@
}

fn head(lang: Lang, title: &str) -> (s: String)
    ensures
        s@ == head_text(lang, title@),
{
    let mut s = "<!DOCTYPE html><html lang=\"".to_owned();
    match lang {
        Lang::En => s.append("en"),
        Lang::Ja => s.append("ja"),
    }
    s.append("\"><head><meta charset=\"utf-8\"><title>");
    push_escaped(&mut s, title);
    s.append("</title></head><body>");
    s
}

/// A list of texts.
pub open spec fn list_text(items: Seq<Seq<char>>) -> Seq<char>
    decreases items.len(),
{
    if items.len() == 0 {
        Seq::empty()
    } else {
        list_text(items.drop_last()) + ("<li>"@ + escaped(items.last()) + "</li>"@)
    }
}

/// A heading and a list under it.
pub open spec fn section_text(heading: Seq<char>, items: Seq<Seq<char>>) -> Seq<char> {
    "<h2>"@ + heading + "</h2><ul>"@ + list_text(items) + "</ul>"@
}

fn section(heading: &str, items: &[String]) -> (s: String)
    ensures
        s@ == section_text(heading@, text::texts(items@)),
{
    let mut s = "<h2>".to_owned();
    s.append(heading);
    s.append("</h2><ul>");
    let ghost top = s@;
    let ghost all = text::texts(items@);
    let mut i: usize = 0;
    assert(top + list_text(all.take(0)) == top);
    while i < items.len()
        invariant
            i <= items.len(),
            all == text::texts(items@),
            s@ == top + list_text(all.take(i as int)),
        decreases items.len() - i,
    {
        assert(all.take(i + 1).drop_last() == all.take(i as int));
        assert(all.take(i + 1).last() == items@[i as int]@);
        s.append("<li>");
        push_escaped(&mut s, items[i].as_str());
        s.append("</li>");
        assert(s@ == top + list_text(all.take(i + 1)));
        i = i + 1;
    }
    assert(all.take(items@.len() as int) == all);
    s.append("</ul>");
    s
}

/// The page of a report.
pub open spec fn page_text(id: Seq<char>, p: SharedPage) -> Seq<char> {
    head_text(p.lang, "netblame "@ + id) + "<h1>"@ + i18n::msg_text(p.lang, MsgKey::VerdictLabel)
        + " "@ + escaped(p.headline@) + "</h1>"@ + section_text(
        i18n::msg_text(p.lang, MsgKey::EvidenceLabel),
        text::texts(p.evidence@),
    ) + (if p.secondary@.len() > 0 {
        section_text(i18n::msg_text(p.lang, MsgKey::NotesLabel), text::texts(p.secondary@))
    } else {
        Seq::empty()
    }) + "<h2>"@ + i18n::msg_text(p.lang, MsgKey::NextStepLabel) + "</h2><p>"@ + escaped(
        p.next_step@,
    ) + "</p><p>netblame "@ + escaped(p.version@) + "</p></body></html>"@
}

/// The page of a report.
pub fn render_report_page(id: &str, p: &SharedPage) -> (s: String)
    ensures
        s@ == page_text(id@, *p),
{
    let mut title = "netblame ".to_owned();
    title.append(id);
    let mut s = head(p.lang, title.as_str());
    s.append("<h1>");
    s.append(i18n::msg(p.lang, MsgKey::VerdictLabel));
    s.append(" ");
    push_escaped(&mut s, p.headline.as_str());
    s.append("</h1>");
    let grounds = section(i18n::msg(p.lang, MsgKey::EvidenceLabel), p.evidence.as_slice());
    s.append(grounds.as_str());
    let notes = if p.secondary.len() > 0 {
        section(i18n::msg(p.lang, MsgKey::NotesLabel), p.secondary.as_slice())
    } else {
        String::new()
    };
    s.append(notes.as_str());
    s.append("<h2>");
    s.append(i18n::msg(p.lang, MsgKey::NextStepLabel));
    s.append("</h2><p>");
    push_escaped(&mut s, p.next_step.as_str());
    s.append("</p><p>netblame ");
    push_escaped(&mut s, p.version.as_str());
    s.append("</p></body></html>");
    s
}

/// The page for a report that does not exist.
pub open spec fn not_found_text(lang: Lang) -> Seq<char> {
    head_text(lang, "netblame"@) + (match lang {
        Lang::En => "<p>report not found</p></body></html>"@,
        Lang::Ja => "<p>レポートが見つかりません</p></body></html>"@,
    })
}

/// The page for a report that does not exist.
pub fn render_not_found_page(lang: Lang) -> (s: String)
    ensures
        s@ == not_found_text(lang),
{
    let mut s = head(lang, "netblame");
    match lang {
        Lang::En => s.append("<p>report not found</p></body></html>"),
        Lang::Ja => s.append("<p>レポートが見つかりません</p></body></html>"),
    }
    s
}

/// What is written into a page as text holds no markup of its own.
pub proof fn law_escaped_text_holds_no_markup(s: Seq<char>, i: int)
    requires
        0 <= i < escaped(s).len(),
    ensures
        escaped(s)[i] != '<',
        escaped(s)[i] != '>',
        escaped(s)[i] != '"',
        escaped(s)[i] != '\'',
    decreases s.len(),
{
    let front = escaped(s.drop_last());
    if i < front.len() {
        law_escaped_text_holds_no_markup(s.drop_last(), i);
    } else {
        reveal_strlit("&amp;");
        reveal_strlit("&lt;");
        reveal_strlit("&gt;");
        reveal_strlit("&quot;");
        reveal_strlit("&#39;");
        assert(escaped(s)[i] == escape(s.last())[i - front.len()]);
    }
}

} // verus!
