//! What the share server makes of a report that it has stored: the page that shows
//! it, and its JSON.

use crate::i18n::Lang;
use crate::share::server::render::SharedPage;
use crate::share::server::uploads;
use crate::text;
use vstd::prelude::*;

verus! {

// ── What the document holds ─────────────────────────────────────────────

/// The string at a place in a JSON document, given as a JSON Pointer, as `serde_json`
/// reads it; nothing where no string stands there, or where the bytes are no
/// document.
pub uninterp spec fn json_text_at(body: Seq<u8>, place: Seq<char>) -> Option<Seq<char>>;

/// The items of the array at a place in a JSON document, given as a JSON Pointer, as
/// `serde_json` reads it: the text of each item that is a string, and nothing for
/// another one. Nothing at all where no array stands there, or where the bytes are no
/// document.
pub uninterp spec fn json_list_at(body: Seq<u8>, place: Seq<char>) -> Option<
    Seq<Option<Seq<char>>>,
>;

/// A JSON document as `serde_json` writes it, without spaces between its parts;
/// nothing where the bytes are no document.
pub uninterp spec fn json_written(body: Seq<u8>) -> Option<Seq<char>>;

pub open spec fn text_view(t: Option<String>) -> Option<Seq<char>> {
    match t {
        Some(t) => Some(t@),
        None => None,
    }
}

/// The contents of the items of a list.
pub open spec fn item_views(items: Seq<Option<String>>) -> Seq<Option<Seq<char>>> {
    Seq::new(items.len(), |i: int| text_view(items[i]))
}

pub open spec fn list_view(items: Option<Vec<Option<String>>>) -> Option<Seq<Option<Seq<char>>>> {
    match items {
        Some(items) => Some(item_views(items@)),
        None => None,
    }
}

/// Calls `serde_json::Value::pointer` on the document that `serde_json::from_slice`
/// reads, and `serde_json::Value::as_str` on what it finds. The result is a function
/// of the bytes and the place and has a name; bytes that are no document hold no
/// string.
#[verifier::external_body]
fn text_at(body: &[u8], place: &str) -> (r: Option<String>)
    ensures
        text_view(r) == json_text_at(body@, place@),
        uploads::json_error(body@) is Some ==> r is None,
{
    match serde_json::from_slice::<serde_json::Value>(body) {
        Ok(value) => value.pointer(place).and_then(serde_json::Value::as_str).map(str::to_string),
        Err(_) => None,
    }
}

/// Calls `serde_json::Value::pointer` on the document that `serde_json::from_slice`
/// reads, `serde_json::Value::as_array` on what it finds, and
/// `serde_json::Value::as_str` on each item. The result is a function of the bytes
/// and the place and has a name; bytes that are no document hold no array.
#[verifier::external_body]
fn list_at(body: &[u8], place: &str) -> (r: Option<Vec<Option<String>>>)
    ensures
        list_view(r) == json_list_at(body@, place@),
        uploads::json_error(body@) is Some ==> r is None,
{
    match serde_json::from_slice::<serde_json::Value>(body) {
        Ok(value) => value.pointer(place).and_then(serde_json::Value::as_array).map(
            |items| items.iter().map(|v| v.as_str().map(str::to_string)).collect(),
        ),
        Err(_) => None,
    }
}

/// Calls the `Display` implementation of `serde_json::Value` on the document that
/// `serde_json::from_slice` reads. The result is a function of the bytes and has a
/// name; there is one exactly where the bytes are a document.
#[verifier::external_body]
fn written(body: &[u8]) -> (r: Option<String>)
    ensures
        text_view(r) == json_written(body@),
        r is None <==> uploads::json_error(body@) is Some,
{
    match serde_json::from_slice::<serde_json::Value>(body) {
        Ok(value) => Some(value.to_string()),
        Err(_) => None,
    }
}

// ── The page ────────────────────────────────────────────────────────────

/// What a page is made of, each as far as the stored document has it.
pub struct PageParts {
    pub created_lang: Option<String>,
    pub netblame_version: Option<String>,
    pub headline: Option<String>,
    /// The items of the list; `None` for one that is not a text.
    pub evidence: Option<Vec<Option<String>>>,
    pub secondary: Option<Vec<Option<String>>>,
    pub next_step: Option<String>,
}

/// The contents of [`PageParts`].
#[verifier::ext_equal]
pub struct PagePartsView {
    pub created_lang: Option<Seq<char>>,
    pub netblame_version: Option<Seq<char>>,
    pub headline: Option<Seq<char>>,
    pub evidence: Option<Seq<Option<Seq<char>>>>,
    pub secondary: Option<Seq<Option<Seq<char>>>>,
    pub next_step: Option<Seq<char>>,
}

impl View for PageParts {
    type V = PagePartsView;

    open spec fn view(&self) -> PagePartsView {
        PagePartsView {
            created_lang: text_view(self.created_lang),
            netblame_version: text_view(self.netblame_version),
            headline: text_view(self.headline),
            evidence: list_view(self.evidence),
            secondary: list_view(self.secondary),
            next_step: text_view(self.next_step),
        }
    }
}

/// A text, or a blank in its place.
pub open spec fn or_blank(t: Option<Seq<char>>) -> Seq<char> {
    match t {
        Some(t) => t,
        None => Seq::empty(),
    }
}

/// The texts among the items, in order.
pub open spec fn texts_among(items: Seq<Option<Seq<char>>>) -> Seq<Seq<char>>
    decreases items.len(),
{
    if items.len() == 0 {
        Seq::empty()
    } else {
        let front = texts_among(items.drop_last());
        match items.last() {
            Some(t) => front.push(t),
            None => front,
        }
    }
}

/// The texts of a list; none where there is no list.
pub open spec fn or_none(items: Option<Seq<Option<Seq<char>>>>) -> Seq<Seq<char>> {
    match items {
        Some(items) => texts_among(items),
        None => Seq::empty(),
    }
}

/// The page is made of these parts. It is in Japanese where the report says `ja`, else
/// in English; what is missing is left blank.
pub open spec fn page_is(p: SharedPage, parts: PagePartsView) -> bool {
    &&& p.lang == if parts.created_lang == Some("ja"@) {
        Lang::Ja
    } else {
        Lang::En
    }
    &&& p.version@ == or_blank(parts.netblame_version)
    &&& p.headline@ == or_blank(parts.headline)
    &&& text::texts(p.evidence@) == or_none(parts.evidence)
    &&& text::texts(p.secondary@) == or_none(parts.secondary)
    &&& p.next_step@ == or_blank(parts.next_step)
}

fn keep(t: Option<String>) -> (s: String)
    ensures
        s@ == or_blank(text_view(t)),
{
    match t {
        Some(t) => t,
        None => {
            let s = String::new();
            assert(s@ == Seq::<char>::empty());
            s
        },
    }
}

fn keep_texts(items: Option<Vec<Option<String>>>) -> (list: Vec<String>)
    ensures
        text::texts(list@) == or_none(list_view(items)),
{
    let mut list: Vec<String> = Vec::new();
    assert(text::texts(list@) == Seq::<Seq<char>>::empty());
    if let Some(items) = items {
        let ghost all = item_views(items@);
        let mut i: usize = 0;
        assert(all.take(0) == Seq::<Option<Seq<char>>>::empty());
        while i < items.len()
            invariant
                i <= items@.len(),
                all == item_views(items@),
                text::texts(list@) == texts_among(all.take(i as int)),
            decreases items@.len() - i,
        {
            assert(all.take(i + 1).drop_last() == all.take(i as int));
            assert(all.take(i + 1).last() == text_view(items@[i as int]));
            if let Some(t) = &items[i] {
                let ghost before = text::texts(list@);
                let t = t.clone();
                list.push(t);
                assert(text::texts(list@) == before.push(t@));
            }
            i = i + 1;
        }
        assert(all.take(all.len() as int) == all);
    }
    list
}

/// Makes a page of its parts.
pub fn make_page(parts: PageParts) -> (p: SharedPage)
    ensures
        page_is(p, parts@),
{
    let lang = match &parts.created_lang {
        Some(code) => if text::same_text(code.as_str(), "ja") {
            Lang::Ja
        } else {
            Lang::En
        },
        None => Lang::En,
    };
    SharedPage {
        lang,
        version: keep(parts.netblame_version),
        headline: keep(parts.headline),
        evidence: keep_texts(parts.evidence),
        secondary: keep_texts(parts.secondary),
        next_step: keep(parts.next_step),
    }
}

// ── A stored report ─────────────────────────────────────────────────────

/// The bytes are a JSON document.
pub open spec fn is_document(body: Seq<u8>) -> bool {
    uploads::json_error(body) is None
}

/// The parts of a page, where the stored document has them.
pub open spec fn parts_in(body: Seq<u8>) -> PagePartsView {
    PagePartsView {
        created_lang: json_text_at(body, "/created_lang"@),
        netblame_version: json_text_at(body, "/netblame_version"@),
        headline: json_text_at(body, "/verdict/headline"@),
        evidence: json_list_at(body, "/verdict/evidence"@),
        secondary: json_list_at(body, "/verdict/secondary"@),
        next_step: json_text_at(body, "/verdict/next_step"@),
    }
}

/// The page of a stored report; `None` exactly where the bytes are no JSON document.
pub fn stored_page(body: &[u8]) -> (p: Option<SharedPage>)
    ensures
        match p {
            Some(p) => is_document(body@) && page_is(p, parts_in(body@)),
            None => !is_document(body@),
        },
{
    if uploads::json_fault(body).is_some() {
        return None;
    }
    let parts = PageParts {
        created_lang: text_at(body, "/created_lang"),
        netblame_version: text_at(body, "/netblame_version"),
        headline: text_at(body, "/verdict/headline"),
        evidence: list_at(body, "/verdict/evidence"),
        secondary: list_at(body, "/verdict/secondary"),
        next_step: text_at(body, "/verdict/next_step"),
    };
    assert(parts@ == parts_in(body@));
    Some(make_page(parts))
}

/// The JSON of a stored report; `None` exactly where the bytes are no JSON document.
pub fn stored_json(body: &[u8]) -> (r: Option<String>)
    ensures
        text_view(r) == json_written(body@),
        r is Some <==> is_document(body@),
{
    written(body)
}

// ── What holds of every stored report ───────────────────────────────────

/// An upload that is accepted is a document, so that its page and its JSON can be
/// had.
pub proof fn law_accepted_uploads_are_shown(allowed: bool, body: Seq<u8>, max_bytes: u64)
    requires
        uploads::refused(
            allowed,
            body.len(),
            max_bytes,
            uploads::json_error(body),
            uploads::json_member_is_object(body, "verdict"@),
        ) is None,
    ensures
        is_document(body),
{
}

/// A list of texts is shown in full and in order.
pub proof fn law_every_text_is_shown(items: Seq<Option<Seq<char>>>)
    requires
        forall|i: int| 0 <= i < items.len() ==> #[trigger] items[i] is Some,
    ensures
        texts_among(items).len() == items.len(),
        forall|i: int| 0 <= i < items.len() ==> #[trigger] items[i] == Some(texts_among(items)[i]),
    decreases items.len(),
{
    if items.len() > 0 {
        let front = items.drop_last();
        assert forall|i: int| 0 <= i < front.len() implies #[trigger] front[i] is Some by {
            assert(front[i] == items[i]);
        }
        law_every_text_is_shown(front);
        assert forall|i: int| 0 <= i < items.len() implies #[trigger] items[i] == Some(
            texts_among(items)[i],
        ) by {
            if i < front.len() {
                assert(front[i] == items[i]);
            }
        }
    }
}

} // verus!
