//! Sharing of reports: where a report is uploaded to, and what comes of it.

pub mod laws;
pub mod server;

use crate::i18n;
use crate::i18n::Lang;
use crate::report::Report;
use crate::text;
use crate::verdict::RenderedVerdict;
use vstd::prelude::*;

verus! {

/// The share server that is used when no other one is named.
pub const DEFAULT_SHARE_URL: &'static str = "https://share.pathvector.dev";

/// What is uploaded: the report and its verdict, and what the server needs to show
/// them.
#[derive(Debug)]
pub struct SharePayload<'a> {
    pub report: &'a Report,
    pub verdict: &'a RenderedVerdict,
    /// The version of the program that made the report.
    pub netblame_version: &'a str,
    /// The language to show it in.
    pub created_lang: Lang,
}

/// The answer to an upload.
#[derive(Debug, Clone)]
pub struct ShareResponse {
    pub id: String,
    pub url: String,
}

/// The first of the two that is given and not empty, or else the default.
pub open spec fn chosen_base(flag: Option<&str>, env: Option<&str>) -> Seq<char> {
    if flag is Some && flag->0@.len() > 0 {
        flag->0@
    } else if env is Some && env->0@.len() > 0 {
        env->0@
    } else {
        DEFAULT_SHARE_URL@
    }
}

fn given(s: Option<&str>) -> (r: bool)
    ensures
        r == (s is Some && s->0@.len() > 0),
{
    match s {
        Some(s) => text::chars_of(s).len() > 0,
        None => false,
    }
}

/// The base URL to upload to: the flag, else the environment, else the default,
/// without trailing slashes.
pub fn resolve_base_url(flag: Option<&str>, env: Option<&str>) -> (s: String)
    ensures
        s@ == text::without_trailing(chosen_base(flag, env), '/'),
{
    if given(flag) {
        if let Some(s) = flag {
            return text::trim_end(s, '/');
        }
    }
    if given(env) {
        if let Some(s) = env {
            return text::trim_end(s, '/');
        }
    }
    text::trim_end(DEFAULT_SHARE_URL, '/')
}

/// The URL that a report is posted to.
pub fn endpoint(base: &str) -> (s: String)
    ensures
        s@ == base@ + "/api/reports"@,
{
    let mut s = base.to_owned();
    s.append("/api/reports");
    s
}

/// How an upload ended.
pub enum UploadEnd {
    /// The server stored the report.
    Stored(ShareResponse),
    /// The server accepted it, but its answer could not be read.
    Unreadable(String),
    /// The server refused it, with this status line and body.
    Refused { status: String, body: String },
    /// The server could not be reached.
    Unreachable(String),
}

/// The line about an upload: `Ok` for one that worked, `Err` for a warning.
pub fn upload_line(lang: Lang, end: &UploadEnd) -> (r: Result<String, String>)
    ensures
        match (*end, r) {
            (UploadEnd::Stored(resp), Ok(s)) => s@ == i18n::share_success_text(lang, resp.url@),
            (UploadEnd::Unreadable(e), Err(s)) => s@ == i18n::share_failed_text(lang, e@),
            (UploadEnd::Refused { status, body }, Err(s)) => s@ == i18n::share_failed_text(
                lang,
                status@ + ": "@ + body@,
            ),
            (UploadEnd::Unreachable(e), Err(s)) => s@ == i18n::share_failed_text(lang, e@),
            _ => false,
        },
{
    match end {
        UploadEnd::Stored(resp) => Ok(i18n::share_success_line(lang, resp.url.as_str())),
        UploadEnd::Unreadable(e) => Err(i18n::share_failed_line(lang, e.as_str())),
        UploadEnd::Refused { status, body } => {
            let mut s = status.clone();
            s.append(": ");
            s.append(body.as_str());
            Err(i18n::share_failed_line(lang, s.as_str()))
        },
        UploadEnd::Unreachable(e) => Err(i18n::share_failed_line(lang, e.as_str())),
    }
}

/// A base URL never ends in a slash, so that paths can be joined to it with one.
pub proof fn law_base_url_has_no_trailing_slash(flag: Option<&str>, env: Option<&str>)
    ensures
        ({
            let s = text::without_trailing(chosen_base(flag, env), '/');
            s.len() == 0 || s.last() != '/'
        }),
{
    text::lemma_without_trailing(chosen_base(flag, env), '/');
}

} // verus!
