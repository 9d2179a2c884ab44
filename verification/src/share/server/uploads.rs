//! What the share server does with an upload and with a request for a report: who
//! asked, whether it is admitted, and what is answered.

use crate::addr;
use crate::addr::IpAddr;
use crate::clock::Moment;
use crate::share::server::id;
use crate::share::server::ratelimit;
use crate::share::server::ratelimit::SlidingWindowLimiter;
use crate::share::ShareResponse;
use crate::text;
use vstd::prelude::*;
use vstd::slice::slice_subrange;

verus! {

// ── Who asked ───────────────────────────────────────────────────────────

/// The address of the client: the first entry of `X-Forwarded-For` where it is an
/// address, else the address of the connection.
pub open spec fn client_of(forwarded: Option<&str>, peer: IpAddr) -> IpAddr {
    match forwarded {
        Some(list) => match addr::ip_of(text::trimmed(text::before(list@, ','))) {
            Some(ip) => ip,
            None => peer,
        },
        None => peer,
    }
}

/// Finds the address of the client.
pub fn client_ip(forwarded: Option<&str>, peer: IpAddr) -> (ip: IpAddr)
    ensures
        ip == client_of(forwarded, peer),
{
    let list = match forwarded {
        Some(list) => text::chars_of(list),
        None => {
            return peer;
        },
    };
    let end = text::find(list.as_slice(), ',');
    let first = slice_subrange(list.as_slice(), 0, end);
    assert(first@ == list@.take(end as int));
    match addr::read_ip(text::trim(first)) {
        Some(ip) => ip,
        None => peer,
    }
}

// ── Whether an upload is admitted ───────────────────────────────────────

/// The complaint of `serde_json` about bytes that are not a JSON document, in
/// words; nothing for those that are one.
pub uninterp spec fn json_error(body: Seq<u8>) -> Option<Seq<char>>;

/// The bytes are a JSON document, an object with a member of that name that is an
/// object itself, as `serde_json` reads it.
pub uninterp spec fn json_member_is_object(body: Seq<u8>, key: Seq<char>) -> bool;

/// Calls `serde_json::from_slice` for a `serde_json::Value` and gives the text of
/// its error. The result is a function of the bytes and has a name.
#[verifier::external_body]
pub(crate) fn json_fault(body: &[u8]) -> (r: Option<String>)
    ensures
        match r {
            Some(e) => json_error(body@) == Some(e@),
            None => json_error(body@) is None,
        },
{
    match serde_json::from_slice::<serde_json::Value>(body) {
        Ok(_) => None,
        Err(e) => Some(e.to_string()),
    }
}

/// Calls `serde_json::Value::get` on the document that `serde_json::from_slice`
/// reads, and `serde_json::Value::is_object` on what it finds. The result is a
/// function of the bytes and the key and has a name; it does not hold of bytes that
/// are no document.
#[verifier::external_body]
fn has_object(body: &[u8], key: &str) -> (r: bool)
    ensures
        r == json_member_is_object(body@, key@),
        json_error(body@) is Some ==> !r,
{
    match serde_json::from_slice::<serde_json::Value>(body) {
        Ok(value) => value.get(key).is_some_and(serde_json::Value::is_object),
        Err(_) => false,
    }
}

/// A refusal: the status and the text of the answer.
#[derive(Debug, Clone, PartialEq)]
pub struct Refusal {
    pub status: u16,
    pub message: String,
}

/// Too many requests.
pub const TOO_MANY_REQUESTS: u16 = 429;

/// The body is too large.
pub const PAYLOAD_TOO_LARGE: u16 = 413;

/// The body is not what is expected.
pub const BAD_REQUEST: u16 = 400;

/// The report could not be stored.
pub const INTERNAL_SERVER_ERROR: u16 = 500;

/// There is no such report.
pub const NOT_FOUND: u16 = 404;

/// The answer to an upload that is refused, as status and text; nothing for one
/// that is admitted. It must be within the rate limit and the size limit, be JSON,
/// and hold a `verdict` object; the first of these that fails is answered.
pub open spec fn refused(
    allowed: bool,
    size: nat,
    max_bytes: u64,
    fault: Option<Seq<char>>,
    has_verdict: bool,
) -> Option<(u16, Seq<char>)> {
    if !allowed {
        Some((TOO_MANY_REQUESTS, "rate limit exceeded"@))
    } else if size > max_bytes {
        Some((PAYLOAD_TOO_LARGE, "report body too large"@))
    } else if fault is Some {
        Some((BAD_REQUEST, "invalid JSON: "@ + fault->0))
    } else if !has_verdict {
        Some((BAD_REQUEST, "missing or invalid \"verdict\" object"@))
    } else {
        None
    }
}

/// The refusal is that answer.
pub open spec fn answers(r: Option<Refusal>, answer: Option<(u16, Seq<char>)>) -> bool {
    match (r, answer) {
        (Some(r), Some((status, message))) => r.status == status && r.message@ == message,
        (None, None) => true,
        _ => false,
    }
}

fn refuse(status: u16, message: &str) -> (r: Option<Refusal>)
    ensures
        answers(r, Some((status, message@))),
{
    Some(Refusal { status, message: message.to_owned() })
}

/// Decides on an upload within the limits, given what its body turned out to be.
pub fn judge_upload(fault: Option<String>, has_verdict: bool) -> (r: Option<Refusal>)
    ensures
        answers(
            r,
            refused(
                true,
                0,
                0,
                match fault {
                    Some(e) => Some(e@),
                    None => None,
                },
                has_verdict,
            ),
        ),
{
    match fault {
        Some(e) => {
            let mut s = "invalid JSON: ".to_owned();
            s.append(e.as_str());
            refuse(BAD_REQUEST, s.as_str())
        },
        None => if has_verdict {
            None
        } else {
            refuse(BAD_REQUEST, "missing or invalid \"verdict\" object")
        },
    }
}

/// Decides on an upload, given whether the rate limit allows it.
pub fn screen(allowed: bool, body: &[u8], max_bytes: u64) -> (r: Option<Refusal>)
    ensures
        answers(
            r,
            refused(
                allowed,
                body@.len(),
                max_bytes,
                json_error(body@),
                json_member_is_object(body@, "verdict"@),
            ),
        ),
{
    if !allowed {
        return refuse(TOO_MANY_REQUESTS, "rate limit exceeded");
    }
    if body.len() as u64 > max_bytes {
        return refuse(PAYLOAD_TOO_LARGE, "report body too large");
    }
    judge_upload(json_fault(body), has_object(body, "verdict"))
}

/// Decides on an upload of a client. Whether the rate limit allows it depends on the
/// clock; everything after that does not.
pub fn screen_client(
    limiter: &mut SlidingWindowLimiter,
    ip: IpAddr,
    body: &[u8],
    max_bytes: u64,
) -> (r: Option<Refusal>)
    ensures
        exists|now: Moment|
            answers(
                r,
                refused(
                    #[trigger] ratelimit::recent(
                        old(limiter).history(ip),
                        now,
                        old(limiter).window(),
                    ).len() < old(limiter).limit(),
                    body@.len(),
                    max_bytes,
                    json_error(body@),
                    json_member_is_object(body@, "verdict"@),
                ),
            ) && final(limiter).history(ip) == ratelimit::after_request(
                old(limiter).history(ip),
                now,
                old(limiter).limit(),
                old(limiter).window(),
            ),
        old(limiter).history(ip).len() < old(limiter).limit() ==> answers(
            r,
            refused(
                true,
                body@.len(),
                max_bytes,
                json_error(body@),
                json_member_is_object(body@, "verdict"@),
            ),
        ),
        old(limiter).limit() == 0 ==> answers(
            r,
            refused(
                false,
                body@.len(),
                max_bytes,
                json_error(body@),
                json_member_is_object(body@, "verdict"@),
            ),
        ),
        forall|other: IpAddr|
            other != ip ==> #[trigger] final(limiter).history(other) == old(limiter).history(other),
        final(limiter).limit() == old(limiter).limit(),
        final(limiter).window() == old(limiter).window(),
{
    let allowed = limiter.allow(ip);
    screen(allowed, body, max_bytes)
}

/// The size limit in bytes, given in KiB; `None` where it does not fit.
pub fn body_limit(kib: u64) -> (r: Option<u64>)
    ensures
        match r {
            Some(n) => n == kib * 1024,
            None => kib * 1024 > u64::MAX,
        },
{
    if kib <= 0x3f_ffff_ffff_ffff {
        Some(kib * 1024)
    } else {
        None
    }
}

// ── What is answered ────────────────────────────────────────────────────

/// The base of the links to reports: the public URL without trailing slashes where
/// one is set, else `https` and the host that was asked.
pub open spec fn base_of(public_url: Option<&str>, host: Option<&str>) -> Seq<char> {
    match public_url {
        Some(url) => text::without_trailing(url@, '/'),
        None => "https://"@ + (match host {
            Some(host) => host@,
            None => "localhost"@,
        }),
    }
}

/// The base of the links to reports.
pub fn public_base_url(public_url: Option<&str>, host: Option<&str>) -> (s: String)
    ensures
        s@ == base_of(public_url, host),
{
    match public_url {
        Some(url) => text::trim_end(url, '/'),
        None => {
            let mut s = "https://".to_owned();
            match host {
                Some(host) => s.append(host),
                None => s.append("localhost"),
            }
            s
        },
    }
}

/// The answer to an upload that was stored: the identifier of the report and the
/// link to it.
pub fn stored(id: &str, base: &str) -> (r: ShareResponse)
    ensures
        r.id@ == id@,
        r.url@ == base@ + "/r/"@ + id@,
{
    let mut url = base.to_owned();
    url.append("/r/");
    url.append(id);
    ShareResponse { id: id.to_owned(), url }
}

/// The answer to an upload that could not be stored.
pub fn store_failed(error: &str) -> (r: Refusal)
    ensures
        r.status == INTERNAL_SERVER_ERROR,
        r.message@ == "failed to store report: "@ + error@,
{
    let mut message = "failed to store report: ".to_owned();
    message.append(error);
    Refusal { status: INTERNAL_SERVER_ERROR, message }
}

/// The name of the file of a report.
pub open spec fn file_of(id: Seq<char>) -> Seq<char> {
    id + ".json"@
}

/// The name of the file of a report; `None` for a text that is no identifier.
pub fn report_file(id: &str) -> (name: Option<String>)
    ensures
        match name {
            Some(name) => id::valid_id(id@) && name@ == file_of(id@),
            None => !id::valid_id(id@),
        },
{
    if !id::is_valid_id(id) {
        return None;
    }
    let mut name = id.to_owned();
    name.append(".json");
    Some(name)
}

/// The answer to a request for a report that does not exist.
pub fn not_found() -> (r: Refusal)
    ensures
        r.status == NOT_FOUND,
        r.message@ == "report not found"@,
{
    Refusal { status: NOT_FOUND, message: "report not found".to_owned() }
}

// ── What holds of every upload ──────────────────────────────────────────

/// An upload is admitted exactly where the rate limit allows it, its size is within
/// the limit, it is JSON, and it holds a verdict. Every other one is answered with
/// the status of the first of these that fails.
pub proof fn law_uploads_are_admitted_or_answered(
    allowed: bool,
    size: nat,
    max_bytes: u64,
    fault: Option<Seq<char>>,
    has_verdict: bool,
)
    ensures
        ({
            let r = refused(allowed, size, max_bytes, fault, has_verdict);
            &&& r is None <==> allowed && size <= max_bytes && fault is None && has_verdict
            &&& r matches Some((status, _)) ==> status == if !allowed {
                TOO_MANY_REQUESTS
            } else if size > max_bytes {
                PAYLOAD_TOO_LARGE
            } else {
                BAD_REQUEST
            }
        }),
{
}

/// The file of a report stays within its directory, whatever was asked for.
pub proof fn law_report_files_stay_in_their_directory(id: Seq<char>)
    requires
        id::valid_id(id),
    ensures
        !file_of(id).contains('/'),
        !file_of(id).contains('\\'),
        file_of(id)[0] != '.',
{
    reveal_strlit(".json");
    id::law_ids_are_plain_file_names(id);
    assert(id::is_symbol(id[0]));
    assert forall|i: int| 0 <= i < file_of(id).len() implies file_of(id)[i] != '/' && file_of(
        id,
    )[i] != '\\' by {
        if i < id.len() {
            assert(id::is_symbol(id[i]));
        } else {
            assert(file_of(id)[i] == ".json"@[i - id.len()]);
        }
    }
}

} // verus!
