//! Sharing: the client side and the decisions of the server.

use netblame::addr::{parse_ip, IpAddr};
use netblame::clock::Moment;
use netblame::i18n::Lang;
use netblame::measure::Millis;
use netblame::share::server::id::{generate_id, id_from_bytes, is_valid_id, ID_CHARSET, ID_LEN};
use netblame::share::server::ratelimit::{check, SlidingWindowLimiter};
use netblame::share::server::render::{render_not_found_page, render_report_page, SharedPage};
use netblame::share::server::retention::{files_to_prune, should_prune, Timestamp};
use netblame::share::server::stored::{make_page, stored_json, stored_page, PageParts};
use netblame::share::server::uploads::{
    body_limit, client_ip, not_found, public_base_url, report_file, screen, screen_client,
    store_failed, stored,
};
use netblame::share::{
    endpoint, resolve_base_url, upload_line, ShareResponse, UploadEnd, DEFAULT_SHARE_URL,
};
use std::time::{SystemTime, UNIX_EPOCH};

// ── Base URL ────────────────────────────────────────────────────────────

#[test]
fn base_url_prefers_flag() {
    assert_eq!(
        resolve_base_url(Some("https://flag.example/"), Some("https://env.example")),
        "https://flag.example"
    );
}

#[test]
fn base_url_falls_back_to_env() {
    assert_eq!(
        resolve_base_url(None, Some("https://env.example/")),
        "https://env.example"
    );
}

#[test]
fn base_url_falls_back_to_default() {
    assert_eq!(resolve_base_url(None, None), DEFAULT_SHARE_URL);
}

#[test]
fn base_url_ignores_empty_strings() {
    assert_eq!(resolve_base_url(Some(""), Some("")), DEFAULT_SHARE_URL);
}

#[test]
fn base_url_strips_trailing_slash() {
    assert_eq!(resolve_base_url(Some("http://x/"), None), "http://x");
}

#[test]
fn base_url_strips_all_trailing_slashes() {
    assert_eq!(resolve_base_url(Some("http://x///"), None), "http://x");
    assert_eq!(endpoint("http://x"), "http://x/api/reports");
}

#[test]
fn uploads_are_told() {
    let ok = UploadEnd::Stored(ShareResponse {
        id: "ab12cd34ef".into(),
        url: "https://share.pathvector.dev/r/ab12cd34ef".into(),
    });
    assert_eq!(
        upload_line(Lang::En, &ok),
        Ok("Report shared: https://share.pathvector.dev/r/ab12cd34ef".into())
    );
    let refused = UploadEnd::Refused {
        status: "429 Too Many Requests".into(),
        body: "rate limit exceeded".into(),
    };
    assert_eq!(
        upload_line(Lang::En, &refused),
        Err("failed to share the report: 429 Too Many Requests: rate limit exceeded".into())
    );
    assert_eq!(
        upload_line(Lang::Ja, &UploadEnd::Unreachable("x".into())),
        Err("レポートの共有に失敗: x".into())
    );
    assert!(upload_line(Lang::En, &UploadEnd::Unreadable("x".into())).is_err());
}

// ── Identifiers ─────────────────────────────────────────────────────────

#[test]
fn id_from_bytes_has_correct_length_and_charset() {
    let bytes: Vec<u8> = (0..ID_LEN as u8).collect();
    let id = id_from_bytes(&bytes);
    assert_eq!(id.len(), ID_LEN);
    assert!(id.bytes().all(|b| ID_CHARSET.contains(&b)));
}

#[test]
fn id_from_bytes_is_deterministic() {
    let bytes = [1u8, 2, 3, 4, 5, 6, 7, 8, 9, 10];
    assert_eq!(id_from_bytes(&bytes), id_from_bytes(&bytes));
}

#[test]
fn id_from_bytes_truncates_extra_input() {
    let short = [0u8; ID_LEN];
    let long: Vec<u8> = [0u8; ID_LEN].into_iter().chain([99, 99, 99]).collect();
    assert_eq!(id_from_bytes(&short), id_from_bytes(&long));
}

#[test]
fn generated_id_is_valid() {
    let id = generate_id();
    assert!(is_valid_id(&id), "generated id {id} was not valid");
}

#[test]
fn valid_id_accepts_correct_shape() {
    assert!(is_valid_id("ab12cd34ef"));
}

#[test]
fn valid_id_rejects_wrong_length() {
    assert!(!is_valid_id("short"));
    assert!(!is_valid_id("waytoolongtobevalidid"));
    assert!(!is_valid_id(""));
}

#[test]
fn valid_id_rejects_bad_characters() {
    assert!(!is_valid_id("AB12cd34ef"));
    assert!(!is_valid_id("../../etc12"));
    assert!(!is_valid_id("ab12cd34-f"));
}

#[test]
fn two_generated_ids_differ() {
    assert_ne!(generate_id(), generate_id());
}

#[test]
fn id_symbols_wrap_around() {
    assert_eq!(id_from_bytes(&[0, 25, 26, 35, 36, 255]), "az09ad");
    assert_eq!(id_from_bytes(&[]), "");
}

#[test]
fn report_files_need_a_valid_id() {
    assert_eq!(report_file("ab12cd34ef"), Some("ab12cd34ef.json".into()));
    assert_eq!(report_file("../../etc12"), None);
}

// ── Rate limit ──────────────────────────────────────────────────────────

fn secs(n: u64) -> Millis {
    Millis {
        nanos: n * 1_000_000_000,
    }
}

#[test]
fn allows_up_to_limit() {
    let mut history = Vec::new();
    let now = Moment { nanos: 7 };
    for _ in 0..5 {
        assert!(check(&mut history, now, 5, secs(60)));
        history.push(now);
    }
    assert!(!check(&mut history, now, 5, secs(60)));
}

#[test]
fn old_entries_age_out_of_the_window() {
    let mut history = Vec::new();
    let t0 = Moment { nanos: 7 };
    history.push(t0);
    history.push(t0);
    let later = Moment {
        nanos: t0.nanos + secs(120).nanos,
    };
    assert!(check(&mut history, later, 1, secs(60)));
    assert!(history.is_empty(), "aged-out entries should be pruned");
}

#[test]
fn limiter_end_to_end_blocks_after_limit() {
    let mut limiter = SlidingWindowLimiter::new(2, secs(60));
    let ip: IpAddr = parse_ip("127.0.0.1").unwrap();
    assert!(limiter.allow(ip));
    assert!(limiter.allow(ip));
    assert!(!limiter.allow(ip));
}

#[test]
fn limiter_tracks_ips_independently() {
    let mut limiter = SlidingWindowLimiter::new(1, secs(60));
    let a: IpAddr = parse_ip("127.0.0.1").unwrap();
    let b: IpAddr = parse_ip("127.0.0.2").unwrap();
    assert!(limiter.allow(a));
    assert!(!limiter.allow(a));
    assert!(limiter.allow(b));
}

#[test]
fn zero_limit_always_rejects() {
    let mut history = Vec::new();
    let now = Moment { nanos: 7 };
    assert!(!check(&mut history, now, 0, secs(60)));
}

#[test]
fn window_slides() {
    let mut limiter = SlidingWindowLimiter::new(2, secs(60));
    let ip = parse_ip("::1").unwrap();
    let at = |n: u64| Moment {
        nanos: n * 1_000_000_000,
    };
    assert!(limiter.allow_at(ip, at(0)));
    assert!(limiter.allow_at(ip, at(30)));
    assert!(!limiter.allow_at(ip, at(60)));
    assert!(limiter.allow_at(ip, at(61)));
    assert!(!limiter.allow_at(ip, at(90)));
    assert!(limiter.allow_at(ip, at(91)));
}

#[test]
fn mapped_and_plain_addresses_are_different_clients() {
    let mut limiter = SlidingWindowLimiter::new(1, secs(60));
    assert!(limiter.allow(parse_ip("1.2.3.4").unwrap()));
    assert!(limiter.allow(parse_ip("::ffff:1.2.3.4").unwrap()));
    assert!(!limiter.allow(parse_ip("1.2.3.4").unwrap()));
}

// ── Retention ───────────────────────────────────────────────────────────

fn timestamp_now() -> Timestamp {
    let since = SystemTime::now().duration_since(UNIX_EPOCH).unwrap();
    Timestamp {
        nanos: since.as_nanos() as i128,
    }
}

fn days_ago(now: Timestamp, days: i128) -> Timestamp {
    Timestamp {
        nanos: now.nanos - days * 24 * 60 * 60 * 1_000_000_000,
    }
}

#[test]
fn keeps_recent_file() {
    let now = timestamp_now();
    let modified = days_ago(now, 1);
    assert!(!should_prune(modified, now, 30));
}

#[test]
fn prunes_file_older_than_retention() {
    let now = timestamp_now();
    let modified = days_ago(now, 31);
    assert!(should_prune(modified, now, 30));
}

#[test]
fn boundary_exactly_at_retention_is_kept() {
    let now = timestamp_now();
    let modified = days_ago(now, 30);
    assert!(!should_prune(modified, now, 30));
}

#[test]
fn future_mtime_is_never_pruned() {
    let now = timestamp_now();
    let modified = Timestamp {
        nanos: now.nanos + 3600 * 1_000_000_000,
    };
    assert!(!should_prune(modified, now, 30));
}

#[test]
fn files_to_prune_filters_correctly() {
    let now = timestamp_now();
    let entries = vec![
        ("fresh", days_ago(now, 1)),
        ("stale", days_ago(now, 60)),
        ("boundary", days_ago(now, 30)),
    ];
    let pruned = files_to_prune(&entries, now, 30);
    assert_eq!(pruned, vec!["stale"]);
}

#[test]
fn zero_retention_days_prunes_anything_with_nonzero_age() {
    let now = timestamp_now();
    let modified = days_ago(now, 1);
    assert!(should_prune(modified, now, 0));
}

#[test]
fn retention_across_the_epoch() {
    let before = Timestamp { nanos: -1 };
    let after = Timestamp {
        nanos: 86_400_000_000_000 - 1,
    };
    assert!(!should_prune(before, after, 1));
    assert!(should_prune(before, Timestamp { nanos: after.nanos + 1 }, 1));
    assert!(should_prune(
        Timestamp { nanos: i128::MIN },
        Timestamp { nanos: i128::MAX },
        u32::MAX
    ));
}

// ── Uploads ─────────────────────────────────────────────────────────────

#[test]
fn client_address_comes_from_the_proxy_header() {
    let peer = parse_ip("10.0.0.1").unwrap();
    assert_eq!(
        client_ip(Some(" 203.0.113.9 , 10.0.0.2"), peer),
        parse_ip("203.0.113.9").unwrap()
    );
    assert_eq!(client_ip(Some("unknown"), peer), peer);
    assert_eq!(client_ip(Some(""), peer), peer);
    assert_eq!(client_ip(None, peer), peer);
}

#[test]
fn uploads_are_screened() {
    let good = br#"{"verdict":{"culprit":"NoProblem"}}"#;
    assert_eq!(screen(true, good, 256), None);
    let r = screen(false, good, 256).unwrap();
    assert_eq!(r.status, 429);
    assert_eq!(r.message, "rate limit exceeded");
    let r = screen(true, good, 4).unwrap();
    assert_eq!(r.status, 413);
    assert_eq!(r.message, "report body too large");
    let r = screen(true, b"{", 256).unwrap();
    assert_eq!(r.status, 400);
    assert!(r.message.starts_with("invalid JSON: EOF while parsing"));
    for bad in [&b"{}"[..], br#"{"verdict":1}"#, br#"[{"verdict":{}}]"#] {
        let r = screen(true, bad, 256).unwrap();
        assert_eq!(r.status, 400);
        assert_eq!(r.message, "missing or invalid \"verdict\" object");
    }
}

#[test]
fn clients_are_screened_with_the_limiter() {
    let mut limiter = SlidingWindowLimiter::new(1, secs(60));
    let ip = parse_ip("127.0.0.1").unwrap();
    let body = br#"{"verdict":{}}"#;
    assert_eq!(screen_client(&mut limiter, ip, body, 256), None);
    assert_eq!(
        screen_client(&mut limiter, ip, body, 256).unwrap().status,
        429
    );
}

#[test]
fn answers_of_the_server() {
    assert_eq!(
        public_base_url(Some("https://share.example.com//"), Some("x")),
        "https://share.example.com"
    );
    assert_eq!(public_base_url(None, Some("host:8788")), "https://host:8788");
    assert_eq!(public_base_url(None, None), "https://localhost");
    let r = stored("ab12cd34ef", "https://share.example.com");
    assert_eq!(r.id, "ab12cd34ef");
    assert_eq!(r.url, "https://share.example.com/r/ab12cd34ef");
    assert_eq!(store_failed("disk full").status, 500);
    assert_eq!(
        store_failed("disk full").message,
        "failed to store report: disk full"
    );
    assert_eq!(not_found().status, 404);
    assert_eq!(body_limit(256), Some(262_144));
    assert_eq!(body_limit(u64::MAX), None);
}

#[test]
fn pages_are_escaped() {
    let page = SharedPage {
        lang: Lang::En,
        version: "0.6.0".into(),
        headline: "<script>&\"'".into(),
        evidence: vec!["a".into(), "b".into()],
        secondary: vec![],
        next_step: "c".into(),
    };
    let html = render_report_page("ab12cd34ef", &page);
    assert!(html.contains("<h1>[VERDICT] &lt;script&gt;&amp;&quot;&#39;</h1>"));
    assert!(html.contains("<ul><li>a</li><li>b</li></ul>"));
    assert!(!html.contains("[NOTES]"));
    assert!(html.contains("<title>netblame ab12cd34ef</title>"));
    assert!(render_not_found_page(Lang::Ja).contains("レポートが見つかりません"));
}

// ── Stored reports ──────────────────────────────────────────────────────

const STORED: &str = r#"{
  "report": {"headline": "not this one"},
  "verdict": {
    "headline": "the server is slow",
    "evidence": ["a", 1, null, "b", ["c"]],
    "secondary": ["note \u0026 more"],
    "next_step": "wait"
  },
  "netblame_version": "0.6.0",
  "created_lang": "ja"
}"#;

#[test]
fn stored_report_is_shown() {
    let page = stored_page(STORED.as_bytes()).unwrap();
    assert_eq!(page.lang, Lang::Ja);
    assert_eq!(page.version, "0.6.0");
    assert_eq!(page.headline, "the server is slow");
    assert_eq!(page.evidence, vec!["a", "b"]);
    assert_eq!(page.secondary, vec!["note & more"]);
    assert_eq!(page.next_step, "wait");
}

#[test]
fn what_a_stored_report_lacks_is_blank() {
    for body in ["{}", "[1]", r#"{"verdict":["x"],"created_lang":["ja"],"netblame_version":6}"#] {
        let page = stored_page(body.as_bytes()).unwrap();
        assert_eq!(page.lang, Lang::En);
        assert_eq!(page.version, "");
        assert_eq!(page.headline, "");
        assert!(page.evidence.is_empty());
        assert!(page.secondary.is_empty());
        assert_eq!(page.next_step, "");
    }
    for code in ["en", "JA", "ja_JP", ""] {
        let body = format!("{{\"created_lang\":\"{code}\"}}");
        assert_eq!(stored_page(body.as_bytes()).unwrap().lang, Lang::En);
    }
}

#[test]
fn damaged_report_is_not_shown() {
    for body in [&b""[..], b"{", b"\xff", b"{} x"] {
        assert!(stored_page(body).is_none());
        assert!(stored_json(body).is_none());
    }
}

#[test]
fn stored_report_is_given_as_json() {
    assert_eq!(
        stored_json(b" { \"b\" : [ 1 , null ] } "),
        Some(r#"{"b":[1,null]}"#.to_string())
    );
}

#[test]
fn accepted_upload_can_be_shown() {
    assert_eq!(screen(true, STORED.as_bytes(), 1024), None);
    assert!(stored_page(STORED.as_bytes()).is_some());
    assert!(stored_json(STORED.as_bytes()).is_some());
}

#[test]
fn page_is_made_of_its_parts() {
    let page = make_page(PageParts {
        created_lang: Some("ja".into()),
        netblame_version: None,
        headline: Some("h".into()),
        evidence: Some(vec![None, Some("x".into()), None, Some("y".into())]),
        secondary: None,
        next_step: Some("n".into()),
    });
    assert_eq!(page.lang, Lang::Ja);
    assert_eq!(page.version, "");
    assert_eq!(page.headline, "h");
    assert_eq!(page.evidence, vec!["x", "y"]);
    assert!(page.secondary.is_empty());
    assert_eq!(page.next_step, "n");
}
