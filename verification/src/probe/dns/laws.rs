//! What the answers to DNS queries promise.

use crate::addr;
use crate::addr::IpAddr;
use crate::i18n::Lang;
use crate::measure::Millis;
use crate::order;
use crate::probe::dns;
use crate::probe::dns::{DirectReply, LookupFault, SystemReply};
use crate::report::{DnsOutcome, DnsSourceResult};
use crate::text::laws;
use vstd::prelude::*;

verus! {

/// The public resolvers are labelled with their address and their operator, the
/// configured ones with their address.
pub proof fn law_labels_tell_the_address(servers: Seq<IpAddr>, lang: Lang, i: int)
    requires
        0 <= i < servers.len(),
    ensures
        ({
            let all = dns::queries_of(servers, lang);
            &&& all[all.len() - 2].label == "1.1.1.1 (Cloudflare)"@
            &&& all[all.len() - 1].label == "8.8.8.8 (Google)"@
            &&& all[i + 1].label.len() > servers[i].shown().len()
            &&& all[i + 1].label.skip(all[i + 1].label.len() - servers[i].shown().len())
                == servers[i].shown()
        }),
{
    let l = dns::queries_of(servers, lang)[i + 1].label;
    let s = servers[i].shown();
    reveal_strlit("local ");
    reveal_strlit("ローカル ");
    assert(l.skip(l.len() - s.len()) =~= s);
}

/// An absolute name is the name with one dot at its end, whether it had it or not.
pub proof fn law_absolute_names(host: Seq<char>)
    ensures
        dns::absolute(host).last() == '.',
        host.len() > 0 ==> dns::absolute(dns::absolute(host)) == dns::absolute(host),
        host.len() == 0 || host.last() != '.' ==> dns::absolute(host) == host.push('.'),
        host.len() > 0 && host.last() == '.' ==> dns::absolute(host) == host,
{
    reveal_strlit(".");
    assert(host + "."@ =~= host.push('.'));
}

/// An answer resolves the name to its addresses, in ascending order and each once, and
/// the time is kept.
pub proof fn law_answers(
    r: DnsSourceResult,
    ips: Vec<IpAddr>,
    latency: Millis,
    lang: Lang,
    ip: IpAddr,
)
    requires
        dns::system_shows(r, SystemReply::Answered(ips), latency) || dns::direct_shows(
            r,
            DirectReply::Answered(ips),
            latency,
            lang,
        ),
    ensures
        r.outcome is Resolved,
        r.latency_ms == Some(latency),
        r.ips@.contains(ip) <==> ips@.contains(ip),
        order::ascending(r.ips@, addr::ip_order()),
{
    addr::laws::law_sorting_keeps_the_addresses(ips@);
}

/// The system resolver says that a name is unknown by one of three phrases, wherever
/// in its complaint. Any other complaint is an error and is told as it is.
pub proof fn law_complaints_of_the_system(r: DnsSourceResult, msg: String, latency: Millis)
    requires
        dns::system_shows(r, SystemReply::Failed(msg), latency),
    ensures
        ({
            let unknown = laws::holds(msg@, "Name or service not known"@) || laws::holds(
                msg@,
                "failed to lookup address"@,
            ) || laws::holds(msg@, "nodename nor servname"@);
            &&& unknown ==> r.outcome is NxDomain
            &&& !unknown ==> r.outcome == DnsOutcome::Error(msg)
        }),
        r.ips@.len() == 0,
        r.latency_ms == Some(latency),
{
    laws::law_search(msg@, "Name or service not known"@);
    laws::law_search(msg@, "failed to lookup address"@);
    laws::law_search(msg@, "nodename nor servname"@);
}

/// A query that timed out has neither addresses nor a time, whoever was asked.
pub proof fn law_timeouts(r: DnsSourceResult, latency: Millis, lang: Lang)
    requires
        dns::system_shows(r, SystemReply::TimedOut, latency) || dns::direct_shows(
            r,
            DirectReply::TimedOut,
            latency,
            lang,
        ),
    ensures
        r.outcome is Timeout,
        r.ips@.len() == 0,
        r.latency_ms is None,
{
}

/// A name does not exist where the server has no records and answers with code 3; the
/// server has failed where it answers with code 2. Every other answer is an error whose
/// text holds that of the code.
pub proof fn law_response_codes(
    r: DnsSourceResult,
    none: bool,
    code: u16,
    words: String,
    latency: Millis,
    lang: Lang,
)
    requires
        dns::direct_shows(
            r,
            DirectReply::Failed(
                if none {
                    LookupFault::NoRecords { code, words }
                } else {
                    LookupFault::Response { code, words }
                },
            ),
            latency,
            lang,
        ),
    ensures
        r.outcome is NxDomain <==> none && code == 3,
        r.outcome is ServFail <==> !none && code == 2,
        r.outcome is NxDomain || r.outcome is ServFail || (r.outcome is Error && laws::holds(
            r.outcome->Error_0@,
            words@,
        )),
        r.ips@.len() == 0,
        r.latency_ms == Some(latency),
{
    if r.outcome is Error {
        let e = r.outcome->Error_0@;
        if none {
            assert(laws::is_made_of(e, "no records ("@, words@, ")"@) || laws::is_made_of(
                e,
                "レコードなし ("@,
                words@,
                ")"@,
            ));
        } else {
            assert(e + Seq::<char>::empty() =~= e);
            assert(laws::is_made_of(e, "response code "@, words@, Seq::empty())
                || laws::is_made_of(e, "応答コード "@, words@, Seq::empty()));
        }
    }
}

/// Any other fault of a lookup is an error that is told as it is, and one that timed
/// out is told as that.
pub proof fn law_other_faults(r: DnsSourceResult, fault: LookupFault, latency: Millis, lang: Lang)
    requires
        dns::direct_shows(r, DirectReply::Failed(fault), latency, lang),
    ensures
        fault is Other ==> r.outcome == DnsOutcome::Error(fault->Other_0),
        fault is TimedOut ==> r.outcome is Timeout,
{
}

} // verus!
