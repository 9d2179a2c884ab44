//! What the record of the stages promises.

use crate::report::StageName;
use crate::stages;
use vstd::prelude::*;

verus! {

/// The stages are eight, in this order.
pub proof fn law_order_of_the_stages()
    ensures
        stages::all_stages().len() == 8,
        stages::all_stages()[0] is Env,
        stages::all_stages()[1] is Dns,
        stages::all_stages()[2] is Tcp,
        stages::all_stages()[3] is Tls,
        stages::all_stages()[4] is Http,
        stages::all_stages()[5] is Quic,
        stages::all_stages()[6] is Path,
        stages::all_stages()[7] is Trace,
{
}

/// Whether a stage was left out depends on itself alone, and the order is that of the list.
pub proof fn law_stages_are_left_out_one_by_one(
    a: Seq<StageName>,
    b: Seq<StageName>,
    stage: StageName,
    ran: Seq<StageName>,
)
    ensures
        stages::left_out(a + b, ran) == stages::left_out(a, ran) + stages::left_out(b, ran),
        ran.contains(stage) ==> stages::left_out(seq![stage], ran).len() == 0,
        !ran.contains(stage) ==> stages::left_out(seq![stage], ran) == seq![stage],
    decreases b.len(),
{
    reveal_with_fuel(stages::left_out, 2);
    assert(seq![stage].drop_last() =~= Seq::<StageName>::empty());
    assert(Seq::<StageName>::empty().push(stage) =~= seq![stage]);
    if b.len() > 0 {
        law_stages_are_left_out_one_by_one(a, b.drop_last(), stage, ran);
        assert((a + b).drop_last() =~= a + b.drop_last());
        assert(stages::left_out(a + b, ran) =~= stages::left_out(a, ran) + stages::left_out(
            b,
            ran,
        ));
    } else {
        assert(a + b =~= a);
        assert(stages::left_out(a + b, ran) =~= stages::left_out(a, ran) + stages::left_out(
            b,
            ran,
        ));
    }
}

/// Each stage has its name.
pub proof fn law_names_of_the_stages()
    ensures
        StageName::Env.code() == "env"@,
        StageName::Dns.code() == "dns"@,
        StageName::Tcp.code() == "tcp"@,
        StageName::Tls.code() == "tls"@,
        StageName::Http.code() == "http"@,
        StageName::Quic.code() == "quic"@,
        StageName::Path.code() == "path"@,
        StageName::Trace.code() == "trace"@,
{
}

} // verus!
