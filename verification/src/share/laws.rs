//! What sharing promises, on the side of the program.

use crate::share;
use crate::text;
use crate::text::laws;
use vstd::prelude::*;

verus! {

/// The slashes at the end of a URL.
pub open spec fn slashes(s: Seq<char>) -> bool {
    forall|i: int| 0 <= i < s.len() ==> #[trigger] s[i] == '/'
}

/// A base URL is that of the flag, or else of the environment, or else the default; one
/// that is empty counts as not given. Slashes at its end are taken off, however many.
pub proof fn law_base_url(
    flag: Option<&str>,
    env: Option<&str>,
    base: Seq<char>,
    tail: Seq<char>,
)
    requires
        slashes(tail),
        base.len() > 0,
        base.last() != '/',
    ensures
        ({
            let url = text::without_trailing(share::chosen_base(flag, env), '/');
            let no_flag = flag is None || flag->0@.len() == 0;
            let no_env = env is None || env->0@.len() == 0;
            &&& flag is Some && flag->0@ == base + tail ==> url == base
            &&& no_flag && env is Some && env->0@ == base + tail ==> url == base
            &&& no_flag && no_env ==> url == "https://share.pathvector.dev"@
        }),
{
    laws::law_trailing(base, tail, '/');
    reveal_strlit("https://share.pathvector.dev");
    let d = "https://share.pathvector.dev"@;
    laws::law_trailing(d, Seq::empty(), '/');
    assert(d + Seq::<char>::empty() =~= d);
}

} // verus!
