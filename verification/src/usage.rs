//! The usage monitor: renders usage counters under a reply and raises a
//! context-limit advisory above the high-water mark.

use vstd::prelude::*;
use vstd::string::StringExecFns;
use crate::gateway::Usage;
use crate::text::{spec_dec, u64_to_dec};

verus! {

/// The footer rendered under a reply when the provider reported usage
/// counters.
pub open spec fn spec_usage_footer(u: Usage) -> Seq<char> {
    "\n\n`usage "@ + spec_dec(u.total_tokens as nat) + " tokens = "@ + spec_dec(
        u.prompt_tokens as nat,
    ) + " prompt + "@ + spec_dec(u.completion_tokens as nat) + " completion`"@
}

/// The advisory appended when the total token count passes the high-water
/// mark.
pub open spec fn spec_advisory() -> Seq<char> {
    "\n`Reaching 8k limit, consider running /reset soon`"@
}

/// The reply text after the usage monitor has run: unchanged without
/// counters; with counters, the footer follows, and the reset advisory too
/// once the total exceeds `threshold`.
pub open spec fn spec_apply_usage(reply: Seq<char>, usage: Option<Usage>, threshold: u32) -> Seq<
    char,
> {
    match usage {
        None => reply,
        Some(u) => if u.total_tokens > threshold {
            reply + spec_usage_footer(u) + spec_advisory()
        } else {
            reply + spec_usage_footer(u)
        },
    }
}

/// Renders the usage footer for `u`.
pub fn usage_footer(u: &Usage) -> (r: String)
    ensures
        r@ == spec_usage_footer(*u),
{
    let mut r = String::from_str("\n\n`usage ");
    let total = u64_to_dec(u.total_tokens as u64);
    r.append(total.as_str());
    r.append(" tokens = ");
    let prompt = u64_to_dec(u.prompt_tokens as u64);
    r.append(prompt.as_str());
    r.append(" prompt + ");
    let completion = u64_to_dec(u.completion_tokens as u64);
    r.append(completion.as_str());
    r.append(" completion`");
    proof {
        assert(r@ =~= spec_usage_footer(*u));
    }
    r
}

/// Appends the usage footer, and the reset advisory when the total exceeds
/// `threshold`, to an outbound reply.
pub fn apply_usage(reply: String, usage: &Option<Usage>, threshold: u32) -> (r: String)
    ensures
        r@ == spec_apply_usage(reply@, *usage, threshold),
{
    match usage {
        None => reply,
        Some(u) => {
            let mut r = reply;
            let footer = usage_footer(u);
            r.append(footer.as_str());
            if u.total_tokens > threshold {
                r.append("\n`Reaching 8k limit, consider running /reset soon`");
            }
            r
        },
    }
}

} // verus!
