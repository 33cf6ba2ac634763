use vstd::prelude::*;
use vstd::string::StrSliceExecFns;

use crate::model::BidRequest;

verus! {

/// A business filtering rule: an independent predicate over a request.
///
/// The deployed policy is an ordered, extensible list of these; new rules
/// are appended, never interleaved, so the audit order stays stable.
#[derive(Clone, Copy, Debug, PartialEq, Eq, Structural)]
pub enum FilterRule {
    /// Drop traffic whose user opted out of ad tracking.
    LimitAdTracking,
    /// Drop internal test traffic coming from the private network.
    PrivateNetworkIp,
}

/// The private-network prefix suppressed by `FilterRule::PrivateNetworkIp`.
pub open spec fn private_prefix() -> Seq<char> {
    "10.10."@
}

/// Whether an IP string begins with the private-network prefix.
pub open spec fn has_private_prefix(ip: Seq<char>) -> bool {
    ip.len() >= 6 && ip.subrange(0, 6) == private_prefix()
}

/// Whether a single rule asks to drop the request.
pub open spec fn rule_matches(rule: FilterRule, r: BidRequest) -> bool {
    match rule {
        FilterRule::LimitAdTracking => r.device matches Some(d) && d.lmt == 1,
        FilterRule::PrivateNetworkIp => r.device matches Some(d) && d.ip matches Some(ip)
            && has_private_prefix(ip@),
    }
}

/// The deployed rule list, in audit order.
pub open spec fn policy_rules() -> Seq<FilterRule> {
    seq![FilterRule::LimitAdTracking, FilterRule::PrivateNetworkIp]
}

/// Stage-2 outcome: a request is dropped iff some deployed rule matches it.
pub open spec fn drops(r: BidRequest) -> bool {
    exists|i: int| 0 <= i < policy_rules().len() && rule_matches(policy_rules()[i], r)
}

/// The deployed rule list as an executable value, in audit order.
pub fn default_rules() -> (rules: Vec<FilterRule>)
    ensures
        rules@ == policy_rules(),
{
    let mut rules: Vec<FilterRule> = Vec::new();
    rules.push(FilterRule::LimitAdTracking);
    rules.push(FilterRule::PrivateNetworkIp);
    proof {
        assert(rules@ =~= policy_rules());
    }
    rules
}

/// Checks whether `ip` begins with the private-network prefix.
fn ip_is_private(ip: &str) -> (b: bool)
    ensures
        b == has_private_prefix(ip@),
{
    proof {
        reveal_strlit("10.10.");
    }
    if ip.unicode_len() < 6 {
        return false;
    }
    let b = ip.get_char(0) == '1' && ip.get_char(1) == '0' && ip.get_char(2) == '.'
        && ip.get_char(3) == '1' && ip.get_char(4) == '0' && ip.get_char(5) == '.';
    proof {
        let sub = ip@.subrange(0, 6);
        assert(sub[0] == ip@[0] && sub[1] == ip@[1] && sub[2] == ip@[2] && sub[3] == ip@[3]
            && sub[4] == ip@[4] && sub[5] == ip@[5]);
        if b {
            assert(sub =~= private_prefix());
        }
    }
    b
}

/// Evaluates one rule against a request. Pure: the result is a function of
/// the rule and the request alone.
pub fn rule_applies(rule: &FilterRule, r: &BidRequest) -> (m: bool)
    ensures
        m == rule_matches(*rule, *r),
{
    match rule {
        FilterRule::LimitAdTracking => match &r.device {
            Some(d) => d.lmt == 1,
            None => false,
        },
        FilterRule::PrivateNetworkIp => match &r.device {
            Some(d) => match &d.ip {
                Some(ip) => ip_is_private(ip.as_str()),
                None => false,
            },
            None => false,
        },
    }
}

/// Stage 2 of the pipeline: evaluates the rules in order, short-circuiting
/// on the first match. Returns true iff the request is to be dropped.
pub fn filter_drops(rules: &Vec<FilterRule>, r: &BidRequest) -> (dropped: bool)
    ensures
        dropped == exists|i: int| 0 <= i < rules@.len() && rule_matches(rules@[i], *r),
{
    let mut idx: usize = 0;
    while idx < rules.len()
        invariant
            idx <= rules.len(),
            forall|j: int| 0 <= j < idx ==> !rule_matches(rules@[j], *r),
        decreases rules.len() - idx,
    {
        if rule_applies(&rules[idx], r) {
            return true;
        }
        idx += 1;
    }
    false
}

} // verus!
