//! The decision engine: a pure function from a workload and validated
//! settings to one of three outcomes — accept, reject with an
//! explanation, or accept after filling in a default filesystem group.

use vstd::prelude::*;

use crate::settings::{range_contains, Range, Ranges, Rule, Settings};
use crate::text::{concat3, dec_str, dec_string};
use crate::workload::{defaulted_pod, fs_group_of, Pod, PodSecurityContext, PodSpec};

verus! {

/// The tri-state outcome of one admission decision. No outcome carries
/// both a mutation and a rejection.
#[derive(Clone, Debug, PartialEq, Eq)]
pub enum PolicyResponse {
    Accept,
    Reject(String),
    Mutate(Pod),
}

/// Whether some range of the configured sequence admits `v`. Order does
/// not affect this boolean.
pub open spec fn matches_any(rs: Seq<Range>, v: i64) -> bool {
    exists|i: int| 0 <= i < rs.len() && range_contains(rs[i], v)
}

/// The rejection message for a value that no configured range admits.
pub open spec fn reject_message(v: int) -> Seq<char> {
    "fsGroup "@ + dec_str(v) + " is not included in any range"@
}

/// The response owed for a present value `v` under a rule with ranges
/// `rs`: accept on a match, otherwise reject with the message that names
/// the value. No mutation occurs once a value is already set.
pub open spec fn checked_response(rs: Seq<Range>, v: i64, resp: PolicyResponse) -> bool {
    if matches_any(rs, v) {
        resp == PolicyResponse::Accept
    } else {
        resp matches PolicyResponse::Reject(m) && m@ == reject_message(v as int)
    }
}

/// The full decision contract: what result the engine owes for every
/// workload and every rule. A workload without a spec section is an
/// engine-level error, never a policy verdict.
pub open spec fn decide_result(pod: Pod, settings: Settings, r: Result<
    PolicyResponse,
    String,
>) -> bool {
    match pod.spec {
        None => r matches Err(m) && m@ == "invalid pod spec"@,
        Some(ps) => match settings.rule {
            Rule::RunAsAny => r == Ok::<PolicyResponse, String>(PolicyResponse::Accept),
            Rule::MayRunAs(ranges) => match fs_group_of(ps) {
                None => r == Ok::<PolicyResponse, String>(PolicyResponse::Accept),
                Some(v) => r matches Ok(resp) && checked_response(ranges.ranges@, v, resp),
            },
            Rule::MustRunAs(ranges) => match fs_group_of(ps) {
                None => r == Ok::<PolicyResponse, String>(
                    PolicyResponse::Mutate(defaulted_pod(ranges.ranges@[0].min)),
                ),
                Some(v) => r matches Ok(resp) && checked_response(ranges.ranges@, v, resp),
            },
        },
    }
}

/// Runs the membership test for a present filesystem-group value:
/// accepts on the first range that admits it, in configuration order,
/// and otherwise rejects with a message naming the value.
pub fn validate_fs_group(fs_group: i64, ranges: Ranges) -> (resp: PolicyResponse)
    ensures
        checked_response(ranges.ranges@, fs_group, resp),
{
    let n = ranges.ranges.len();
    let mut i: usize = 0;
    while i < n
        invariant
            n == ranges.ranges@.len(),
            i <= n,
            forall|j: int| 0 <= j < i ==> !range_contains(ranges.ranges@[j], fs_group),
        decreases n - i,
    {
        if ranges.ranges[i].contains(fs_group) {
            return PolicyResponse::Accept;
        }
        i += 1;
    }
    let digits = dec_string(fs_group);
    PolicyResponse::Reject(concat3("fsGroup ", digits.as_str(), " is not included in any range"))
}

/// Decides one workload against validated settings: `RunAsAny` accepts
/// unconditionally; `MayRunAs` accepts an absent value and tests a
/// present one; `MustRunAs` fills an absent value in with the minimum
/// bound of the first configured range and tests a present one. The
/// non-empty-range precondition is the validator's invariant, which lets
/// the engine read the first range safely.
pub fn do_validate(pod: Pod, settings: Settings) -> (r: Result<PolicyResponse, String>)
    requires
        settings.rule matches Rule::MustRunAs(ranges) ==> ranges.ranges@.len() > 0,
    ensures
        decide_result(pod, settings, r),
{
    let pod_spec = match pod.spec {
        Some(ps) => ps,
        None => {
            return Err("invalid pod spec".to_owned());
        },
    };
    match settings.rule {
        Rule::MustRunAs(ranges) => {
            let fs_group = match pod_spec.security_context {
                Some(sc) => sc.fs_group,
                None => None,
            };
            match fs_group {
                Some(v) => Ok(validate_fs_group(v, ranges)),
                None => Ok(
                    PolicyResponse::Mutate(
                        Pod {
                            spec: Some(
                                PodSpec {
                                    security_context: Some(
                                        PodSecurityContext { fs_group: Some(ranges.ranges[0].min) },
                                    ),
                                },
                            ),
                        },
                    ),
                ),
            }
        },
        Rule::MayRunAs(ranges) => {
            let fs_group = match pod_spec.security_context {
                Some(sc) => sc.fs_group,
                None => None,
            };
            match fs_group {
                Some(v) => Ok(validate_fs_group(v, ranges)),
                None => Ok(PolicyResponse::Accept),
            }
        },
        Rule::RunAsAny => Ok(PolicyResponse::Accept),
    }
}

/// A `RunAsAny` decision is independent of the workload's field state:
/// every workload that exposes a spec section is accepted, whatever its
/// security settings hold.
pub proof fn lemma_run_as_any_accepts(pod: Pod, settings: Settings, r: Result<
    PolicyResponse,
    String,
>)
    requires
        pod.spec is Some,
        settings.rule is RunAsAny,
        decide_result(pod, settings, r),
    ensures
        r == Ok::<PolicyResponse, String>(PolicyResponse::Accept),
{
}

/// Under `MayRunAs`, absence of the filesystem-group value always yields
/// acceptance, regardless of the configured ranges: absence under an
/// optional rule means no constraint was requested.
pub proof fn lemma_may_run_as_absent_accepts(pod: Pod, settings: Settings, r: Result<
    PolicyResponse,
    String,
>)
    requires
        pod.spec matches Some(ps) && fs_group_of(ps) is None,
        settings.rule is MayRunAs,
        decide_result(pod, settings, r),
    ensures
        r == Ok::<PolicyResponse, String>(PolicyResponse::Accept),
{
}

} // verus!
