//! Model of the part of a workload that the policy reads and writes: an
//! optional spec section, whose optional security context carries the
//! optional filesystem-group setting. The surrounding host-integration
//! layer converts between this model and the full workload object; the
//! engine never looks at any other field.

use vstd::prelude::*;

verus! {

/// The filesystem-group part of a pod's security context.
#[derive(Clone, Copy, Debug, PartialEq, Eq, Default)]
pub struct PodSecurityContext {
    pub fs_group: Option<i64>,
}

/// The part of a pod's spec section that the policy inspects.
#[derive(Clone, Copy, Debug, PartialEq, Eq, Default)]
pub struct PodSpec {
    pub security_context: Option<PodSecurityContext>,
}

/// A pod as the policy sees it: a workload that may lack a spec section
/// entirely, in which case no decision can be made about it.
#[derive(Clone, Copy, Debug, PartialEq, Eq, Default)]
pub struct Pod {
    pub spec: Option<PodSpec>,
}

/// The filesystem-group value of a spec section, if any: absent when the
/// security context is absent, or present without the field set.
pub open spec fn fs_group_of(ps: PodSpec) -> Option<i64> {
    match ps.security_context {
        Some(sc) => sc.fs_group,
        None => None,
    }
}

/// A pod whose security context holds exactly the filesystem group `g`:
/// the shape that a mutation produces for a pod that had no such value.
pub open spec fn defaulted_pod(g: i64) -> Pod {
    Pod { spec: Some(PodSpec { security_context: Some(PodSecurityContext { fs_group: Some(g) }) }) }
}

} // verus!
