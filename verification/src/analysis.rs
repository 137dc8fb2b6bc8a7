//! Classifying a proposed merge: decoding the store's raw analysis
//! and preference flags, and the decision table applied to them.

use vstd::prelude::*;

verus! {

/// The merge opportunities the store reports for merging a target
/// commit into HEAD, decoded from its raw flag bits.
#[derive(Debug, Clone, Copy, PartialEq, Eq, Structural)]
pub struct AnalysisFlags {
    /// A real merge is needed and possible.
    pub normal: bool,
    /// The target is already reachable from HEAD; nothing to do.
    pub up_to_date: bool,
    /// The target is a descendant of HEAD; a pointer move would do.
    pub fast_forward: bool,
    /// HEAD points at no commit yet.
    pub unborn: bool,
}

/// The store's stated merge policy, decoded from its raw flag bits.
#[derive(Debug, Clone, Copy, PartialEq, Eq, Structural)]
pub struct PreferenceFlags {
    /// Configuration demands fast-forward merges only.
    pub fastforward_only: bool,
}

/// The raw analysis bit assigned to each opportunity.
pub const ANALYSIS_NORMAL_BIT: u32 = 1;
/// The raw analysis bit for an up-to-date target.
pub const ANALYSIS_UP_TO_DATE_BIT: u32 = 2;
/// The raw analysis bit for a fast-forwardable target.
pub const ANALYSIS_FASTFORWARD_BIT: u32 = 4;
/// The raw analysis bit for an unborn HEAD.
pub const ANALYSIS_UNBORN_BIT: u32 = 8;
/// The raw preference bit for a fast-forward-only policy.
pub const PREFERENCE_FASTFORWARD_ONLY_BIT: u32 = 2;

/// Decodes the raw analysis bits into one flag per opportunity.
pub fn decode_analysis(bits: u32) -> (r: AnalysisFlags)
    ensures
        r.normal == (bits & ANALYSIS_NORMAL_BIT != 0),
        r.up_to_date == (bits & ANALYSIS_UP_TO_DATE_BIT != 0),
        r.fast_forward == (bits & ANALYSIS_FASTFORWARD_BIT != 0),
        r.unborn == (bits & ANALYSIS_UNBORN_BIT != 0),
{
    AnalysisFlags {
        normal: bits & ANALYSIS_NORMAL_BIT != 0,
        up_to_date: bits & ANALYSIS_UP_TO_DATE_BIT != 0,
        fast_forward: bits & ANALYSIS_FASTFORWARD_BIT != 0,
        unborn: bits & ANALYSIS_UNBORN_BIT != 0,
    }
}

/// Decodes the raw preference bits into the policy flag.
pub fn decode_preference(bits: u32) -> (r: PreferenceFlags)
    ensures
        r.fastforward_only == (bits & PREFERENCE_FASTFORWARD_ONLY_BIT != 0),
{
    PreferenceFlags { fastforward_only: bits & PREFERENCE_FASTFORWARD_ONLY_BIT != 0 }
}

/// The decision taken on one proposed merge: either proceed with a
/// real merge, or refuse for the stated reason.
#[derive(Debug, Clone, Copy, PartialEq, Eq, Structural)]
pub enum MergeDecision {
    /// A normal merge is possible and allowed; perform it.
    Proceed,
    /// The analysis disallows a normal merge.
    NotNormal,
    /// Policy demands a fast-forward, so a merge commit is refused.
    WouldFastForward,
    /// HEAD has no history to merge onto.
    Unborn,
}

/// The decision table for a proposed merge, first match wins: refuse
/// anything but a normal merge, then honor a fast-forward-only
/// policy, then refuse an unborn HEAD, else proceed.
pub open spec fn merge_decision_spec(a: AnalysisFlags, p: PreferenceFlags) -> MergeDecision {
    if !a.normal {
        MergeDecision::NotNormal
    } else if a.fast_forward && p.fastforward_only {
        MergeDecision::WouldFastForward
    } else if a.unborn {
        MergeDecision::Unborn
    } else {
        MergeDecision::Proceed
    }
}

/// Applies the merge decision table to one analysis and policy.
pub fn merge_decision(a: &AnalysisFlags, p: &PreferenceFlags) -> (d: MergeDecision)
    ensures
        d == merge_decision_spec(*a, *p),
        d == MergeDecision::Proceed <==> (a.normal && !(a.fast_forward && p.fastforward_only)
            && !a.unborn),
{
    if !a.normal {
        MergeDecision::NotNormal
    } else if a.fast_forward && p.fastforward_only {
        MergeDecision::WouldFastForward
    } else if a.unborn {
        MergeDecision::Unborn
    } else {
        MergeDecision::Proceed
    }
}

/// Law: when the upstream's history strictly extends HEAD's, so the
/// analysis reports a possible normal merge that is fast-forwardable
/// from a born HEAD, the merge is refused exactly when policy demands
/// fast-forward-only, and proceeds otherwise.
pub proof fn lemma_fast_forward_rule(a: AnalysisFlags, p: PreferenceFlags)
    requires
        a.normal,
        a.fast_forward,
        !a.unborn,
    ensures
        p.fastforward_only ==> merge_decision_spec(a, p) == MergeDecision::WouldFastForward,
        !p.fastforward_only ==> merge_decision_spec(a, p) == MergeDecision::Proceed,
{
}

} // verus!
