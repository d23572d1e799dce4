//! Policy configuration: the active rule and its permitted ranges, with
//! validation that runs once at configuration-load time.

use vstd::prelude::*;

verus! {

/// A closed integer interval `[min, max]`. A range is valid when
/// `min <= max`.
#[derive(Clone, Copy, Debug, PartialEq, Eq)]
pub struct Range {
    pub min: i64,
    pub max: i64,
}

pub open spec fn range_valid(r: Range) -> bool {
    r.min <= r.max
}

/// Whether `v` lies in the closed interval `[r.min, r.max]`, both
/// boundaries included.
pub open spec fn range_contains(r: Range, v: i64) -> bool {
    r.min <= v && v <= r.max
}

impl Range {
    /// Checks the range's own invariant: `min` must not exceed `max`.
    pub fn check(&self) -> (r: Result<(), String>)
        ensures
            r is Ok <==> range_valid(*self),
            r matches Err(m) ==> m@ == "min on range cannot be greater than max"@,
    {
        if self.min > self.max {
            return Err("min on range cannot be greater than max".to_owned());
        }
        Ok(())
    }

    /// The membership test: true iff `min <= v <= max`.
    pub fn contains(&self, v: i64) -> (b: bool)
        ensures
            b == range_contains(*self, v),
    {
        self.min <= v && v <= self.max
    }
}

/// The ordered sequence of permitted ranges, in configuration order; the
/// order is authoritative (the first entry supplies the default value for
/// a mutation) and the sequence need not be sorted or non-overlapping.
#[derive(Clone, Debug, PartialEq, Eq)]
pub struct Ranges {
    pub ranges: Vec<Range>,
}

/// The configured enforcement mode for the filesystem-group constraint.
#[derive(Clone, Debug, PartialEq, Eq)]
pub enum Rule {
    MustRunAs(Ranges),
    MayRunAs(Ranges),
    RunAsAny,
}

impl Rule {
    /// The rule's name, as configuration and error messages spell it.
    pub fn name(&self) -> (s: &'static str)
        ensures
            self is MustRunAs ==> s@ == "MustRunAs"@,
            self is MayRunAs ==> s@ == "MayRunAs"@,
            self is RunAsAny ==> s@ == "RunAsAny"@,
    {
        match self {
            Rule::MustRunAs(_) => "MustRunAs",
            Rule::MayRunAs(_) => "MayRunAs",
            Rule::RunAsAny => "RunAsAny",
        }
    }
}

/// The validated policy configuration: exactly one rule.
#[derive(Clone, Debug, PartialEq, Eq)]
pub struct Settings {
    pub rule: Rule,
}

pub open spec fn ranges_all_valid(rs: Seq<Range>) -> bool {
    forall|i: int| 0 <= i < rs.len() ==> range_valid(rs[i])
}

/// The validation invariant: rules that carry ranges need at least one,
/// and every range must satisfy `min <= max`.
pub open spec fn settings_valid(s: Settings) -> bool {
    match s.rule {
        Rule::RunAsAny => true,
        Rule::MayRunAs(ranges) => ranges.ranges@.len() > 0 && ranges_all_valid(ranges.ranges@),
        Rule::MustRunAs(ranges) => ranges.ranges@.len() > 0 && ranges_all_valid(ranges.ranges@),
    }
}

/// The outcome that validation must produce on `s`: `None` for success,
/// `Some(m)` for a configuration error with message `m`. Emptiness is
/// checked first and short-circuits, so an empty range list is reported
/// as the emptiness error, never as an invalid-range error.
pub open spec fn validate_error(s: Settings) -> Option<Seq<char>> {
    match s.rule {
        Rule::RunAsAny => None,
        Rule::MayRunAs(ranges) => if ranges.ranges@.len() == 0 {
            Some("MayRunAs must contain at least one range"@)
        } else if !ranges_all_valid(ranges.ranges@) {
            Some("all ranges must be valid"@)
        } else {
            None
        },
        Rule::MustRunAs(ranges) => if ranges.ranges@.len() == 0 {
            Some("MustRunAs must contain at least one range"@)
        } else if !ranges_all_valid(ranges.ranges@) {
            Some("all ranges must be valid"@)
        } else {
            None
        },
    }
}

/// `r` is a result that validation may return on `s`: success exactly
/// when no error is owed, and otherwise the owed message.
pub open spec fn validate_result(s: Settings, r: Result<(), String>) -> bool {
    match validate_error(s) {
        None => r == Ok::<(), String>(()),
        Some(m) => r matches Err(msg) && msg@ == m,
    }
}

/// Every range in `ranges` satisfies its own invariant.
fn all_ranges_valid(ranges: &Ranges) -> (b: bool)
    ensures
        b == ranges_all_valid(ranges.ranges@),
{
    let n = ranges.ranges.len();
    let mut i: usize = 0;
    while i < n
        invariant
            n == ranges.ranges@.len(),
            i <= n,
            forall|j: int| 0 <= j < i ==> range_valid(ranges.ranges@[j]),
        decreases n - i,
    {
        match ranges.ranges[i].check() {
            Ok(_) => {}
            Err(_) => {
                return false;
            }
        }
        i += 1;
    }
    true
}

impl Settings {
    /// Validates the configuration once, before any workload is
    /// evaluated: a rule that carries ranges fails with an error naming
    /// the rule when its range list is empty, and with a generic error
    /// when some range has `min > max`; `RunAsAny` is always valid.
    pub fn validate(&self) -> (r: Result<(), String>)
        ensures
            validate_result(*self, r),
            r is Ok <==> settings_valid(*self),
    {
        match &self.rule {
            Rule::RunAsAny => Ok(()),
            Rule::MayRunAs(ranges) => {
                if ranges.ranges.len() == 0 {
                    Err("MayRunAs must contain at least one range".to_owned())
                } else if !all_ranges_valid(ranges) {
                    Err("all ranges must be valid".to_owned())
                } else {
                    Ok(())
                }
            }
            Rule::MustRunAs(ranges) => {
                if ranges.ranges.len() == 0 {
                    Err("MustRunAs must contain at least one range".to_owned())
                } else if !all_ranges_valid(ranges) {
                    Err("all ranges must be valid".to_owned())
                } else {
                    Ok(())
                }
            }
        }
    }
}

impl Default for Settings {
    /// The configuration that applies before any is supplied: no
    /// constraint at all.
    fn default() -> (s: Settings)
        ensures
            s.rule is RunAsAny,
    {
        Settings { rule: Rule::RunAsAny }
    }
}

/// Validation is idempotent and deterministic: any two results that meet
/// the validation contract on the same settings agree, and in particular
/// a settings value that validated successfully validates successfully
/// again, with the very same result.
pub proof fn lemma_validate_idempotent(s: Settings, r1: Result<(), String>, r2: Result<(), String>)
    requires
        validate_result(s, r1),
        validate_result(s, r2),
    ensures
        r1 is Ok <==> r2 is Ok,
        r1 is Ok ==> r1 == r2,
        r1 matches Err(m1) ==> r2 matches Err(m2) && m1@ == m2@,
{
}

} // verus!
