use vstd::prelude::*;

verus! {

/// Where a profiled function's code comes from.
#[derive(Clone, Copy, PartialEq, Eq, Structural, Debug)]
pub enum SourceType {
    /// The page's own scripts.
    AppCode,
    /// Libraries and the JavaScript runtime.
    Runtime,
    /// Browser-internal and native code.
    Native,
}

pub open spec fn spec_source_label(s: SourceType) -> Seq<char> {
    match s {
        SourceType::AppCode => "App"@,
        SourceType::Runtime => "Runtime"@,
        SourceType::Native => "Native"@,
    }
}

impl SourceType {
    pub fn label(&self) -> (label: &'static str)
        ensures
            label@ == spec_source_label(*self),
    {
        match self {
            SourceType::AppCode => "App",
            SourceType::Runtime => "Runtime",
            SourceType::Native => "Native",
        }
    }
}

/// Direction of a difference between two traces.
#[derive(Clone, Copy, PartialEq, Eq, Structural, Debug)]
pub enum FindingSeverity {
    Improved,
    Regressed,
    Neutral,
}

/// One detected difference between two traces.
pub struct Finding {
    pub severity: FindingSeverity,
    pub category: String,
    pub message: String,
    /// Supporting numbers; empty when there are none.
    pub detail: String,
}

/// Number of findings of the given severity.
pub open spec fn spec_count_severity(findings: Seq<Finding>, severity: FindingSeverity) -> nat
    decreases findings.len(),
{
    if findings.len() == 0 {
        0
    } else {
        spec_count_severity(findings.drop_last(), severity) + if findings.last().severity
            == severity {
            1nat
        } else {
            0nat
        }
    }
}

proof fn lemma_count_severity_le(findings: Seq<Finding>, severity: FindingSeverity)
    ensures
        spec_count_severity(findings, severity) <= findings.len(),
    decreases findings.len(),
{
    if findings.len() > 0 {
        lemma_count_severity_le(findings.drop_last(), severity);
    }
}

/// Counts the findings of one severity, as the comparison header shows them.
pub fn count_findings(findings: &Vec<Finding>, severity: FindingSeverity) -> (n: usize)
    ensures
        n == spec_count_severity(findings@, severity),
{
    let mut n: usize = 0;
    let mut i: usize = 0;
    while i < findings.len()
        invariant
            0 <= i <= findings.len(),
            n == spec_count_severity(findings@.take(i as int), severity),
        decreases findings.len() - i,
    {
        proof {
            assert(findings@.take(i + 1).drop_last() =~= findings@.take(i as int));
            lemma_count_severity_le(findings@.take(i as int), severity);
        }
        if findings[i].severity == severity {
            n = n + 1;
        }
        i = i + 1;
    }
    proof {
        assert(findings@.take(i as int) =~= findings@);
    }
    n
}


/// Every finding has exactly one severity: the counts of the three add up
/// to the number of findings.
pub proof fn lemma_severity_counts_partition(findings: Seq<Finding>)
    ensures
        spec_count_severity(findings, FindingSeverity::Improved) + spec_count_severity(
            findings,
            FindingSeverity::Regressed,
        ) + spec_count_severity(findings, FindingSeverity::Neutral) == findings.len(),
    decreases findings.len(),
{
    if findings.len() > 0 {
        lemma_severity_counts_partition(findings.drop_last());
    }
}

} // verus!
