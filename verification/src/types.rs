//! The result records that a check produces: the tri-state verdict, the
//! per-registry record, the per-name record with its summary, and the
//! registry listing record.

use vstd::prelude::*;

verus! {

/// Verdict for one name at one registry. `Unknown` means the probe could not
/// establish a confident verdict (transport failure, unexpected status, or an
/// unparsable body).
#[derive(Debug, Clone, Copy, PartialEq, Eq, Structural)]
pub enum Availability {
    Available,
    Taken,
    Unknown,
}

impl Availability {
    /// The upper-case label used when a verdict is printed.
    pub fn label(&self) -> (s: &'static str)
        ensures
            s@ == (match *self {
                Availability::Available => "AVAILABLE"@,
                Availability::Taken => "TAKEN"@,
                Availability::Unknown => "UNKNOWN"@,
            }),
    {
        match self {
            Availability::Available => "AVAILABLE",
            Availability::Taken => "TAKEN",
            Availability::Unknown => "UNKNOWN",
        }
    }
}

/// Outcome of one probe: one registry queried for one name.
#[derive(Debug)]
pub struct PackageResult {
    pub registry_id: String,
    pub registry_name: String,
    pub available: Availability,
    pub browse_url: Option<String>,
    pub elapsed_ms: u64,
    pub error: Option<String>,
}

/// All outcomes for one name, with their summary.
#[derive(Debug)]
pub struct CheckResult {
    pub name: String,
    pub summary: Summary,
    pub results: Vec<PackageResult>,
    pub elapsed_ms: u64,
}

/// Counts of the verdicts across one name's results.
#[derive(Debug, Clone, Copy, PartialEq, Eq, Structural)]
pub struct Summary {
    pub available: usize,
    pub taken: usize,
    pub unknown: usize,
    pub total: usize,
}

/// Listing record for one registry.
#[derive(Debug)]
pub struct RegistryInfo {
    pub id: String,
    pub name: String,
    pub ecosystem: String,
    pub languages: Vec<String>,
}

/// How many of the results carry the verdict `a`.
pub open spec fn count_with(rs: Seq<PackageResult>, a: Availability) -> nat
    decreases rs.len(),
{
    if rs.len() == 0 {
        0
    } else {
        count_with(rs.drop_last(), a) + (if rs.last().available == a {
            1nat
        } else {
            0nat
        })
    }
}

/// The summary `s` holds exactly the verdict counts of `rs`.
pub open spec fn summary_matches(s: Summary, rs: Seq<PackageResult>) -> bool {
    &&& s.available == count_with(rs, Availability::Available)
    &&& s.taken == count_with(rs, Availability::Taken)
    &&& s.unknown == count_with(rs, Availability::Unknown)
    &&& s.total == rs.len()
}

/// Two result collections with pointwise equal verdicts have equal counts.
pub proof fn lemma_counts_pointwise(
    rs1: Seq<PackageResult>,
    rs2: Seq<PackageResult>,
    a: Availability,
)
    requires
        rs1.len() == rs2.len(),
        forall|i: int| 0 <= i < rs1.len() ==> (#[trigger] rs1[i]).available == rs2[i].available,
    ensures
        count_with(rs1, a) == count_with(rs2, a),
    decreases rs1.len(),
{
    if rs1.len() > 0 {
        lemma_counts_pointwise(rs1.drop_last(), rs2.drop_last(), a);
    }
}

/// Every result carries exactly one of the three verdicts, so the three
/// counts partition the collection: their sum equals its length.
pub proof fn lemma_counts_partition(rs: Seq<PackageResult>)
    ensures
        count_with(rs, Availability::Available) + count_with(rs, Availability::Taken) + count_with(
            rs,
            Availability::Unknown,
        ) == rs.len(),
    decreases rs.len(),
{
    if rs.len() > 0 {
        lemma_counts_partition(rs.drop_last());
    }
}

} // verus!
