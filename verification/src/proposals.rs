//! Typed proposals that agents emit; the spoke validates each and remains authoritative.

use vstd::prelude::*;
use crate::records::DocumentCoverage;
use crate::status::{IntentAct, ReviewVerdict};

verus! {

/// A proposed change of a project's source of intent.
#[derive(Debug)]
pub struct SourceUpdateProposal {
    pub base_revision: u64,
    pub canonical_payload: String,
    /// Replace the canonical bundle with the currently closed on-disk manifest. Valid only for an
    /// explicit owner-directed context adoption and complete coverage of the replacement bundle.
    pub refresh_authoritative_bundle: bool,
    /// Active intent is standing authorization for iterative realization.
    pub activate: bool,
}

/// What an intent agent proposes for one turn of the intent chat.
#[derive(Debug)]
pub struct IntentTurnProposal {
    pub acts: Vec<IntentAct>,
    pub source_coverage: Vec<DocumentCoverage>,
    pub projection: String,
    pub question: Option<String>,
    pub source_update: Option<SourceUpdateProposal>,
    pub assumptions: Vec<String>,
}

/// What an implementation run reports.
#[derive(Debug)]
pub struct ImplementationRunResult {
    pub source_coverage: Vec<DocumentCoverage>,
    pub objective: String,
    pub summary: String,
    pub observations: Vec<String>,
    pub changes: Vec<String>,
    pub validation: Vec<String>,
    pub evidence: Vec<String>,
    pub residual_divergence: Vec<String>,
    pub question: Option<String>,
}

/// A fault that a review run proposes.
#[derive(Debug)]
pub struct ReviewFindingProposal {
    pub requirement: String,
    pub fault: String,
    pub evidence: Vec<String>,
    pub suggested_next_objective: Option<String>,
}

/// What a review run reports.
#[derive(Debug)]
pub struct ReviewRunResult {
    pub source_coverage: Vec<DocumentCoverage>,
    pub reviewed_scope: Vec<String>,
    pub checks: Vec<String>,
    pub findings: Vec<ReviewFindingProposal>,
    pub unreviewed_required_scope: Vec<String>,
    pub verdict: ReviewVerdict,
}

/// Why a review result is inconsistent, if it is: an approval must come with no findings and no
/// unreviewed required scope; a findings verdict must come with at least one finding.
pub open spec fn review_error(r: ReviewRunResult) -> Option<Seq<char>> {
    match r.verdict {
        ReviewVerdict::Approved => if r.findings@.len() > 0 || r.unreviewed_required_scope@.len() > 0 {
            Some("approval requires zero findings and no unreviewed required scope"@)
        } else {
            None
        },
        ReviewVerdict::Findings => if r.findings@.len() == 0 {
            Some("findings verdict requires at least one finding"@)
        } else {
            None
        },
    }
}

impl ReviewRunResult {
    /// Checks that the verdict agrees with the findings and the reviewed scope.
    pub fn validate(&self) -> (r: Result<(), &'static str>)
        ensures
            match r {
                Ok(()) => review_error(*self) is None,
                Err(m) => review_error(*self) == Some(m@),
            },
    {
        match self.verdict {
            ReviewVerdict::Approved => if !self.findings.is_empty()
                || !self.unreviewed_required_scope.is_empty() {
                Err("approval requires zero findings and no unreviewed required scope")
            } else {
                Ok(())
            },
            ReviewVerdict::Findings => if self.findings.is_empty() {
                Err("findings verdict requires at least one finding")
            } else {
                Ok(())
            },
        }
    }
}

} // verus!
