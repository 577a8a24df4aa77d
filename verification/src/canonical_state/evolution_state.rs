use crate::canonical_state::duplicate::Duplicate;
use crate::canonical_state::text_map::TextMap;
use vstd::prelude::*;

verus! {

/// A proposed change to a component of the system.
#[derive(Debug, Clone, PartialEq, Eq)]
pub struct EvolutionProposal {
    pub proposal_id: String,
    pub description: String,
    pub target_component: String,
    pub proposed_by: String,
    pub epoch: u64,
    pub tick: u64,
    pub status: ProposalStatus,
}

/// Where a proposal stands.
#[derive(Debug, Clone, PartialEq, Eq)]
pub enum ProposalStatus {
    Draft,
    ImpactAnalysis,
    SandboxTesting,
    Approved,
    Deployed,
    Rejected { reason: String },
    RolledBack { reason: String },
}

/// A sandbox trial of a proposal.
#[derive(Debug, Clone, PartialEq, Eq)]
pub struct SandboxRun {
    pub run_id: String,
    pub proposal_id: String,
    pub passed: bool,
    pub replay_passed: bool,
    pub constitution_passed: bool,
    pub details: String,
}

/// The proposals keyed by id, the sandbox runs in order, and the outcome counts.
#[derive(Debug, Clone, PartialEq, Eq)]
pub struct EvolutionState {
    pub proposals: TextMap<EvolutionProposal>,
    pub sandbox_runs: Vec<SandboxRun>,
    pub deployed_count: u64,
    pub rejected_count: u64,
    pub rolled_back_count: u64,
}

impl EvolutionState {
    /// No proposals, no runs, zero counts.
    pub fn empty() -> (r: Self)
        ensures
            r.proposals.well_formed(),
            r.proposals.keys().len() == 0,
            r.sandbox_runs@.len() == 0,
            r.deployed_count == 0,
            r.rejected_count == 0,
            r.rolled_back_count == 0,
    {
        EvolutionState {
            proposals: TextMap::new(),
            sandbox_runs: Vec::new(),
            deployed_count: 0,
            rejected_count: 0,
            rolled_back_count: 0,
        }
    }

    /// Whether there are no proposals and no runs and every count is zero.
    pub fn is_empty(&self) -> (r: bool)
        ensures
            r == (self.proposals.keys().len() == 0 && self.sandbox_runs@.len() == 0
                && self.deployed_count == 0 && self.rejected_count == 0 && self.rolled_back_count == 0),
    {
        self.proposals.is_empty() && self.sandbox_runs.len() == 0 && self.deployed_count == 0
            && self.rejected_count == 0 && self.rolled_back_count == 0
    }
}


impl Duplicate for EvolutionProposal {
    type Contents = (<String as Duplicate>::Contents, <String as Duplicate>::Contents, <String as Duplicate>::Contents, <String as Duplicate>::Contents, u64, u64, ProposalStatus);

    open spec fn contents(&self) -> Self::Contents {
        (self.proposal_id.contents(), self.description.contents(), self.target_component.contents(), self.proposed_by.contents(), self.epoch, self.tick, self.status)
    }

    fn duplicate(&self) -> (r: Self) {
        EvolutionProposal {
            proposal_id: self.proposal_id.duplicate(),
            description: self.description.duplicate(),
            target_component: self.target_component.duplicate(),
            proposed_by: self.proposed_by.duplicate(),
            epoch: self.epoch,
            tick: self.tick,
            status: self.status.duplicate(),
        }
    }
}

impl Duplicate for SandboxRun {
    type Contents = (<String as Duplicate>::Contents, <String as Duplicate>::Contents, bool, bool, bool, <String as Duplicate>::Contents);

    open spec fn contents(&self) -> Self::Contents {
        (self.run_id.contents(), self.proposal_id.contents(), self.passed, self.replay_passed, self.constitution_passed, self.details.contents())
    }

    fn duplicate(&self) -> (r: Self) {
        SandboxRun {
            run_id: self.run_id.duplicate(),
            proposal_id: self.proposal_id.duplicate(),
            passed: self.passed,
            replay_passed: self.replay_passed,
            constitution_passed: self.constitution_passed,
            details: self.details.duplicate(),
        }
    }
}

impl Duplicate for EvolutionState {
    type Contents = (<TextMap<EvolutionProposal> as Duplicate>::Contents, <Vec<SandboxRun> as Duplicate>::Contents, u64, u64, u64);

    open spec fn contents(&self) -> Self::Contents {
        (self.proposals.contents(), self.sandbox_runs.contents(), self.deployed_count, self.rejected_count, self.rolled_back_count)
    }

    fn duplicate(&self) -> (r: Self) {
        EvolutionState {
            proposals: self.proposals.duplicate(),
            sandbox_runs: self.sandbox_runs.duplicate(),
            deployed_count: self.deployed_count,
            rejected_count: self.rejected_count,
            rolled_back_count: self.rolled_back_count,
        }
    }
}


impl Duplicate for ProposalStatus {
    type Contents = ProposalStatus;

    open spec fn contents(&self) -> ProposalStatus {
        *self
    }

    fn duplicate(&self) -> (r: Self) {
        match self {
            ProposalStatus::Draft => ProposalStatus::Draft,
            ProposalStatus::ImpactAnalysis => ProposalStatus::ImpactAnalysis,
            ProposalStatus::SandboxTesting => ProposalStatus::SandboxTesting,
            ProposalStatus::Approved => ProposalStatus::Approved,
            ProposalStatus::Deployed => ProposalStatus::Deployed,
            ProposalStatus::Rejected { reason } => ProposalStatus::Rejected { reason: reason.clone() },
            ProposalStatus::RolledBack { reason } => ProposalStatus::RolledBack { reason: reason.clone() },
        }
    }
}

} // verus!
