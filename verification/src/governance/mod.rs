pub mod authority_resolver;
pub mod delegation_ledger;
pub mod governance_audit;
pub mod governance_event;
pub mod governance_policy;
