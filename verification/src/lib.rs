//! A transactional ledger for a tokenized renewable-energy marketplace.
//!
//! The crate tracks four linked entity kinds — energy sources, credit
//! issuance, installment loans repayable in credit, and escrow-based
//! listings of credit for sale — and verifies the state-transition rules
//! that govern them: authorization checks, monotonicity and conservation
//! invariants, checked arithmetic, and partial-fill / partial-repayment
//! policies.
//!
//! Storage, signature verification, and the credit-transfer service are
//! external collaborators: every operation here is a pure transition from
//! (current entity state, call arguments) to (new entity state, at most one
//! credit-service instruction), and an outer transaction shell is expected
//! to commit the new state together with that instruction, or neither.

pub mod errors;
pub mod loan;
pub mod market;
pub mod source;
