//! The two records a fundraiser keeps on the ledger, and their fixed wire
//! layouts.
pub mod contributor;
pub mod fundraiser;
