//! The fungible-token ledger: records, instructions, and the steps that
//! apply an instruction to account slots.

pub mod state;
pub mod instruction;
pub mod ledger;
pub mod processor;
pub mod laws;
