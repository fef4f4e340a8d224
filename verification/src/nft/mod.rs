//! The NFT registry: the metadata record, the instructions, and the steps
//! that apply an instruction to account slots.

pub mod state;
pub mod instruction;
pub mod processor;
pub mod laws;
