//! Verified core of two ledger programs: a fungible-token accounting engine
//! and an NFT registry. Each instruction is a validate-then-commit step over
//! caller-supplied account slots; every step is specified as a pure function
//! of the slots and proved against it.

pub mod pubkey;
pub mod program_error;
pub mod wire;
pub mod text;
pub mod account;
pub mod rent;
pub mod token;
pub mod nft;
pub mod token_metadata;
