use crate::program_error::ProgramError;
use crate::pubkey::Pubkey;
use crate::wire::{read_u64_le, u64_from_le};
use vstd::prelude::*;

verus! {

/// The operations of the token ledger.
#[derive(Clone, Copy, Debug)]
pub enum TokenInstruction {
    /// Turns an empty slot into an issuance record.
    InitializeMint { decimals: u8, mint_authority: Pubkey },
    /// Issues `amount` new units to a balance.
    MintTo { amount: u64 },
    /// Moves `amount` units from one balance to another.
    Transfer { amount: u64 },
    /// Destroys `amount` units of a balance.
    Burn { amount: u64 },
}

/// Mathematical content of a [`TokenInstruction`].
pub enum TokenInstructionView {
    InitializeMint { decimals: u8, mint_authority: Seq<u8> },
    MintTo { amount: u64 },
    Transfer { amount: u64 },
    Burn { amount: u64 },
}

/// Least payload of an `InitializeMint`: tag, decimals, authority.
pub const INITIALIZE_MINT_MIN_LEN: usize = 34;

/// Least payload of the operations that carry an amount: tag, amount.
pub const AMOUNT_MIN_LEN: usize = 9;

impl View for TokenInstruction {
    type V = TokenInstructionView;

    open spec fn view(&self) -> TokenInstructionView {
        match *self {
            TokenInstruction::InitializeMint { decimals, mint_authority } => {
                TokenInstructionView::InitializeMint { decimals, mint_authority: mint_authority@ }
            },
            TokenInstruction::MintTo { amount } => TokenInstructionView::MintTo { amount },
            TokenInstruction::Transfer { amount } => TokenInstructionView::Transfer { amount },
            TokenInstruction::Burn { amount } => TokenInstructionView::Burn { amount },
        }
    }
}

impl TokenInstructionView {
    /// The operation that a payload spells, if any. The first byte is the
    /// tag; tag 0 is followed by the decimals and the 32 bytes of the
    /// authority, tags 1 to 3 by a little-endian amount. Bytes beyond that
    /// are ignored; any other payload spells nothing.
    pub open spec fn unpack(data: Seq<u8>) -> Option<TokenInstructionView> {
        if data.len() == 0 {
            None
        } else if data[0] == 0 {
            if data.len() < INITIALIZE_MINT_MIN_LEN {
                None
            } else {
                Some(
                    TokenInstructionView::InitializeMint {
                        decimals: data[1],
                        mint_authority: data.subrange(2, 34),
                    },
                )
            }
        } else if data[0] > 3 || data.len() < AMOUNT_MIN_LEN {
            None
        } else {
            let amount = u64_from_le(data.subrange(1, 9));
            if data[0] == 1 {
                Some(TokenInstructionView::MintTo { amount })
            } else if data[0] == 2 {
                Some(TokenInstructionView::Transfer { amount })
            } else {
                Some(TokenInstructionView::Burn { amount })
            }
        }
    }
}

impl TokenInstruction {
    /// Decodes a payload; one that spells no operation is `InvalidInstructionData`.
    pub fn unpack(data: &[u8]) -> (r: Result<TokenInstruction, ProgramError>)
        ensures
            match r {
                Ok(instruction) => TokenInstructionView::unpack(data@) == Some(instruction@),
                Err(e) => e == ProgramError::InvalidInstructionData && TokenInstructionView::unpack(
                    data@,
                ) is None,
            },
    {
        if data.len() == 0 {
            return Err(ProgramError::InvalidInstructionData);
        }
        let tag = data[0];
        if tag == 0 {
            if data.len() < INITIALIZE_MINT_MIN_LEN {
                return Err(ProgramError::InvalidInstructionData);
            }
            let mint_authority = Pubkey::new(vstd::slice::slice_subrange(data, 2, 34));
            Ok(TokenInstruction::InitializeMint { decimals: data[1], mint_authority })
        } else if tag > 3 || data.len() < AMOUNT_MIN_LEN {
            Err(ProgramError::InvalidInstructionData)
        } else {
            let amount = read_u64_le(data, 1);
            if tag == 1 {
                Ok(TokenInstruction::MintTo { amount })
            } else if tag == 2 {
                Ok(TokenInstruction::Transfer { amount })
            } else {
                Ok(TokenInstruction::Burn { amount })
            }
        }
    }
}

} // verus!
