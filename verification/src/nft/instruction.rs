use crate::program_error::ProgramError;
use crate::pubkey::Pubkey;
use crate::text::{
    optional_text, optional_text_from_wire, read_optional_text, read_text, text_from_wire,
};
use vstd::prelude::*;
use vstd::slice::slice_subrange;

verus! {

/// The operations of the registry.
#[derive(Clone, Debug)]
#[allow(inconsistent_fields)]
pub enum NFTInstruction {
    /// Writes a new record whose controller is the signer.
    CreateNFT { name: String, symbol: String, uri: String, royalty_percentage: u8, is_mutable: bool },
    /// Hands control of the record to `new_owner`.
    TransferNFT { new_owner: Pubkey },
    /// Replaces the texts that are given; the others stay.
    UpdateMetadata { name: Option<String>, symbol: Option<String>, uri: Option<String> },
}

/// Mathematical content of an [`NFTInstruction`].
#[allow(inconsistent_fields)]
pub enum NFTInstructionView {
    CreateNFT {
        name: Seq<char>,
        symbol: Seq<char>,
        uri: Seq<char>,
        royalty_percentage: u8,
        is_mutable: bool,
    },
    TransferNFT { new_owner: Seq<u8> },
    UpdateMetadata { name: Option<Seq<char>>, symbol: Option<Seq<char>>, uri: Option<Seq<char>> },
}

impl View for NFTInstruction {
    type V = NFTInstructionView;

    open spec fn view(&self) -> NFTInstructionView {
        match *self {
            NFTInstruction::CreateNFT { name, symbol, uri, royalty_percentage, is_mutable } => {
                NFTInstructionView::CreateNFT {
                    name: name@,
                    symbol: symbol@,
                    uri: uri@,
                    royalty_percentage,
                    is_mutable,
                }
            },
            NFTInstruction::TransferNFT { new_owner } => NFTInstructionView::TransferNFT {
                new_owner: new_owner@,
            },
            NFTInstruction::UpdateMetadata { name, symbol, uri } => {
                NFTInstructionView::UpdateMetadata {
                    name: optional_text(name),
                    symbol: optional_text(symbol),
                    uri: optional_text(uri),
                }
            },
        }
    }
}

impl NFTInstructionView {
    /// The `CreateNFT` that `b` spells after its tag: three texts, the
    /// royalty, and a flag byte that is 0 or 1, with nothing after them.
    pub open spec fn unpack_create(b: Seq<u8>) -> Option<NFTInstructionView> {
        match text_from_wire(b) {
            None => None,
            Some((name, after_name)) => match text_from_wire(after_name) {
                None => None,
                Some((symbol, after_symbol)) => match text_from_wire(after_symbol) {
                    None => None,
                    Some((uri, tail)) => if tail.len() != 2 || tail[1] > 1 {
                        None
                    } else {
                        Some(
                            NFTInstructionView::CreateNFT {
                                name,
                                symbol,
                                uri,
                                royalty_percentage: tail[0],
                                is_mutable: tail[1] == 1,
                            },
                        )
                    },
                },
            },
        }
    }

    /// The `UpdateMetadata` that `b` spells after its tag: three optional
    /// texts, with nothing after them.
    pub open spec fn unpack_update(b: Seq<u8>) -> Option<NFTInstructionView> {
        match optional_text_from_wire(b) {
            None => None,
            Some((name, after_name)) => match optional_text_from_wire(after_name) {
                None => None,
                Some((symbol, after_symbol)) => match optional_text_from_wire(after_symbol) {
                    None => None,
                    Some((uri, tail)) => if tail.len() != 0 {
                        None
                    } else {
                        Some(NFTInstructionView::UpdateMetadata { name, symbol, uri })
                    },
                },
            },
        }
    }

    /// The operation that a payload spells, if any. The first byte selects
    /// the operation: 0 `CreateNFT`, 1 `TransferNFT` (followed by exactly the
    /// 32 bytes of the new owner), 2 `UpdateMetadata`. The payload must end
    /// where the operation's fields end.
    pub open spec fn unpack(data: Seq<u8>) -> Option<NFTInstructionView> {
        if data.len() == 0 {
            None
        } else if data[0] == 0 {
            Self::unpack_create(data.skip(1))
        } else if data[0] == 1 {
            if data.len() != 33 {
                None
            } else {
                Some(NFTInstructionView::TransferNFT { new_owner: data.skip(1) })
            }
        } else if data[0] == 2 {
            Self::unpack_update(data.skip(1))
        } else {
            None
        }
    }
}

impl NFTInstruction {
    /// Decodes the fields of a `CreateNFT` from `data[1..]`.
    fn unpack_create(data: &[u8]) -> (r: Option<NFTInstruction>)
        requires
            data@.len() >= 1,
        ensures
            match r {
                Some(instruction) => NFTInstructionView::unpack_create(data@.skip(1)) == Some(
                    instruction@,
                ),
                None => NFTInstructionView::unpack_create(data@.skip(1)) is None,
            },
    {
        let (name, after_name) = read_text(data, 1)?;
        let (symbol, after_symbol) = read_text(data, after_name)?;
        let (uri, at) = read_text(data, after_symbol)?;
        if data.len() - at != 2 {
            return None;
        }
        let royalty_percentage = data[at];
        let flag = data[at + 1];
        if flag > 1 {
            return None;
        }
        Some(
            NFTInstruction::CreateNFT { name, symbol, uri, royalty_percentage, is_mutable: flag == 1 },
        )
    }

    /// Decodes the fields of an `UpdateMetadata` from `data[1..]`.
    fn unpack_update(data: &[u8]) -> (r: Option<NFTInstruction>)
        requires
            data@.len() >= 1,
        ensures
            match r {
                Some(instruction) => NFTInstructionView::unpack_update(data@.skip(1)) == Some(
                    instruction@,
                ),
                None => NFTInstructionView::unpack_update(data@.skip(1)) is None,
            },
    {
        let (name, after_name) = read_optional_text(data, 1)?;
        let (symbol, after_symbol) = read_optional_text(data, after_name)?;
        let (uri, at) = read_optional_text(data, after_symbol)?;
        if data.len() != at {
            return None;
        }
        Some(NFTInstruction::UpdateMetadata { name, symbol, uri })
    }

    /// Decodes a payload; one that spells no operation is `InvalidInstructionData`.
    pub fn unpack(data: &[u8]) -> (r: Result<NFTInstruction, ProgramError>)
        ensures
            match r {
                Ok(instruction) => NFTInstructionView::unpack(data@) == Some(instruction@),
                Err(e) => e == ProgramError::InvalidInstructionData && NFTInstructionView::unpack(
                    data@,
                ) is None,
            },
    {
        if data.len() == 0 {
            return Err(ProgramError::InvalidInstructionData);
        }
        let tag = data[0];
        let decoded = if tag == 0 {
            Self::unpack_create(data)
        } else if tag == 1 {
            if data.len() != 33 {
                None
            } else {
                assert(data@.subrange(1, 33) =~= data@.skip(1));
                Some(NFTInstruction::TransferNFT { new_owner: Pubkey::new(slice_subrange(data, 1, 33)) })
            }
        } else if tag == 2 {
            Self::unpack_update(data)
        } else {
            None
        };
        match decoded {
            Some(instruction) => Ok(instruction),
            None => Err(ProgramError::InvalidInstructionData),
        }
    }
}

} // verus!
