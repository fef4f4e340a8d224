use crate::program_error::ProgramError;
use crate::pubkey::Pubkey;
use crate::wire::{
    flag_byte, read_u64_le, u64_from_le, u64_le_round_trip, u64_to_le, write_bytes, write_u64_le,
};
use vstd::prelude::*;

verus! {

/// One holder's balance.
#[derive(Clone, Copy, Debug)]
pub struct TokenAccount {
    pub is_initialized: bool,
    /// The identity that may move or burn the balance.
    pub owner: Pubkey,
    pub amount: u64,
}

/// Mathematical content of a [`TokenAccount`].
pub struct TokenAccountView {
    pub is_initialized: bool,
    pub owner: Seq<u8>,
    pub amount: u64,
}

/// The issuance record of one fungible asset.
#[derive(Clone, Copy, Debug)]
pub struct Mint {
    pub is_initialized: bool,
    /// The identity that may issue new units.
    pub mint_authority: Pubkey,
    /// Sum of all outstanding balances.
    pub supply: u64,
    pub decimals: u8,
}

/// Mathematical content of a [`Mint`].
pub struct MintView {
    pub is_initialized: bool,
    pub mint_authority: Seq<u8>,
    pub supply: u64,
    pub decimals: u8,
}

/// Width of a stored balance record: flag, owner, amount.
pub const TOKEN_ACCOUNT_LEN: usize = 41;

/// Width of a stored issuance record: flag, authority, supply, decimals.
pub const MINT_LEN: usize = 42;

impl View for TokenAccount {
    type V = TokenAccountView;

    open spec fn view(&self) -> TokenAccountView {
        TokenAccountView {
            is_initialized: self.is_initialized,
            owner: self.owner@,
            amount: self.amount,
        }
    }
}

impl View for Mint {
    type V = MintView;

    open spec fn view(&self) -> MintView {
        MintView {
            is_initialized: self.is_initialized,
            mint_authority: self.mint_authority@,
            supply: self.supply,
            decimals: self.decimals,
        }
    }
}

impl TokenAccountView {
    /// The stored form: the flag at 0, the owner at 1..33, the amount at 33..41.
    pub open spec fn pack(self) -> Seq<u8> {
        seq![flag_byte(self.is_initialized)] + self.owner + u64_to_le(self.amount)
    }

    /// The record that the first 41 bytes of `src` store.
    pub open spec fn unpack(src: Seq<u8>) -> TokenAccountView
        recommends
            src.len() >= TOKEN_ACCOUNT_LEN,
    {
        TokenAccountView {
            is_initialized: src[0] != 0,
            owner: src.subrange(1, 33),
            amount: u64_from_le(src.subrange(33, 41)),
        }
    }

    /// What reading a record that must be initialized from a slot gives.
    pub open spec fn load(input: Seq<u8>) -> Result<TokenAccountView, ProgramError> {
        if input.len() != TOKEN_ACCOUNT_LEN {
            Err(ProgramError::InvalidAccountData)
        } else if !Self::unpack(input).is_initialized {
            Err(ProgramError::UninitializedAccount)
        } else {
            Ok(Self::unpack(input))
        }
    }
}

impl MintView {
    /// The stored form: the flag at 0, the authority at 1..33, the supply at
    /// 33..41, the decimals at 41.
    pub open spec fn pack(self) -> Seq<u8> {
        seq![flag_byte(self.is_initialized)] + self.mint_authority + u64_to_le(self.supply)
            + seq![self.decimals]
    }

    /// The record that the first 42 bytes of `src` store.
    pub open spec fn unpack(src: Seq<u8>) -> MintView
        recommends
            src.len() >= MINT_LEN,
    {
        MintView {
            is_initialized: src[0] != 0,
            mint_authority: src.subrange(1, 33),
            supply: u64_from_le(src.subrange(33, 41)),
            decimals: src[41],
        }
    }

    /// What reading a record that must be initialized from a slot gives.
    pub open spec fn load(input: Seq<u8>) -> Result<MintView, ProgramError> {
        if input.len() != MINT_LEN {
            Err(ProgramError::InvalidAccountData)
        } else if !Self::unpack(input).is_initialized {
            Err(ProgramError::UninitializedAccount)
        } else {
            Ok(Self::unpack(input))
        }
    }
}

/// After the three writes of a pack, the first 41 bytes are flag, identity, number.
proof fn packed_prefix(dst: Seq<u8>, flag: u8, identity: Seq<u8>, number: u64)
    requires
        dst.len() >= 41,
        identity.len() == 32,
        dst[0] == flag,
        dst.subrange(1, 33) == identity,
        dst.subrange(33, 41) == u64_to_le(number),
    ensures
        dst.subrange(0, 41) == seq![flag] + identity + u64_to_le(number),
{
    let packed = seq![flag] + identity + u64_to_le(number);
    assert forall|i: int| 0 <= i < 41 implies dst[i] == packed[i] by {
        if 1 <= i < 33 {
            assert(dst.subrange(1, 33)[i - 1] == dst[i]);
        } else if 33 <= i {
            assert(dst.subrange(33, 41)[i - 33] == dst[i]);
        }
    }
    assert(dst.subrange(0, 41) =~= packed);
}

impl TokenAccount {
    pub const LEN: usize = TOKEN_ACCOUNT_LEN;

    pub fn is_initialized(&self) -> (r: bool)
        ensures
            r == self@.is_initialized,
    {
        self.is_initialized
    }

    /// Reads a record from the first 41 bytes of `src`; a shorter `src` is refused.
    pub fn unpack_from_slice(src: &[u8]) -> (r: Result<TokenAccount, ProgramError>)
        ensures
            match r {
                Ok(account) => src@.len() >= TOKEN_ACCOUNT_LEN && account@
                    == TokenAccountView::unpack(src@),
                Err(e) => e == ProgramError::InvalidAccountData && src@.len() < TOKEN_ACCOUNT_LEN,
            },
    {
        if src.len() < TOKEN_ACCOUNT_LEN {
            return Err(ProgramError::InvalidAccountData);
        }
        let owner = Pubkey::new(vstd::slice::slice_subrange(src, 1, 33));
        Ok(TokenAccount { is_initialized: src[0] != 0, owner, amount: read_u64_le(src, 33) })
    }

    /// Writes the record over the first 41 bytes of `dst`; a shorter `dst`
    /// is refused and left as it was.
    pub fn pack_into_slice(&self, dst: &mut [u8]) -> (r: Result<(), ProgramError>)
        ensures
            match r {
                Ok(()) => old(dst)@.len() >= TOKEN_ACCOUNT_LEN && final(dst)@ == self@.pack()
                    + old(dst)@.skip(TOKEN_ACCOUNT_LEN as int),
                Err(e) => e == ProgramError::InvalidAccountData && old(dst)@.len()
                    < TOKEN_ACCOUNT_LEN && final(dst)@ == old(dst)@,
            },
    {
        if dst.len() < TOKEN_ACCOUNT_LEN {
            return Err(ProgramError::InvalidAccountData);
        }
        let flag: u8 = if self.is_initialized { 1 } else { 0 };
        dst[0] = flag;
        let owner = self.owner.to_bytes();
        write_bytes(dst, 1, owner.as_slice());
        write_u64_le(dst, 33, self.amount);
        proof {
            assert(dst@.subrange(1, 33) =~= self.owner@);
            packed_prefix(dst@, flag, self.owner@, self.amount);
            assert(dst@ =~= dst@.subrange(0, 41) + old(dst)@.skip(41));
        }
        Ok(())
    }

    /// Reads a record from a slot of exactly the record's width.
    pub fn unpack_unchecked(input: &[u8]) -> (r: Result<TokenAccount, ProgramError>)
        ensures
            match r {
                Ok(account) => input@.len() == TOKEN_ACCOUNT_LEN && account@
                    == TokenAccountView::unpack(input@),
                Err(e) => e == ProgramError::InvalidAccountData && input@.len()
                    != TOKEN_ACCOUNT_LEN,
            },
    {
        if input.len() != TOKEN_ACCOUNT_LEN {
            return Err(ProgramError::InvalidAccountData);
        }
        Self::unpack_from_slice(input)
    }

    /// Reads a record from a slot of exactly the record's width and insists that it is initialized.
    pub fn unpack(input: &[u8]) -> (r: Result<TokenAccount, ProgramError>)
        ensures
            match r {
                Ok(account) => TokenAccountView::load(input@) == Ok::<
                    TokenAccountView,
                    ProgramError,
                >(account@),
                Err(e) => TokenAccountView::load(input@) == Err::<TokenAccountView, ProgramError>(e),
            },
    {
        let value = Self::unpack_unchecked(input)?;
        if value.is_initialized() {
            Ok(value)
        } else {
            Err(ProgramError::UninitializedAccount)
        }
    }

    /// Writes the record into a slot of exactly the record's width; any
    /// other slot is refused and left as it was.
    pub fn pack(src: TokenAccount, dst: &mut [u8]) -> (r: Result<(), ProgramError>)
        ensures
            match r {
                Ok(()) => old(dst)@.len() == TOKEN_ACCOUNT_LEN && final(dst)@ == src@.pack(),
                Err(e) => e == ProgramError::InvalidAccountData && old(dst)@.len()
                    != TOKEN_ACCOUNT_LEN && final(dst)@ == old(dst)@,
            },
    {
        if dst.len() != TOKEN_ACCOUNT_LEN {
            return Err(ProgramError::InvalidAccountData);
        }
        let r = src.pack_into_slice(dst);
        assert(dst@ =~= src@.pack());
        r
    }
}

impl Mint {
    pub const LEN: usize = MINT_LEN;

    pub fn is_initialized(&self) -> (r: bool)
        ensures
            r == self@.is_initialized,
    {
        self.is_initialized
    }

    /// Reads a record from the first 42 bytes of `src`; a shorter `src` is refused.
    pub fn unpack_from_slice(src: &[u8]) -> (r: Result<Mint, ProgramError>)
        ensures
            match r {
                Ok(mint) => src@.len() >= MINT_LEN && mint@ == MintView::unpack(src@),
                Err(e) => e == ProgramError::InvalidAccountData && src@.len() < MINT_LEN,
            },
    {
        if src.len() < MINT_LEN {
            return Err(ProgramError::InvalidAccountData);
        }
        let mint_authority = Pubkey::new(vstd::slice::slice_subrange(src, 1, 33));
        Ok(
            Mint {
                is_initialized: src[0] != 0,
                mint_authority,
                supply: read_u64_le(src, 33),
                decimals: src[41],
            },
        )
    }

    /// Writes the record over the first 42 bytes of `dst`; a shorter `dst`
    /// is refused and left as it was.
    pub fn pack_into_slice(&self, dst: &mut [u8]) -> (r: Result<(), ProgramError>)
        ensures
            match r {
                Ok(()) => old(dst)@.len() >= MINT_LEN && final(dst)@ == self@.pack() + old(dst)@.skip(MINT_LEN as int),
                Err(e) => e == ProgramError::InvalidAccountData && old(dst)@.len() < MINT_LEN
                    && final(dst)@ == old(dst)@,
            },
    {
        if dst.len() < MINT_LEN {
            return Err(ProgramError::InvalidAccountData);
        }
        let flag: u8 = if self.is_initialized { 1 } else { 0 };
        dst[0] = flag;
        let authority = self.mint_authority.to_bytes();
        write_bytes(dst, 1, authority.as_slice());
        write_u64_le(dst, 33, self.supply);
        dst[41] = self.decimals;
        proof {
            assert(dst@.subrange(1, 33) =~= self.mint_authority@);
            assert(dst@.subrange(33, 41) =~= u64_to_le(self.supply));
            packed_prefix(dst@, flag, self.mint_authority@, self.supply);
            assert(dst@ =~= dst@.subrange(0, 41) + seq![self.decimals] + old(dst)@.skip(42));
            assert(self@.pack() + old(dst)@.skip(42) =~= dst@.subrange(0, 41) + seq![
                self.decimals,
            ] + old(dst)@.skip(42));
        }
        Ok(())
    }

    /// Reads a record from a slot of exactly the record's width.
    pub fn unpack_unchecked(input: &[u8]) -> (r: Result<Mint, ProgramError>)
        ensures
            match r {
                Ok(mint) => input@.len() == MINT_LEN && mint@ == MintView::unpack(input@),
                Err(e) => e == ProgramError::InvalidAccountData && input@.len() != MINT_LEN,
            },
    {
        if input.len() != MINT_LEN {
            return Err(ProgramError::InvalidAccountData);
        }
        Self::unpack_from_slice(input)
    }

    /// Reads a record from a slot of exactly the record's width and insists that it is initialized.
    pub fn unpack(input: &[u8]) -> (r: Result<Mint, ProgramError>)
        ensures
            match r {
                Ok(mint) => MintView::load(input@) == Ok::<MintView, ProgramError>(mint@),
                Err(e) => MintView::load(input@) == Err::<MintView, ProgramError>(e),
            },
    {
        let value = Self::unpack_unchecked(input)?;
        if value.is_initialized() {
            Ok(value)
        } else {
            Err(ProgramError::UninitializedAccount)
        }
    }

    /// Writes the record into a slot of exactly the record's width; any
    /// other slot is refused and left as it was.
    pub fn pack(src: Mint, dst: &mut [u8]) -> (r: Result<(), ProgramError>)
        ensures
            match r {
                Ok(()) => old(dst)@.len() == MINT_LEN && final(dst)@ == src@.pack(),
                Err(e) => e == ProgramError::InvalidAccountData && old(dst)@.len() != MINT_LEN
                    && final(dst)@ == old(dst)@,
            },
    {
        if dst.len() != MINT_LEN {
            return Err(ProgramError::InvalidAccountData);
        }
        let r = src.pack_into_slice(dst);
        assert(dst@ =~= src@.pack());
        r
    }
}

/// A stored balance record reads back as the record that was stored.
pub proof fn token_account_round_trip(record: TokenAccountView)
    requires
        record.owner.len() == 32,
    ensures
        record.pack().len() == TOKEN_ACCOUNT_LEN,
        TokenAccountView::unpack(record.pack()) == record,
{
    u64_le_round_trip(record.amount);
    let packed = record.pack();
    assert(packed.subrange(1, 33) =~= record.owner);
    assert(packed.subrange(33, 41) =~= u64_to_le(record.amount));
}

/// A stored issuance record reads back as the record that was stored.
pub proof fn mint_round_trip(record: MintView)
    requires
        record.mint_authority.len() == 32,
    ensures
        record.pack().len() == MINT_LEN,
        MintView::unpack(record.pack()) == record,
{
    u64_le_round_trip(record.supply);
    let packed = record.pack();
    assert(packed.subrange(1, 33) =~= record.mint_authority);
    assert(packed.subrange(33, 41) =~= u64_to_le(record.supply));
}

} // verus!
