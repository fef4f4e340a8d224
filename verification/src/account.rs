use crate::program_error::ProgramError;
use crate::pubkey::Pubkey;
use vstd::prelude::*;

verus! {

/// One account slot as an instruction sees it: who it is, which program
/// owns it, whether it signed, how it is funded, and the bytes it stores.
pub struct AccountInfo {
    /// Identity of the account.
    pub key: Pubkey,
    /// Whether this identity signed the invocation.
    pub is_signer: bool,
    /// Funding of the slot.
    pub lamports: u64,
    /// The bytes stored in the slot.
    pub data: Vec<u8>,
    /// Identity of the program that owns the slot.
    pub owner: Pubkey,
}

/// Mathematical content of an [`AccountInfo`].
pub struct AccountView {
    pub key: Seq<u8>,
    pub is_signer: bool,
    pub lamports: u64,
    pub data: Seq<u8>,
    pub owner: Seq<u8>,
}

impl View for AccountInfo {
    type V = AccountView;

    open spec fn view(&self) -> AccountView {
        AccountView {
            key: self.key@,
            is_signer: self.is_signer,
            lamports: self.lamports,
            data: self.data@,
            owner: self.owner@,
        }
    }
}

impl AccountView {
    /// The same slot holding `data`.
    pub open spec fn with_data(self, data: Seq<u8>) -> AccountView {
        AccountView { data, ..self }
    }
}

/// The contents of a list of slots, position by position.
pub open spec fn account_views(accounts: Seq<AccountInfo>) -> Seq<AccountView> {
    accounts.map_values(|a: AccountInfo| a@)
}

impl AccountInfo {
    /// A slot with the given contents.
    pub fn new(key: Pubkey, is_signer: bool, lamports: u64, data: Vec<u8>, owner: Pubkey) -> (account:
        AccountInfo)
        ensures
            account@ == (AccountView {
                key: key@,
                is_signer,
                lamports,
                data: data@,
                owner: owner@,
            }),
    {
        AccountInfo { key, is_signer, lamports, data, owner }
    }

    /// Funding of the slot.
    pub fn lamports(&self) -> (lamports: u64)
        ensures
            lamports == self@.lamports,
    {
        self.lamports
    }

    /// Number of bytes the slot stores.
    pub fn data_len(&self) -> (len: usize)
        ensures
            len == self@.data.len(),
    {
        self.data.len()
    }
}

/// Replaces what slot `index` stores by `data`; every other slot, and every
/// other field of this one, stays as it was.
pub fn store(accounts: &mut Vec<AccountInfo>, index: usize, data: Vec<u8>)
    requires
        index < old(accounts)@.len(),
    ensures
        final(accounts)@.len() == old(accounts)@.len(),
        account_views(final(accounts)@) == with_data(
            account_views(old(accounts)@),
            index as int,
            data@,
        ),
{
    accounts[index].data = data;
    assert(account_views(accounts@) =~= with_data(
        account_views(old(accounts)@),
        index as int,
        data@,
    ));
}

/// How a step that returned `r` and turned the slots `before` into `after`
/// stands for a specified `outcome`: a success carries the specified slots,
/// a failure the specified error and the untouched slots.
pub open spec fn committed(
    before: Seq<AccountInfo>,
    after: Seq<AccountInfo>,
    r: Result<(), ProgramError>,
    outcome: Result<Seq<AccountView>, ProgramError>,
) -> bool {
    match r {
        Ok(()) => outcome == Ok::<Seq<AccountView>, ProgramError>(account_views(after)),
        Err(e) => outcome == Err::<Seq<AccountView>, ProgramError>(e) && after == before,
    }
}

/// The slots `accounts` with slot `index` holding `data`.
pub open spec fn with_data(accounts: Seq<AccountView>, index: int, data: Seq<u8>) -> Seq<
    AccountView,
> {
    accounts.update(index, accounts[index].with_data(data))
}

} // verus!
