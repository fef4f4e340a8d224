use crate::account::AccountView;
use crate::program_error::ProgramError;
use crate::token::ledger::{burn, mint_to, transfer};
use crate::token::processor::{burn_outcome, mint_to_outcome, transfer_outcome};
use crate::token::state::{mint_round_trip, token_account_round_trip, MintView, TokenAccountView};
use vstd::prelude::*;

verus! {

/// One issuance record together with the closed set of balances it backs.
pub struct Ledger {
    pub mint: MintView,
    pub holders: Seq<TokenAccountView>,
}

/// An operation on a ledger; balances are named by their position.
pub enum LedgerOp {
    MintTo { destination: int, amount: u64 },
    Transfer { source: int, destination: int, amount: u64 },
    Burn { source: int, amount: u64 },
}

/// Sum of the balances.
pub open spec fn total(holders: Seq<TokenAccountView>) -> int
    decreases holders.len(),
{
    if holders.len() == 0 {
        0
    } else {
        total(holders.drop_last()) + holders.last().amount
    }
}

impl Ledger {
    /// The supply equals the sum of the balances.
    pub open spec fn consistent(self) -> bool {
        total(self.holders) == self.mint.supply
    }

    /// Whether `i` names a balance of this ledger.
    pub open spec fn holds(self, i: int) -> bool {
        0 <= i < self.holders.len()
    }

    /// The ledger after `op`, where `op` names balances of the ledger (two
    /// different ones for a transfer) and the step accepts it.
    pub open spec fn apply(self, op: LedgerOp) -> Option<Ledger> {
        match op {
            LedgerOp::MintTo { destination, amount } => {
                if !self.holds(destination) {
                    None
                } else {
                    match mint_to(self.mint, self.holders[destination], amount) {
                        Err(_) => None,
                        Ok((mint, to)) => Some(
                            Ledger { mint, holders: self.holders.update(destination, to) },
                        ),
                    }
                }
            },
            LedgerOp::Transfer { source, destination, amount } => {
                if !self.holds(source) || !self.holds(destination) || source == destination {
                    None
                } else {
                    match transfer(self.holders[source], self.holders[destination], amount) {
                        Err(_) => None,
                        Ok((from, to)) => Some(
                            Ledger {
                                mint: self.mint,
                                holders: self.holders.update(source, from).update(destination, to),
                            },
                        ),
                    }
                }
            },
            LedgerOp::Burn { source, amount } => {
                if !self.holds(source) {
                    None
                } else {
                    match burn(self.holders[source], self.mint, amount) {
                        Err(_) => None,
                        Ok((from, mint)) => Some(
                            Ledger { mint, holders: self.holders.update(source, from) },
                        ),
                    }
                }
            },
        }
    }

    /// The ledger after `ops` in turn; an operation that is not accepted changes nothing.
    pub open spec fn run(self, ops: Seq<LedgerOp>) -> Ledger
        decreases ops.len(),
    {
        if ops.len() == 0 {
            self
        } else {
            let before = self.run(ops.drop_last());
            match before.apply(ops.last()) {
                Some(after) => after,
                None => before,
            }
        }
    }
}

/// Replacing one balance changes the sum by the difference of the two.
pub proof fn total_after_update(holders: Seq<TokenAccountView>, i: int, holder: TokenAccountView)
    requires
        0 <= i < holders.len(),
    ensures
        total(holders.update(i, holder)) == total(holders) - holders[i].amount + holder.amount,
    decreases holders.len(),
{
    let updated = holders.update(i, holder);
    if i == holders.len() - 1 {
        assert(updated.drop_last() =~= holders.drop_last());
    } else {
        total_after_update(holders.drop_last(), i, holder);
        assert(updated.drop_last() =~= holders.drop_last().update(i, holder));
    }
}

/// Conservation, one step: an accepted operation on a ledger whose supply
/// equals the sum of its balances leaves a ledger of which that holds again.
pub proof fn conservation_step(ledger: Ledger, op: LedgerOp)
    requires
        ledger.consistent(),
        ledger.apply(op) is Some,
    ensures
        ledger.apply(op)->0.consistent(),
{
    match op {
        LedgerOp::MintTo { destination, amount } => {
            let (mint, to) = mint_to(ledger.mint, ledger.holders[destination], amount)->Ok_0;
            total_after_update(ledger.holders, destination, to);
        },
        LedgerOp::Transfer { source, destination, amount } => {
            let (from, to) = transfer(
                ledger.holders[source],
                ledger.holders[destination],
                amount,
            )->Ok_0;
            total_after_update(ledger.holders, source, from);
            total_after_update(ledger.holders.update(source, from), destination, to);
        },
        LedgerOp::Burn { source, amount } => {
            let (from, mint) = burn(ledger.holders[source], ledger.mint, amount)->Ok_0;
            total_after_update(ledger.holders, source, from);
        },
    }
}

/// Conservation: whatever sequence of `MintTo`, `Transfer` and `Burn` runs on
/// a ledger whose supply equals the sum of its balances, the supply equals the
/// sum of the balances afterwards; so it does after each operation of the sequence.
pub proof fn conservation(ledger: Ledger, ops: Seq<LedgerOp>)
    requires
        ledger.consistent(),
    ensures
        ledger.run(ops).consistent(),
    decreases ops.len(),
{
    if ops.len() > 0 {
        conservation(ledger, ops.drop_last());
        let before = ledger.run(ops.drop_last());
        if before.apply(ops.last()) is Some {
            conservation_step(before, ops.last());
        }
    }
}

/// The slots are there, the two that the operation writes are owned by the
/// program, and nothing is said yet of signatures.
pub open spec fn slots_owned(program_id: Seq<u8>, accounts: Seq<AccountView>) -> bool {
    &&& accounts.len() >= 3
    &&& accounts[0].owner == program_id
    &&& accounts[1].owner == program_id
}

/// Authorization of `MintTo`: on slots that the program owns and that hold
/// initialized records, an authority that did not sign is refused with
/// `MissingRequiredSignature`, whatever the authority, the amount and the
/// balances are.
pub proof fn unsigned_mint_to_refused(program_id: Seq<u8>, accounts: Seq<AccountView>, amount: u64)
    requires
        slots_owned(program_id, accounts),
        MintView::load(accounts[0].data) is Ok,
        TokenAccountView::load(accounts[1].data) is Ok,
        !accounts[2].is_signer,
    ensures
        mint_to_outcome(program_id, accounts, amount) == Err::<Seq<AccountView>, ProgramError>(
            ProgramError::MissingRequiredSignature,
        ),
{
}

/// Authorization of `Transfer`: on slots that the program owns and that hold
/// initialized records, an authority that did not sign is refused with
/// `MissingRequiredSignature`, whatever the authority, the amount and the
/// balances are.
pub proof fn unsigned_transfer_refused(program_id: Seq<u8>, accounts: Seq<AccountView>, amount: u64)
    requires
        slots_owned(program_id, accounts),
        TokenAccountView::load(accounts[0].data) is Ok,
        TokenAccountView::load(accounts[1].data) is Ok,
        !accounts[2].is_signer,
    ensures
        transfer_outcome(program_id, accounts, amount) == Err::<Seq<AccountView>, ProgramError>(
            ProgramError::MissingRequiredSignature,
        ),
{
}

/// Authorization of `Burn`: on slots that the program owns and that hold
/// initialized records, an authority that did not sign is refused with
/// `MissingRequiredSignature`, whatever the authority, the amount and the
/// balances are.
pub proof fn unsigned_burn_refused(program_id: Seq<u8>, accounts: Seq<AccountView>, amount: u64)
    requires
        slots_owned(program_id, accounts),
        TokenAccountView::load(accounts[0].data) is Ok,
        MintView::load(accounts[1].data) is Ok,
        !accounts[2].is_signer,
    ensures
        burn_outcome(program_id, accounts, amount) == Err::<Seq<AccountView>, ProgramError>(
            ProgramError::MissingRequiredSignature,
        ),
{
}

/// Insufficient funds: a transfer between two accounts that the source's
/// owner signed, of more than the source holds, is refused with
/// `InsufficientFunds`.
pub proof fn overdrawn_transfer_refused(program_id: Seq<u8>, accounts: Seq<AccountView>, amount: u64)
    requires
        slots_owned(program_id, accounts),
        TokenAccountView::load(accounts[0].data) is Ok,
        TokenAccountView::load(accounts[1].data) is Ok,
        accounts[2].is_signer,
        accounts[2].key == TokenAccountView::unpack(accounts[0].data).owner,
        accounts[0].key != accounts[1].key,
        amount > TokenAccountView::unpack(accounts[0].data).amount,
    ensures
        transfer_outcome(program_id, accounts, amount) == Err::<Seq<AccountView>, ProgramError>(
            ProgramError::InsufficientFunds,
        ),
{
}

/// An accepted `MintTo` writes records that read back as the ledger step
/// applied to the records that were stored.
pub proof fn mint_to_reads_back(program_id: Seq<u8>, accounts: Seq<AccountView>, amount: u64)
    requires
        mint_to_outcome(program_id, accounts, amount) is Ok,
    ensures
        ({
            let after = mint_to_outcome(program_id, accounts, amount)->Ok_0;
            let step = mint_to(
                MintView::unpack(accounts[0].data),
                TokenAccountView::unpack(accounts[1].data),
                amount,
            );
            &&& step matches Ok((mint, destination))
            &&& MintView::load(after[0].data) == Ok::<MintView, ProgramError>(mint)
            &&& TokenAccountView::load(after[1].data) == Ok::<TokenAccountView, ProgramError>(
                destination,
            )
        }),
{
    let (mint, destination) = mint_to(
        MintView::unpack(accounts[0].data),
        TokenAccountView::unpack(accounts[1].data),
        amount,
    )->Ok_0;
    mint_round_trip(mint);
    token_account_round_trip(destination);
}

/// An accepted `Transfer` writes records that read back as the ledger step
/// applied to the records that were stored.
pub proof fn transfer_reads_back(program_id: Seq<u8>, accounts: Seq<AccountView>, amount: u64)
    requires
        transfer_outcome(program_id, accounts, amount) is Ok,
    ensures
        ({
            let after = transfer_outcome(program_id, accounts, amount)->Ok_0;
            let step = transfer(
                TokenAccountView::unpack(accounts[0].data),
                TokenAccountView::unpack(accounts[1].data),
                amount,
            );
            &&& step matches Ok((source, destination))
            &&& TokenAccountView::load(after[0].data) == Ok::<TokenAccountView, ProgramError>(
                source,
            )
            &&& TokenAccountView::load(after[1].data) == Ok::<TokenAccountView, ProgramError>(
                destination,
            )
        }),
{
    let (source, destination) = transfer(
        TokenAccountView::unpack(accounts[0].data),
        TokenAccountView::unpack(accounts[1].data),
        amount,
    )->Ok_0;
    token_account_round_trip(source);
    token_account_round_trip(destination);
}

/// An accepted `Burn` writes records that read back as the ledger step
/// applied to the records that were stored.
pub proof fn burn_reads_back(program_id: Seq<u8>, accounts: Seq<AccountView>, amount: u64)
    requires
        burn_outcome(program_id, accounts, amount) is Ok,
    ensures
        ({
            let after = burn_outcome(program_id, accounts, amount)->Ok_0;
            let step = burn(
                TokenAccountView::unpack(accounts[0].data),
                MintView::unpack(accounts[1].data),
                amount,
            );
            &&& step matches Ok((source, mint))
            &&& TokenAccountView::load(after[0].data) == Ok::<TokenAccountView, ProgramError>(
                source,
            )
            &&& MintView::load(after[1].data) == Ok::<MintView, ProgramError>(mint)
        }),
{
    let (source, mint) = burn(
        TokenAccountView::unpack(accounts[0].data),
        MintView::unpack(accounts[1].data),
        amount,
    )->Ok_0;
    token_account_round_trip(source);
    mint_round_trip(mint);
}

/// A transfer from an account to itself is refused, whatever else holds:
/// no step moves units between a balance and itself.
pub proof fn self_transfer_refused(program_id: Seq<u8>, accounts: Seq<AccountView>, amount: u64)
    requires
        accounts.len() >= 2,
        accounts[0].key == accounts[1].key,
    ensures
        transfer_outcome(program_id, accounts, amount) is Err,
        slots_owned(program_id, accounts) && TokenAccountView::load(accounts[0].data) is Ok
            && TokenAccountView::load(accounts[1].data) is Ok && accounts[2].is_signer
            && accounts[2].key == TokenAccountView::unpack(accounts[0].data).owner
            ==> transfer_outcome(program_id, accounts, amount) == Err::<
            Seq<AccountView>,
            ProgramError,
        >(ProgramError::InvalidArgument),
{
}

/// One account in both positions that `MintTo` writes is refused: no slot
/// has the width of an issuance record and of a balance record at once.
pub proof fn same_account_mint_to_refused(
    program_id: Seq<u8>,
    accounts: Seq<AccountView>,
    amount: u64,
)
    requires
        accounts.len() >= 2,
        accounts[0].data == accounts[1].data,
    ensures
        mint_to_outcome(program_id, accounts, amount) is Err,
{
}

/// One account in both positions that `Burn` writes is refused: no slot has
/// the width of a balance record and of an issuance record at once.
pub proof fn same_account_burn_refused(program_id: Seq<u8>, accounts: Seq<AccountView>, amount: u64)
    requires
        accounts.len() >= 2,
        accounts[0].data == accounts[1].data,
    ensures
        burn_outcome(program_id, accounts, amount) is Err,
{
}

/// An accepted transfer is between two accounts, keeps the sum of their two
/// balances, and leaves every slot after them as it was.
pub proof fn accepted_transfer_moves_within_two_accounts(
    program_id: Seq<u8>,
    accounts: Seq<AccountView>,
    amount: u64,
)
    requires
        transfer_outcome(program_id, accounts, amount) is Ok,
    ensures
        ({
            let after = transfer_outcome(program_id, accounts, amount)->Ok_0;
            let source = TokenAccountView::unpack(accounts[0].data);
            let destination = TokenAccountView::unpack(accounts[1].data);
            &&& accounts[0].key != accounts[1].key
            &&& after.len() == accounts.len()
            &&& TokenAccountView::unpack(after[0].data).amount + TokenAccountView::unpack(
                after[1].data,
            ).amount == source.amount + destination.amount
            &&& forall|i: int| 2 <= i < accounts.len() ==> after[i] == accounts[i]
        }),
{
    transfer_reads_back(program_id, accounts, amount);
}

} // verus!
