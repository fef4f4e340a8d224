use crate::account::{AccountInfo, AccountView};
use crate::program_error::ProgramError;
use crate::pubkey::Pubkey;
use crate::wire::{read_u64_le, u64_from_le};
use vstd::prelude::*;

verus! {

/// Bytes of the identity of the account that publishes the rent configuration.
pub const RENT_ID: [u8; 32] = [
    6, 167, 213, 23, 25, 44, 92, 81, 33, 140, 201, 76, 61, 74, 241, 127, 88, 218, 238, 8, 155, 161,
    253, 68, 227, 219, 217, 138, 0, 0, 0, 0,
];

/// Width of the stored rent configuration: rate, threshold, burn percentage.
pub const RENT_SIZE: usize = 17;

/// Bytes that every slot occupies besides its data, counted when it is funded.
pub const ACCOUNT_STORAGE_OVERHEAD: u64 = 128;

/// The network's rent configuration, as the rent account stores it.
#[derive(Clone, Copy, Debug)]
pub struct Rent {
    /// Rental rate in lamports per byte.
    pub lamports_per_byte: u64,
    /// Multiplier applied to the rate, as the eight bytes of a binary64 number.
    pub exemption_threshold: [u8; 8],
    /// Share of collected rent that is burned.
    pub burn_percent: u8,
}

/// Largest slot, in bytes, for which the rent rules give a minimum.
pub const MAX_PERMITTED_DATA_LENGTH: u64 = 10_485_760;

/// Largest rate for which the rent rules give a minimum at a threshold of one.
pub const MAX_RATE_AT_THRESHOLD_ONE: u64 = 1_759_197_129_867;

/// Largest rate for which the rent rules give a minimum at a threshold of two.
pub const MAX_RATE_AT_THRESHOLD_TWO: u64 = 879_598_564_933;

/// The eight bytes of the binary64 number 1.0, least significant first.
pub open spec fn threshold_one() -> Seq<u8> {
    seq![0u8, 0, 0, 0, 0, 0, 240, 63]
}

/// The eight bytes of the binary64 number 2.0, least significant first.
pub open spec fn threshold_two() -> Seq<u8> {
    seq![0u8, 0, 0, 0, 0, 0, 0, 64]
}

/// The minimum that `solana_program::rent::Rent::try_minimum_balance` returns
/// for a threshold that is neither 1.0 nor 2.0: there the rent rules multiply
/// the padded size times the rate by the threshold in floating point.
pub uninterp spec fn scaled_minimum_balance(
    lamports_per_byte: u64,
    exemption_threshold: Seq<u8>,
    burn_percent: u8,
    data_len: usize,
) -> u64;

/// Calls `solana_program::rent::Rent::try_minimum_balance` on a configuration
/// with the given fields. The contract states what the outside source fixes:
/// no minimum above the largest permitted size; at a threshold of 1.0 or 2.0
/// no minimum above the largest rate for that threshold, else the padded size
/// times the rate, once or twice; at any other threshold a minimum that is
/// only named. The precondition keeps the product that the outside code forms
/// in 64 bits before it scales it within range. (Built for a target without
/// floating point, the outside code aborts at such a threshold instead.)
#[verifier::external_body]
#[allow(deprecated)]
fn try_minimum_balance(
    lamports_per_byte: u64,
    exemption_threshold: [u8; 8],
    burn_percent: u8,
    data_len: usize,
) -> (minimum: Option<u64>)
    requires
        data_len <= MAX_PERMITTED_DATA_LENGTH && exemption_threshold@ != threshold_one()
            && exemption_threshold@ != threshold_two() ==> (ACCOUNT_STORAGE_OVERHEAD + data_len)
            * lamports_per_byte <= u64::MAX,
    ensures
        data_len > MAX_PERMITTED_DATA_LENGTH ==> minimum is None,
        data_len <= MAX_PERMITTED_DATA_LENGTH && exemption_threshold@ == threshold_one()
            ==> minimum == (if lamports_per_byte > MAX_RATE_AT_THRESHOLD_ONE {
            None
        } else {
            Some(((ACCOUNT_STORAGE_OVERHEAD + data_len) * lamports_per_byte) as u64)
        }),
        data_len <= MAX_PERMITTED_DATA_LENGTH && exemption_threshold@ == threshold_two()
            ==> minimum == (if lamports_per_byte > MAX_RATE_AT_THRESHOLD_TWO {
            None
        } else {
            Some((2 * (ACCOUNT_STORAGE_OVERHEAD + data_len) * lamports_per_byte) as u64)
        }),
        data_len <= MAX_PERMITTED_DATA_LENGTH && exemption_threshold@ != threshold_one()
            && exemption_threshold@ != threshold_two() ==> minimum == Some(
            scaled_minimum_balance(
                lamports_per_byte,
                exemption_threshold@,
                burn_percent,
                data_len,
            ),
        ),
{
    let rent = solana_program::rent::Rent { lamports_per_byte, exemption_threshold, burn_percent };
    rent.try_minimum_balance(data_len)
}

/// The least funding that exempts a slot of `data_len` bytes, for a
/// configuration with the given fields. There is none for a slot above the
/// largest permitted size. At a threshold of 1.0 it is the padded size times
/// the rate, at 2.0 twice that, and none where the rate is above the largest
/// for the threshold. At any other threshold it is the scaled product, and
/// none where the padded size times the rate does not fit in 64 bits.
pub open spec fn minimum_balance_of(
    lamports_per_byte: u64,
    exemption_threshold: Seq<u8>,
    burn_percent: u8,
    data_len: usize,
) -> Option<u64> {
    if data_len > MAX_PERMITTED_DATA_LENGTH {
        None
    } else if exemption_threshold == threshold_one() {
        if lamports_per_byte > MAX_RATE_AT_THRESHOLD_ONE {
            None
        } else {
            Some(((ACCOUNT_STORAGE_OVERHEAD + data_len) * lamports_per_byte) as u64)
        }
    } else if exemption_threshold == threshold_two() {
        if lamports_per_byte > MAX_RATE_AT_THRESHOLD_TWO {
            None
        } else {
            Some((2 * (ACCOUNT_STORAGE_OVERHEAD + data_len) * lamports_per_byte) as u64)
        }
    } else if (ACCOUNT_STORAGE_OVERHEAD + data_len) * lamports_per_byte > u64::MAX {
        None
    } else {
        Some(
            scaled_minimum_balance(lamports_per_byte, exemption_threshold, burn_percent, data_len),
        )
    }
}

/// Whether `balance` reaches `minimum`; no balance reaches a minimum that is not defined.
pub open spec fn meets_minimum_spec(minimum: Option<u64>, balance: u64) -> bool {
    match minimum {
        Some(m) => balance >= m,
        None => false,
    }
}

/// Whether `balance` reaches `minimum`.
pub fn meets_minimum(minimum: Option<u64>, balance: u64) -> (met: bool)
    ensures
        met == meets_minimum_spec(minimum, balance),
{
    match minimum {
        Some(m) => balance >= m,
        None => false,
    }
}

/// Whether the rent account `account` declares a slot of `data_len` bytes
/// funded with `balance` exempt; `InvalidArgument` where `account` is not the
/// rent account or stores fewer bytes than a configuration takes.
pub open spec fn rent_exemption(account: AccountView, balance: u64, data_len: usize) -> Result<
    bool,
    ProgramError,
> {
    if account.key != RENT_ID@ || account.data.len() < RENT_SIZE {
        Err(ProgramError::InvalidArgument)
    } else {
        Ok(
            meets_minimum_spec(
                minimum_balance_of(
                    u64_from_le(account.data.subrange(0, 8)),
                    account.data.subrange(8, 16),
                    account.data[16],
                    data_len,
                ),
                balance,
            ),
        )
    }
}

impl Rent {
    /// Whether `self` is the configuration that `data` stores.
    pub open spec fn stored_in(self, data: Seq<u8>) -> bool {
        &&& data.len() >= RENT_SIZE
        &&& self.lamports_per_byte == u64_from_le(data.subrange(0, 8))
        &&& self.exemption_threshold@ == data.subrange(8, 16)
        &&& self.burn_percent == data[16]
    }

    /// The least funding that exempts a slot of `data_len` bytes under `self`.
    pub open spec fn minimum_balance_spec(self, data_len: usize) -> Option<u64> {
        minimum_balance_of(
            self.lamports_per_byte,
            self.exemption_threshold@,
            self.burn_percent,
            data_len,
        )
    }

    /// Reads the configuration out of the rent account.
    pub fn from_account_info(account: &AccountInfo) -> (r: Result<Rent, ProgramError>)
        ensures
            match r {
                Ok(rent) => account@.key == RENT_ID@ && rent.stored_in(account@.data),
                Err(e) => e == ProgramError::InvalidArgument && (account@.key != RENT_ID@
                    || account@.data.len() < RENT_SIZE),
            },
    {
        let id = Pubkey::new_from_array(RENT_ID);
        if account.key != id || account.data.len() < RENT_SIZE {
            return Err(ProgramError::InvalidArgument);
        }
        let data = account.data.as_slice();
        let lamports_per_byte = read_u64_le(data, 0);
        let mut exemption_threshold: [u8; 8] = [0u8; 8];
        let mut i: usize = 0;
        while i < 8
            invariant
                i <= 8,
                data@.len() >= 17,
                forall|j: int| 0 <= j < i ==> exemption_threshold@[j] == data@[8 + j],
            decreases 8 - i,
        {
            exemption_threshold[i] = data[8 + i];
            i += 1;
        }
        assert(exemption_threshold@ =~= data@.subrange(8, 16));
        Ok(Rent { lamports_per_byte, exemption_threshold, burn_percent: data[16] })
    }

    /// The least funding that exempts a slot of `data_len` bytes.
    pub fn minimum_balance(&self, data_len: usize) -> (minimum: Option<u64>)
        ensures
            minimum == self.minimum_balance_spec(data_len),
    {
        if data_len as u64 > MAX_PERMITTED_DATA_LENGTH {
            return None;
        }
        let padded: u64 = ACCOUNT_STORAGE_OVERHEAD + data_len as u64;
        match padded.checked_mul(self.lamports_per_byte) {
            Some(_) => try_minimum_balance(
                self.lamports_per_byte,
                self.exemption_threshold,
                self.burn_percent,
                data_len,
            ),
            None => {
                assert(self.lamports_per_byte > MAX_RATE_AT_THRESHOLD_ONE) by (nonlinear_arith)
                    requires
                        padded * self.lamports_per_byte > u64::MAX,
                        0 <= padded <= 10_485_888,
                        0 <= self.lamports_per_byte,
                ;
                None
            },
        }
    }

    /// Whether a slot of `data_len` bytes funded with `balance` is exempt from rent.
    pub fn is_exempt(&self, balance: u64, data_len: usize) -> (exempt: bool)
        ensures
            exempt == meets_minimum_spec(self.minimum_balance_spec(data_len), balance),
    {
        meets_minimum(self.minimum_balance(data_len), balance)
    }
}

/// Asks the rent account `account` whether a slot of `data_len` bytes funded
/// with `balance` is exempt from rent.
pub fn rent_exempt(account: &AccountInfo, balance: u64, data_len: usize) -> (r: Result<
    bool,
    ProgramError,
>)
    ensures
        r == rent_exemption(account@, balance, data_len),
{
    match Rent::from_account_info(account) {
        Ok(rent) => Ok(rent.is_exempt(balance, data_len)),
        Err(e) => Err(e),
    }
}

} // verus!
