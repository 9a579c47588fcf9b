//! The failures that an operation on a profile or a pot can end in.

use vstd::prelude::*;

verus! {

/// Why an operation was rejected. Every rejection leaves the registry as it was.
#[derive(Clone, Copy, Debug, PartialEq, Eq, Structural)]
pub enum CadpayError {
    /// The pot name is empty or longer than 32 bytes.
    InvalidPotName,
    /// The unlock time is zero.
    InvalidUnlockTime,
    /// The amount to deposit is zero.
    InvalidAmount,
    /// The amount to withdraw is zero or more than the pot holds.
    InvalidWithdrawalAmount,
    /// The unlock time has not been reached.
    PotLocked,
    /// The deposit would take the balance past `u64::MAX`.
    BalanceOverflow,
    /// The withdrawal would take the balance below zero.
    BalanceUnderflow,
    /// The caller is not the authority of the record.
    Unauthorized,
    /// A record already stands at the address.
    AccountAlreadyExists,
    /// No record of the expected kind stands at the address.
    NotFound,
    /// The value transfer gateway did not carry out the transfer.
    TransferFailed,
    /// No bump gives an address off the curve.
    DerivationExhausted,
}

impl CadpayError {
    /// The text that describes the error.
    pub open spec fn text(self) -> Seq<char> {
        match self {
            CadpayError::InvalidPotName => "Invalid pot name"@,
            CadpayError::InvalidUnlockTime => "Invalid unlock time"@,
            CadpayError::InvalidAmount => "Invalid amount"@,
            CadpayError::InvalidWithdrawalAmount => "Invalid withdrawal amount"@,
            CadpayError::PotLocked => "Pot is still locked"@,
            CadpayError::BalanceOverflow => "Balance overflow"@,
            CadpayError::BalanceUnderflow => "Balance underflow"@,
            CadpayError::Unauthorized => "Unauthorized"@,
            CadpayError::AccountAlreadyExists => "Account already exists"@,
            CadpayError::NotFound => "Account not found"@,
            CadpayError::TransferFailed => "Transfer failed"@,
            CadpayError::DerivationExhausted => "Address derivation exhausted"@,
        }
    }

    /// The error's description, for a caller to show.
    pub fn message(&self) -> (r: &'static str)
        ensures
            r@ == self.text(),
    {
        match self {
            CadpayError::InvalidPotName => "Invalid pot name",
            CadpayError::InvalidUnlockTime => "Invalid unlock time",
            CadpayError::InvalidAmount => "Invalid amount",
            CadpayError::InvalidWithdrawalAmount => "Invalid withdrawal amount",
            CadpayError::PotLocked => "Pot is still locked",
            CadpayError::BalanceOverflow => "Balance overflow",
            CadpayError::BalanceUnderflow => "Balance underflow",
            CadpayError::Unauthorized => "Unauthorized",
            CadpayError::AccountAlreadyExists => "Account already exists",
            CadpayError::NotFound => "Account not found",
            CadpayError::TransferFailed => "Transfer failed",
            CadpayError::DerivationExhausted => "Address derivation exhausted",
        }
    }
}

} // verus!
