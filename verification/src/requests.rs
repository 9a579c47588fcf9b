//! What a caller names when it asks for an operation, and the transfers that
//! an operation asks of the value transfer gateway.

use vstd::prelude::*;
use crate::identity::Address;

verus! {

/// The accounts of `initialize_user`: the owner of the new profile.
#[derive(Clone, Copy, Debug, PartialEq, Eq)]
pub struct InitializeUser {
    pub user: Address,
}

/// The accounts of `update_user`: the owner of the profile, and the caller
/// that claims to be its authority.
#[derive(Clone, Copy, Debug, PartialEq, Eq)]
pub struct UpdateUser {
    pub user: Address,
    pub authority: Address,
}

/// The accounts of `create_savings_pot`: the owner of the new pot.
#[derive(Clone, Copy, Debug, PartialEq, Eq)]
pub struct CreateSavingsPot {
    pub user: Address,
}

/// The accounts of `deposit_to_pot`: the pot, and the caller that pays in.
#[derive(Clone, Copy, Debug, PartialEq, Eq)]
pub struct DepositToPot {
    pub savings_pot: Address,
    pub user: Address,
}

/// The accounts of `withdraw_from_pot`: the pot, the caller that claims to be
/// its authority, and who is paid.
#[derive(Clone, Copy, Debug, PartialEq, Eq)]
pub struct WithdrawFromPot {
    pub savings_pot: Address,
    pub authority: Address,
    pub recipient: Address,
}

/// The accounts of `close_savings_pot`: the pot, and the caller that claims to
/// be its authority.
#[derive(Clone, Copy, Debug, PartialEq, Eq)]
pub struct CloseSavingsPot {
    pub savings_pot: Address,
    pub authority: Address,
}

/// Who stands behind a transfer.
#[derive(Debug, PartialEq, Eq)]
pub enum Authorization {
    /// The caller, who signed for it.
    Caller,
    /// The pot itself, through the seeds and the bump of its address.
    Derived { owner: Address, name: String, bump: u8 },
}

/// A movement of value that the gateway is asked to make.
#[derive(Debug, PartialEq, Eq)]
pub struct Transfer {
    pub from: Address,
    pub to: Address,
    pub amount: u64,
    pub authorization: Authorization,
}

} // verus!
