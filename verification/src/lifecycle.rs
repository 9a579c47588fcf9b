//! The operations on profiles and pots. Each is decided here; the movement of
//! value itself is the gateway's work. An operation that moves value comes in
//! two parts: a function that checks the request and names the transfer to
//! ask of the gateway, and the operation proper, which takes the gateway's
//! answer and changes the registry only where the transfer was made.

use vstd::prelude::*;
use crate::error::CadpayError;
use crate::identity::{derive_pot_address, derive_profile_address, pot_address, profile_address, Address};
use crate::records::{Record, SavingsPot, UserProfile};
use crate::registry::Registry;
use crate::requests::{
    Authorization, CloseSavingsPot, CreateSavingsPot, DepositToPot, InitializeUser, Transfer,
    UpdateUser, WithdrawFromPot,
};

verus! {

/// The pot at the address, if a pot stands there.
pub open spec fn pot_at(state: Map<Address, Record>, address: Address) -> Option<SavingsPot> {
    if state.dom().contains(address) {
        match state[address] {
            Record::Pot(pot) => Some(pot),
            Record::Profile(_) => None,
        }
    } else {
        None
    }
}

/// The profile at the address, if a profile stands there.
pub open spec fn profile_at(state: Map<Address, Record>, address: Address) -> Option<UserProfile> {
    if state.dom().contains(address) {
        match state[address] {
            Record::Profile(profile) => Some(profile),
            Record::Pot(_) => None,
        }
    } else {
        None
    }
}

/// The registry after an operation: changed as the outcome says, or as it was
/// where the operation failed.
pub open spec fn state_after(before: Map<Address, Record>, outcome: Result<Map<Address, Record>, CadpayError>) -> Map<
    Address,
    Record,
> {
    match outcome {
        Ok(after) => after,
        Err(_) => before,
    }
}

/// What an operation answers for an outcome.
pub open spec fn answer(outcome: Result<Map<Address, Record>, CadpayError>) -> Result<(), CadpayError> {
    match outcome {
        Ok(_) => Ok(()),
        Err(e) => Err(e),
    }
}

/// What an operation that creates a record answers for an outcome.
pub open spec fn placed(outcome: Result<(Address, Map<Address, Record>), CadpayError>) -> Result<
    Address,
    CadpayError,
> {
    match outcome {
        Ok((address, _)) => Ok(address),
        Err(e) => Err(e),
    }
}

/// The registry after an operation that creates a record.
pub open spec fn state_placed(
    before: Map<Address, Record>,
    outcome: Result<(Address, Map<Address, Record>), CadpayError>,
) -> Map<Address, Record> {
    match outcome {
        Ok((_, after)) => after,
        Err(_) => before,
    }
}

/// A pot name has 1 to 32 bytes.
pub open spec fn valid_name(name: Seq<char>) -> bool {
    1 <= vstd::utf8::encode_utf8(name).len() <= 32
}

/// A transfer out of a pot, which the pot itself stands behind.
pub open spec fn paid_by_pot(address: Address, pot: SavingsPot, to: Address, amount: u64) -> Transfer {
    Transfer {
        from: address,
        to,
        amount,
        authorization: Authorization::Derived { owner: pot.authority, name: pot.name, bump: pot.bump },
    }
}

/// The pot at the address, or `NotFound`.
pub fn load_pot(registry: &Registry, address: &Address) -> (r: Result<SavingsPot, CadpayError>)
    ensures
        r == match pot_at(registry@, *address) {
            Some(pot) => Ok::<SavingsPot, CadpayError>(pot),
            None => Err(CadpayError::NotFound),
        },
{
    match registry.get(address) {
        Some(Record::Pot(pot)) => Ok(pot.duplicate()),
        _ => Err(CadpayError::NotFound),
    }
}

/// The profile at the address, or `NotFound`.
pub fn load_profile(registry: &Registry, address: &Address) -> (r: Result<UserProfile, CadpayError>)
    ensures
        r == match profile_at(registry@, *address) {
            Some(profile) => Ok::<UserProfile, CadpayError>(profile),
            None => Err(CadpayError::NotFound),
        },
{
    match registry.get(address) {
        Some(Record::Profile(profile)) => Ok(*profile),
        _ => Err(CadpayError::NotFound),
    }
}

/// What `initialize_user` does: the profile of the caller is put at its
/// derived address, unless that address is taken.
pub open spec fn initialization(
    state: Map<Address, Record>,
    program: Address,
    ctx: InitializeUser,
    username: [u8; 16],
    emoji: [u8; 4],
    gender: [u8; 8],
    pin: [u8; 4],
) -> Result<(Address, Map<Address, Record>), CadpayError> {
    match profile_address(program, ctx.user) {
        Err(e) => Err(e),
        Ok((address, _)) => if state.dom().contains(address) {
            Err(CadpayError::AccountAlreadyExists)
        } else {
            Ok(
                (
                    address,
                    state.insert(
                        address,
                        Record::Profile(UserProfile { authority: ctx.user, username, emoji, gender, pin }),
                    ),
                ),
            )
        },
    }
}

/// Creates the profile of `ctx.user` and answers with its address.
pub fn initialize_user(
    registry: &mut Registry,
    program: &Address,
    ctx: &InitializeUser,
    username: [u8; 16],
    emoji: [u8; 4],
    gender: [u8; 8],
    pin: [u8; 4],
) -> (r: Result<Address, CadpayError>)
    ensures
        r == placed(initialization(old(registry)@, *program, *ctx, username, emoji, gender, pin)),
        final(registry)@ == state_placed(
            old(registry)@,
            initialization(old(registry)@, *program, *ctx, username, emoji, gender, pin),
        ),
{
    let address = match derive_profile_address(program, &ctx.user) {
        Ok((address, _)) => address,
        Err(e) => {
            return Err(e);
        },
    };
    let profile = UserProfile { authority: ctx.user, username, emoji, gender, pin };
    match registry.create(address, Record::Profile(profile)) {
        Ok(()) => Ok(address),
        Err(e) => Err(e),
    }
}

/// What `update_user` does: the fields of the profile of `ctx.user` are
/// replaced, its authority stays, and only its authority may ask.
pub open spec fn profile_update(
    state: Map<Address, Record>,
    program: Address,
    ctx: UpdateUser,
    username: [u8; 16],
    emoji: [u8; 4],
    gender: [u8; 8],
    pin: [u8; 4],
) -> Result<Map<Address, Record>, CadpayError> {
    match profile_address(program, ctx.user) {
        Err(e) => Err(e),
        Ok((address, _)) => match profile_at(state, address) {
            None => Err(CadpayError::NotFound),
            Some(profile) => if profile.authority != ctx.authority {
                Err(CadpayError::Unauthorized)
            } else {
                Ok(
                    state.insert(
                        address,
                        Record::Profile(
                            UserProfile { authority: profile.authority, username, emoji, gender, pin },
                        ),
                    ),
                )
            },
        },
    }
}

/// Replaces the fields of the profile of `ctx.user`.
pub fn update_user(
    registry: &mut Registry,
    program: &Address,
    ctx: &UpdateUser,
    username: [u8; 16],
    emoji: [u8; 4],
    gender: [u8; 8],
    pin: [u8; 4],
) -> (r: Result<(), CadpayError>)
    ensures
        r == answer(profile_update(old(registry)@, *program, *ctx, username, emoji, gender, pin)),
        final(registry)@ == state_after(
            old(registry)@,
            profile_update(old(registry)@, *program, *ctx, username, emoji, gender, pin),
        ),
{
    let address = match derive_profile_address(program, &ctx.user) {
        Ok((address, _)) => address,
        Err(e) => {
            return Err(e);
        },
    };
    let profile = match load_profile(registry, &address) {
        Ok(profile) => profile,
        Err(e) => {
            return Err(e);
        },
    };
    if !profile.authority.same(&ctx.authority) {
        return Err(CadpayError::Unauthorized);
    }
    let changed = UserProfile { authority: profile.authority, username, emoji, gender, pin };
    registry.update(address, Record::Profile(changed))
}

/// What `create_savings_pot` does: an empty pot of the caller is put at the
/// address derived from the caller and the name, unless the name or the unlock
/// time is refused or the address is taken.
pub open spec fn creation(
    state: Map<Address, Record>,
    program: Address,
    ctx: CreateSavingsPot,
    pot_name: String,
    unlock_time: u64,
    now: u64,
) -> Result<(Address, Map<Address, Record>), CadpayError> {
    if !valid_name(pot_name@) {
        Err(CadpayError::InvalidPotName)
    } else if unlock_time == 0 {
        Err(CadpayError::InvalidUnlockTime)
    } else {
        match pot_address(program, ctx.user, pot_name@) {
            Err(e) => Err(e),
            Ok((address, bump)) => if state.dom().contains(address) {
                Err(CadpayError::AccountAlreadyExists)
            } else {
                Ok(
                    (
                        address,
                        state.insert(
                            address,
                            Record::Pot(
                                SavingsPot {
                                    authority: ctx.user,
                                    name: pot_name,
                                    unlock_time,
                                    balance: 0,
                                    created_at: now,
                                    bump,
                                },
                            ),
                        ),
                    ),
                )
            },
        }
    }
}

/// Creates the pot `pot_name` of `ctx.user` at the time `now` and answers with
/// its address.
pub fn create_savings_pot(
    registry: &mut Registry,
    program: &Address,
    ctx: &CreateSavingsPot,
    pot_name: String,
    unlock_time: u64,
    now: u64,
) -> (r: Result<Address, CadpayError>)
    ensures
        r == placed(creation(old(registry)@, *program, *ctx, pot_name, unlock_time, now)),
        final(registry)@ == state_placed(
            old(registry)@,
            creation(old(registry)@, *program, *ctx, pot_name, unlock_time, now),
        ),
{
    let length: usize = pot_name.as_str().as_bytes().len();
    if length == 0 || length > 32 {
        return Err(CadpayError::InvalidPotName);
    }
    if unlock_time == 0 {
        return Err(CadpayError::InvalidUnlockTime);
    }
    let (address, bump) = match derive_pot_address(program, &ctx.user, pot_name.as_str()) {
        Ok(found) => found,
        Err(e) => {
            return Err(e);
        },
    };
    let pot = SavingsPot {
        authority: ctx.user,
        name: pot_name,
        unlock_time,
        balance: 0,
        created_at: now,
        bump,
    };
    match registry.create(address, Record::Pot(pot)) {
        Ok(()) => Ok(address),
        Err(e) => Err(e),
    }
}

/// The transfer that a deposit asks of the gateway: `amount` from the caller
/// to the pot, on the caller's word. Refused where no pot stands at the
/// address, the amount is zero, or the balance would not hold it.
pub open spec fn deposit_plan(state: Map<Address, Record>, ctx: DepositToPot, amount: u64) -> Result<
    Transfer,
    CadpayError,
> {
    match pot_at(state, ctx.savings_pot) {
        None => Err(CadpayError::NotFound),
        Some(pot) => if amount == 0 {
            Err(CadpayError::InvalidAmount)
        } else {
            match pot.credited(amount) {
                Err(e) => Err(e),
                Ok(_) => Ok(
                    Transfer {
                        from: ctx.user,
                        to: ctx.savings_pot,
                        amount,
                        authorization: Authorization::Caller,
                    },
                ),
            }
        },
    }
}

/// What `deposit_to_pot` does: where the deposit is in order and the gateway
/// made the transfer, the balance grows by `amount`.
pub open spec fn deposit_outcome(
    state: Map<Address, Record>,
    ctx: DepositToPot,
    amount: u64,
    transferred: bool,
) -> Result<Map<Address, Record>, CadpayError> {
    match deposit_plan(state, ctx, amount) {
        Err(e) => Err(e),
        Ok(_) => if !transferred {
            Err(CadpayError::TransferFailed)
        } else {
            match pot_at(state, ctx.savings_pot) {
                None => Err(CadpayError::NotFound),
                Some(pot) => match pot.credited(amount) {
                    Err(e) => Err(e),
                    Ok(after) => Ok(state.insert(ctx.savings_pot, Record::Pot(after))),
                },
            }
        },
    }
}

/// Checks a deposit and names the transfer to ask of the gateway.
pub fn deposit_transfer(registry: &Registry, ctx: &DepositToPot, amount: u64) -> (r: Result<
    Transfer,
    CadpayError,
>)
    ensures
        r == deposit_plan(registry@, *ctx, amount),
{
    let mut pot = match load_pot(registry, &ctx.savings_pot) {
        Ok(pot) => pot,
        Err(e) => {
            return Err(e);
        },
    };
    if amount == 0 {
        return Err(CadpayError::InvalidAmount);
    }
    match pot.credit(amount) {
        Ok(()) => Ok(
            Transfer { from: ctx.user, to: ctx.savings_pot, amount, authorization: Authorization::Caller },
        ),
        Err(e) => Err(e),
    }
}

/// Pays `amount` into the pot. `transferred` is the gateway's answer to the
/// transfer that `deposit_transfer` names.
pub fn deposit_to_pot(registry: &mut Registry, ctx: &DepositToPot, amount: u64, transferred: bool) -> (r:
    Result<(), CadpayError>)
    ensures
        r == answer(deposit_outcome(old(registry)@, *ctx, amount, transferred)),
        final(registry)@ == state_after(
            old(registry)@,
            deposit_outcome(old(registry)@, *ctx, amount, transferred),
        ),
{
    match deposit_transfer(registry, ctx, amount) {
        Ok(_) => {},
        Err(e) => {
            return Err(e);
        },
    }
    if !transferred {
        return Err(CadpayError::TransferFailed);
    }
    let mut pot = match load_pot(registry, &ctx.savings_pot) {
        Ok(pot) => pot,
        Err(e) => {
            return Err(e);
        },
    };
    match pot.credit(amount) {
        Ok(()) => registry.update(ctx.savings_pot, Record::Pot(pot)),
        Err(e) => Err(e),
    }
}

/// The transfer that a withdrawal asks of the gateway: `amount` from the pot
/// to the recipient, on the pot's own word. Refused, in this order, where no
/// pot stands at the address, the caller is not its authority, the unlock time
/// has not come, or the amount is zero or more than the balance.
pub open spec fn withdrawal_plan(
    state: Map<Address, Record>,
    ctx: WithdrawFromPot,
    amount: u64,
    now: u64,
) -> Result<Transfer, CadpayError> {
    match pot_at(state, ctx.savings_pot) {
        None => Err(CadpayError::NotFound),
        Some(pot) => if pot.authority != ctx.authority {
            Err(CadpayError::Unauthorized)
        } else if !pot.unlocked(now) {
            Err(CadpayError::PotLocked)
        } else if amount == 0 || amount > pot.balance {
            Err(CadpayError::InvalidWithdrawalAmount)
        } else {
            Ok(paid_by_pot(ctx.savings_pot, pot, ctx.recipient, amount))
        },
    }
}

/// What `withdraw_from_pot` does: where the withdrawal is in order and the
/// gateway made the transfer, the balance shrinks by `amount`.
pub open spec fn withdrawal_outcome(
    state: Map<Address, Record>,
    ctx: WithdrawFromPot,
    amount: u64,
    now: u64,
    transferred: bool,
) -> Result<Map<Address, Record>, CadpayError> {
    match withdrawal_plan(state, ctx, amount, now) {
        Err(e) => Err(e),
        Ok(_) => if !transferred {
            Err(CadpayError::TransferFailed)
        } else {
            match pot_at(state, ctx.savings_pot) {
                None => Err(CadpayError::NotFound),
                Some(pot) => match pot.debited(amount) {
                    Err(e) => Err(e),
                    Ok(after) => Ok(state.insert(ctx.savings_pot, Record::Pot(after))),
                },
            }
        },
    }
}

/// Checks a withdrawal at the time `now` and names the transfer to ask of the
/// gateway.
pub fn withdrawal_transfer(registry: &Registry, ctx: &WithdrawFromPot, amount: u64, now: u64) -> (r:
    Result<Transfer, CadpayError>)
    ensures
        r == withdrawal_plan(registry@, *ctx, amount, now),
{
    let pot = match load_pot(registry, &ctx.savings_pot) {
        Ok(pot) => pot,
        Err(e) => {
            return Err(e);
        },
    };
    if !pot.authority.same(&ctx.authority) {
        return Err(CadpayError::Unauthorized);
    }
    if !pot.is_unlocked(now) {
        return Err(CadpayError::PotLocked);
    }
    if amount == 0 || amount > pot.balance {
        return Err(CadpayError::InvalidWithdrawalAmount);
    }
    Ok(
        Transfer {
            from: ctx.savings_pot,
            to: ctx.recipient,
            amount,
            authorization: Authorization::Derived { owner: pot.authority, name: pot.name, bump: pot.bump },
        },
    )
}

/// Pays `amount` out of the pot at the time `now`. `transferred` is the
/// gateway's answer to the transfer that `withdrawal_transfer` names.
pub fn withdraw_from_pot(
    registry: &mut Registry,
    ctx: &WithdrawFromPot,
    amount: u64,
    now: u64,
    transferred: bool,
) -> (r: Result<(), CadpayError>)
    ensures
        r == answer(withdrawal_outcome(old(registry)@, *ctx, amount, now, transferred)),
        final(registry)@ == state_after(
            old(registry)@,
            withdrawal_outcome(old(registry)@, *ctx, amount, now, transferred),
        ),
{
    match withdrawal_transfer(registry, ctx, amount, now) {
        Ok(_) => {},
        Err(e) => {
            return Err(e);
        },
    }
    if !transferred {
        return Err(CadpayError::TransferFailed);
    }
    let mut pot = match load_pot(registry, &ctx.savings_pot) {
        Ok(pot) => pot,
        Err(e) => {
            return Err(e);
        },
    };
    match pot.debit(amount) {
        Ok(()) => registry.update(ctx.savings_pot, Record::Pot(pot)),
        Err(e) => Err(e),
    }
}

/// The transfer that closing asks of the gateway: the whole balance from the
/// pot to its authority, on the pot's own word; none where the pot is empty.
/// Refused where no pot stands at the address or the caller is not its
/// authority.
pub open spec fn closing_plan(state: Map<Address, Record>, ctx: CloseSavingsPot) -> Result<
    Option<Transfer>,
    CadpayError,
> {
    match pot_at(state, ctx.savings_pot) {
        None => Err(CadpayError::NotFound),
        Some(pot) => if pot.authority != ctx.authority {
            Err(CadpayError::Unauthorized)
        } else if pot.balance > 0 {
            Ok(Some(paid_by_pot(ctx.savings_pot, pot, pot.authority, pot.balance)))
        } else {
            Ok(None)
        },
    }
}

/// What `close_savings_pot` does: the pot leaves the registry, unless a
/// transfer was due and the gateway did not make it.
pub open spec fn closing_outcome(state: Map<Address, Record>, ctx: CloseSavingsPot, transferred: bool) -> Result<
    Map<Address, Record>,
    CadpayError,
> {
    match closing_plan(state, ctx) {
        Err(e) => Err(e),
        Ok(Some(_)) => if transferred {
            Ok(state.remove(ctx.savings_pot))
        } else {
            Err(CadpayError::TransferFailed)
        },
        Ok(None) => Ok(state.remove(ctx.savings_pot)),
    }
}

/// Checks a closure and names the transfer to ask of the gateway, if any.
pub fn closing_transfer(registry: &Registry, ctx: &CloseSavingsPot) -> (r: Result<
    Option<Transfer>,
    CadpayError,
>)
    ensures
        r == closing_plan(registry@, *ctx),
{
    let pot = match load_pot(registry, &ctx.savings_pot) {
        Ok(pot) => pot,
        Err(e) => {
            return Err(e);
        },
    };
    if !pot.authority.same(&ctx.authority) {
        return Err(CadpayError::Unauthorized);
    }
    if pot.balance > 0 {
        Ok(
            Some(
                Transfer {
                    from: ctx.savings_pot,
                    to: pot.authority,
                    amount: pot.balance,
                    authorization: Authorization::Derived {
                        owner: pot.authority,
                        name: pot.name,
                        bump: pot.bump,
                    },
                },
            ),
        )
    } else {
        Ok(None)
    }
}

/// Closes the pot. `transferred` is the gateway's answer to the transfer that
/// `closing_transfer` names; where none was due it is not looked at.
pub fn close_savings_pot(registry: &mut Registry, ctx: &CloseSavingsPot, transferred: bool) -> (r: Result<
    (),
    CadpayError,
>)
    ensures
        r == answer(closing_outcome(old(registry)@, *ctx, transferred)),
        final(registry)@ == state_after(old(registry)@, closing_outcome(old(registry)@, *ctx, transferred)),
{
    let due = match closing_transfer(registry, ctx) {
        Ok(due) => due,
        Err(e) => {
            return Err(e);
        },
    };
    if due.is_some() && !transferred {
        return Err(CadpayError::TransferFailed);
    }
    match registry.delete(ctx.savings_pot) {
        Ok(_) => Ok(()),
        Err(e) => Err(e),
    }
}

} // verus!
