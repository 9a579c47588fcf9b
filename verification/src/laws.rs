//! What holds of the operations taken together.

use vstd::prelude::*;
use crate::error::CadpayError;
use crate::identity::{pot_address, profile_address, Address};
use crate::lifecycle::{
    closing_outcome, closing_plan, creation, deposit_outcome, deposit_plan, paid_by_pot, pot_at,
    state_after, state_placed, withdrawal_outcome, withdrawal_plan,
};
use crate::records::Record;
use crate::requests::{
    Authorization, CloseSavingsPot, CreateSavingsPot, DepositToPot, Transfer, WithdrawFromPot,
};

verus! {

/// Deriving the address of a pot twice, for one program, owner and name, gives
/// the same answer both times: the same address and bump, or the same failure.
pub proof fn pot_derivation_is_deterministic(
    program: Address,
    owner: Address,
    name: Seq<char>,
    first: Result<(Address, u8), CadpayError>,
    second: Result<(Address, u8), CadpayError>,
)
    requires
        first == pot_address(program, owner, name),
        second == pot_address(program, owner, name),
    ensures
        first == second,
{
}

/// Deriving the address of a profile twice, for one program and owner, gives
/// the same answer both times.
pub proof fn profile_derivation_is_deterministic(
    program: Address,
    owner: Address,
    first: Result<(Address, u8), CadpayError>,
    second: Result<(Address, u8), CadpayError>,
)
    requires
        first == profile_address(program, owner),
        second == profile_address(program, owner),
    ensures
        first == second,
{
}

/// An operation that moves value, with all that it was called with.
#[allow(inconsistent_fields)]
pub enum Movement {
    Deposit { ctx: DepositToPot, amount: u64, transferred: bool },
    Withdrawal { ctx: WithdrawFromPot, amount: u64, now: u64, transferred: bool },
    Closure { ctx: CloseSavingsPot, transferred: bool },
}

/// What the operation does to the registry.
pub open spec fn outcome_of(state: Map<Address, Record>, movement: Movement) -> Result<
    Map<Address, Record>,
    CadpayError,
> {
    match movement {
        Movement::Deposit { ctx, amount, transferred } => deposit_outcome(state, ctx, amount, transferred),
        Movement::Withdrawal { ctx, amount, now, transferred } => withdrawal_outcome(
            state,
            ctx,
            amount,
            now,
            transferred,
        ),
        Movement::Closure { ctx, transferred } => closing_outcome(state, ctx, transferred),
    }
}

/// The registry after the operation.
pub open spec fn step(state: Map<Address, Record>, movement: Movement) -> Map<Address, Record> {
    state_after(state, outcome_of(state, movement))
}

/// The registry after the operations, one after the other.
pub open spec fn replay(state: Map<Address, Record>, movements: Seq<Movement>) -> Map<Address, Record>
    decreases movements.len(),
{
    if movements.len() == 0 {
        state
    } else {
        replay(step(state, movements[0]), movements.drop_first())
    }
}

/// What the pot at the address holds; nothing where no pot stands there.
pub open spec fn held(state: Map<Address, Record>, address: Address) -> int {
    match pot_at(state, address) {
        Some(pot) => pot.balance as int,
        None => 0,
    }
}

/// What the operation pays into the pot at the address: the amount of a
/// deposit there that succeeds.
pub open spec fn paid_in(state: Map<Address, Record>, movement: Movement, address: Address) -> int {
    match movement {
        Movement::Deposit { ctx, amount, transferred } => if ctx.savings_pot == address && outcome_of(
            state,
            movement,
        ) is Ok {
            amount as int
        } else {
            0
        },
        _ => 0,
    }
}

/// What the operation pays out of the pot at the address: the amount of a
/// withdrawal there that succeeds, or what a closure that succeeds sweeps.
pub open spec fn paid_out(state: Map<Address, Record>, movement: Movement, address: Address) -> int {
    match movement {
        Movement::Deposit { .. } => 0,
        Movement::Withdrawal { ctx, amount, .. } => if ctx.savings_pot == address && outcome_of(
            state,
            movement,
        ) is Ok {
            amount as int
        } else {
            0
        },
        Movement::Closure { ctx, .. } => if ctx.savings_pot == address && outcome_of(state, movement) is Ok {
            held(state, address)
        } else {
            0
        },
    }
}

/// The sum of what the operations pay into the pot at the address.
pub open spec fn total_in(state: Map<Address, Record>, movements: Seq<Movement>, address: Address) -> int
    decreases movements.len(),
{
    if movements.len() == 0 {
        0
    } else {
        paid_in(state, movements[0], address) + total_in(
            step(state, movements[0]),
            movements.drop_first(),
            address,
        )
    }
}

/// The sum of what the operations pay out of the pot at the address.
pub open spec fn total_out(state: Map<Address, Record>, movements: Seq<Movement>, address: Address) -> int
    decreases movements.len(),
{
    if movements.len() == 0 {
        0
    } else {
        paid_out(state, movements[0], address) + total_out(
            step(state, movements[0]),
            movements.drop_first(),
            address,
        )
    }
}

/// One operation changes what a pot holds by what it pays in, less what it
/// pays out.
pub proof fn step_keeps_account(state: Map<Address, Record>, movement: Movement, address: Address)
    ensures
        held(step(state, movement), address) == held(state, address) + paid_in(state, movement, address)
            - paid_out(state, movement, address),
{
}

/// After any operations, a pot holds what it held before, plus the amounts of
/// the deposits that succeeded, less the amounts of the withdrawals that
/// succeeded and what a closure swept. That is never below zero and never
/// above `u64::MAX`.
pub proof fn balance_is_deposits_less_withdrawals(
    state: Map<Address, Record>,
    movements: Seq<Movement>,
    address: Address,
)
    ensures
        held(replay(state, movements), address) == held(state, address) + total_in(
            state,
            movements,
            address,
        ) - total_out(state, movements, address),
        0 <= held(replay(state, movements), address) <= u64::MAX,
    decreases movements.len(),
{
    if movements.len() > 0 {
        step_keeps_account(state, movements[0], address);
        balance_is_deposits_less_withdrawals(step(state, movements[0]), movements.drop_first(), address);
    }
}

/// Before the unlock time, a withdrawal that the pot's authority asks for
/// fails with `PotLocked`, whatever the amount and whatever the gateway
/// answered, and the registry stays as it was.
pub proof fn locked_pot_pays_nothing(
    state: Map<Address, Record>,
    ctx: WithdrawFromPot,
    amount: u64,
    now: u64,
    transferred: bool,
)
    requires
        pot_at(state, ctx.savings_pot) is Some,
        pot_at(state, ctx.savings_pot)->0.authority == ctx.authority,
        now < pot_at(state, ctx.savings_pot)->0.unlock_time,
    ensures
        withdrawal_plan(state, ctx, amount, now) == Err::<Transfer, CadpayError>(
            CadpayError::PotLocked,
        ),
        withdrawal_outcome(state, ctx, amount, now, transferred) == Err::<Map<Address, Record>, CadpayError>(
            CadpayError::PotLocked,
        ),
        state_after(state, withdrawal_outcome(state, ctx, amount, now, transferred)) == state,
{
}

/// A withdrawal that another than the pot's authority asks for fails with
/// `Unauthorized`, and the registry stays as it was.
pub proof fn stranger_cannot_withdraw(
    state: Map<Address, Record>,
    ctx: WithdrawFromPot,
    amount: u64,
    now: u64,
    transferred: bool,
)
    requires
        pot_at(state, ctx.savings_pot) is Some,
        pot_at(state, ctx.savings_pot)->0.authority != ctx.authority,
    ensures
        withdrawal_outcome(state, ctx, amount, now, transferred) == Err::<Map<Address, Record>, CadpayError>(
            CadpayError::Unauthorized,
        ),
        state_after(state, withdrawal_outcome(state, ctx, amount, now, transferred)) == state,
{
}

/// A closure that another than the pot's authority asks for fails with
/// `Unauthorized`, and the registry stays as it was.
pub proof fn stranger_cannot_close(state: Map<Address, Record>, ctx: CloseSavingsPot, transferred: bool)
    requires
        pot_at(state, ctx.savings_pot) is Some,
        pot_at(state, ctx.savings_pot)->0.authority != ctx.authority,
    ensures
        closing_outcome(state, ctx, transferred) == Err::<Map<Address, Record>, CadpayError>(
            CadpayError::Unauthorized,
        ),
        state_after(state, closing_outcome(state, ctx, transferred)) == state,
{
}

/// Closing an empty pot asks for no transfer and removes the record. Closing a
/// pot that holds something asks for one transfer, of the whole balance, from
/// the pot to its authority; the record is removed once that transfer is made,
/// and stays where it is not.
pub proof fn closing_sweeps_the_balance(state: Map<Address, Record>, ctx: CloseSavingsPot, transferred: bool)
    requires
        pot_at(state, ctx.savings_pot) is Some,
        pot_at(state, ctx.savings_pot)->0.authority == ctx.authority,
    ensures
        ({
            let pot = pot_at(state, ctx.savings_pot)->0;
            &&& pot.balance == 0 ==> closing_plan(state, ctx) == Ok::<
                Option<Transfer>,
                CadpayError,
            >(None) && closing_outcome(state, ctx, transferred) == Ok::<Map<Address, Record>, CadpayError>(
                state.remove(ctx.savings_pot),
            )
            &&& pot.balance > 0 ==> closing_plan(state, ctx) == Ok::<
                Option<Transfer>,
                CadpayError,
            >(Some(paid_by_pot(ctx.savings_pot, pot, ctx.authority, pot.balance)))
            &&& pot.balance > 0 && transferred ==> closing_outcome(state, ctx, transferred) == Ok::<
                Map<Address, Record>,
                CadpayError,
            >(state.remove(ctx.savings_pot))
            &&& pot.balance > 0 && !transferred ==> closing_outcome(state, ctx, transferred) == Err::<
                Map<Address, Record>,
                CadpayError,
            >(CadpayError::TransferFailed)
        }),
        !pot_at(state_after(state, closing_outcome(state, ctx, true)), ctx.savings_pot).is_some(),
{
}

/// An operation that moves value goes through exactly where its transfer is in
/// order and the gateway made it; a closure that asks for no transfer goes
/// through whatever the gateway is said to have answered.
pub proof fn outcome_follows_plan(state: Map<Address, Record>, movement: Movement)
    ensures
        match movement {
            Movement::Deposit { ctx, amount, transferred } => outcome_of(state, movement) is Ok <==> deposit_plan(
                state,
                ctx,
                amount,
            ) is Ok && transferred,
            Movement::Withdrawal { ctx, amount, now, transferred } => outcome_of(state, movement) is Ok
                <==> withdrawal_plan(state, ctx, amount, now) is Ok && transferred,
            Movement::Closure { ctx, transferred } => outcome_of(state, movement) is Ok <==> closing_plan(
                state,
                ctx,
            ) is Ok && (transferred || closing_plan(state, ctx) == Ok::<
                Option<Transfer>,
                CadpayError,
            >(None)),
        },
{
}

/// No withdrawal ends in `BalanceUnderflow`: an amount above the balance is
/// refused as `InvalidWithdrawalAmount` before the balance is touched.
pub proof fn withdrawal_never_underflows(
    state: Map<Address, Record>,
    ctx: WithdrawFromPot,
    amount: u64,
    now: u64,
    transferred: bool,
)
    ensures
        withdrawal_outcome(state, ctx, amount, now, transferred) != Err::<Map<Address, Record>, CadpayError>(
            CadpayError::BalanceUnderflow,
        ),
{
}

/// A deposit or a withdrawal leaves every other record as it was, and changes
/// nothing of its own pot but the balance.
pub proof fn movement_touches_one_balance(state: Map<Address, Record>, movement: Movement, address: Address)
    requires
        !(movement is Closure),
    ensures
        step(state, movement).dom() == state.dom(),
        state.dom().contains(address) && pot_at(state, address) is None ==> step(state, movement)[address]
            == state[address],
        pot_at(state, address) is Some ==> pot_at(step(state, movement), address) == Some(
            pot_at(state, address)->0.with_balance(held(step(state, movement), address) as u64),
        ),
        paid_in(state, movement, address) == 0 && paid_out(state, movement, address) == 0 ==> pot_at(
            step(state, movement),
            address,
        ) == pot_at(state, address),
{
    assert(step(state, movement).dom() =~= state.dom());
}

/// A closed pot is gone: until a pot is created anew at its address, every
/// deposit, withdrawal and closure there fails with `NotFound`.
pub proof fn closed_pot_is_gone(
    state: Map<Address, Record>,
    ctx: CloseSavingsPot,
    transferred: bool,
    next: Movement,
)
    requires
        closing_outcome(state, ctx, transferred) is Ok,
        match next {
            Movement::Deposit { ctx: c, .. } => c.savings_pot == ctx.savings_pot,
            Movement::Withdrawal { ctx: c, .. } => c.savings_pot == ctx.savings_pot,
            Movement::Closure { ctx: c, .. } => c.savings_pot == ctx.savings_pot,
        },
    ensures
        pot_at(state_after(state, closing_outcome(state, ctx, transferred)), ctx.savings_pot) is None,
        outcome_of(state_after(state, closing_outcome(state, ctx, transferred)), next) == Err::<
            Map<Address, Record>,
            CadpayError,
        >(CadpayError::NotFound),
{
}

/// Whether every pot stands at the address that its authority and its name
/// give under the program, with the bump that it keeps.
pub open spec fn well_placed(state: Map<Address, Record>, program: Address) -> bool {
    forall|address: Address| #[trigger]
        pot_at(state, address) is Some ==> pot_address(
            program,
            pot_at(state, address)->0.authority,
            pot_at(state, address)->0.name@,
        ) == Ok::<(Address, u8), CadpayError>((address, pot_at(state, address)->0.bump))
}

/// Whether the pot at `transfer.from` can be seen to stand behind the
/// transfer: the owner, name and bump that come with it give that address.
pub open spec fn pot_stands_behind(program: Address, transfer: Transfer) -> bool {
    match transfer.authorization {
        Authorization::Caller => false,
        Authorization::Derived { owner, name, bump } => pot_address(program, owner, name@) == Ok::<
            (Address, u8),
            CadpayError,
        >((transfer.from, bump)),
    }
}

/// Creating a pot keeps every pot at its derived address.
pub proof fn creation_keeps_placement(
    state: Map<Address, Record>,
    program: Address,
    ctx: CreateSavingsPot,
    pot_name: String,
    unlock_time: u64,
    now: u64,
)
    requires
        well_placed(state, program),
    ensures
        well_placed(state_placed(state, creation(state, program, ctx, pot_name, unlock_time, now)), program),
{
    let after = state_placed(state, creation(state, program, ctx, pot_name, unlock_time, now));
    assert forall|address: Address| #[trigger] pot_at(after, address) is Some implies pot_address(
        program,
        pot_at(after, address)->0.authority,
        pot_at(after, address)->0.name@,
    ) == Ok::<(Address, u8), CadpayError>((address, pot_at(after, address)->0.bump)) by {
        if pot_at(state, address) is Some {
            assert(pot_at(after, address) == pot_at(state, address));
        }
    }
}

/// Deposits, withdrawals and closures keep every pot at its derived address.
pub proof fn movement_keeps_placement(state: Map<Address, Record>, program: Address, movement: Movement)
    requires
        well_placed(state, program),
    ensures
        well_placed(step(state, movement), program),
{
    let after = step(state, movement);
    assert forall|address: Address| #[trigger] pot_at(after, address) is Some implies pot_address(
        program,
        pot_at(after, address)->0.authority,
        pot_at(after, address)->0.name@,
    ) == Ok::<(Address, u8), CadpayError>((address, pot_at(after, address)->0.bump)) by {
        assert(pot_at(state, address) is Some);
    }
}

/// Where every pot stands at its derived address, the transfer that a
/// withdrawal or a closure asks for comes with the seeds and the bump of the
/// pot that pays.
pub proof fn pot_stands_behind_what_it_pays(
    state: Map<Address, Record>,
    program: Address,
    withdrawal: WithdrawFromPot,
    amount: u64,
    now: u64,
    closure: CloseSavingsPot,
)
    requires
        well_placed(state, program),
    ensures
        withdrawal_plan(state, withdrawal, amount, now) is Ok ==> pot_stands_behind(
            program,
            withdrawal_plan(state, withdrawal, amount, now)->Ok_0,
        ),
        closing_plan(state, closure) is Ok && closing_plan(state, closure)->Ok_0 is Some ==> pot_stands_behind(
            program,
            closing_plan(state, closure)->Ok_0->0,
        ),
{
    assert(pot_at(state, withdrawal.savings_pot) is Some ==> pot_address(
        program,
        pot_at(state, withdrawal.savings_pot)->0.authority,
        pot_at(state, withdrawal.savings_pot)->0.name@,
    ) == Ok::<(Address, u8), CadpayError>(
        (withdrawal.savings_pot, pot_at(state, withdrawal.savings_pot)->0.bump),
    ));
    assert(pot_at(state, closure.savings_pot) is Some ==> pot_address(
        program,
        pot_at(state, closure.savings_pot)->0.authority,
        pot_at(state, closure.savings_pot)->0.name@,
    ) == Ok::<(Address, u8), CadpayError>((closure.savings_pot, pot_at(state, closure.savings_pot)->0.bump)));
}

} // verus!
