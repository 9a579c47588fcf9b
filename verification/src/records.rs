//! The records that the registry keeps: user profiles and savings pots.

use vstd::prelude::*;
use crate::error::CadpayError;
use crate::identity::Address;

verus! {

/// What a principal shows of itself. One profile per owner.
#[derive(Clone, Copy, Debug, PartialEq, Eq)]
pub struct UserProfile {
    pub authority: Address,
    pub username: [u8; 16],
    pub emoji: [u8; 4],
    pub gender: [u8; 8],
    pub pin: [u8; 4],
}

/// The first `n` bytes of the input, filled up with zeros where it is shorter.
pub open spec fn padding(input: Seq<u8>, n: nat) -> Seq<u8> {
    Seq::new(n, |i: int| if i < input.len() { input[i] } else { 0u8 })
}

/// Fits a text of any length into a field of `N` bytes: what is too long is
/// cut off, what is too short is followed by zeros.
pub fn padded<const N: usize>(input: &[u8]) -> (r: [u8; N])
    ensures
        r@ == padding(input@, N as nat),
{
    let mut r: [u8; N] = vstd::array::array_fill_for_copy_types::<u8, N>(0);
    let mut i: usize = 0;
    while i < N && i < input.len()
        invariant
            i <= N,
            i <= input@.len(),
            forall|j: int| 0 <= j < i ==> r@[j] == input@[j],
            forall|j: int| i <= j < N ==> r@[j] == 0u8,
        decreases N - i,
    {
        r.set(i, input[i]);
        i += 1;
    }
    proof {
        assert(r@ =~= padding(input@, N as nat));
    }
    r
}

/// A named holding of one authority that pays out only from its unlock time on.
#[derive(Debug, PartialEq, Eq)]
pub struct SavingsPot {
    pub authority: Address,
    pub name: String,
    pub unlock_time: u64,
    pub balance: u64,
    pub created_at: u64,
    pub bump: u8,
}

impl SavingsPot {
    /// The same pot with another balance.
    pub open spec fn with_balance(self, balance: u64) -> SavingsPot {
        SavingsPot {
            authority: self.authority,
            name: self.name,
            unlock_time: self.unlock_time,
            balance,
            created_at: self.created_at,
            bump: self.bump,
        }
    }

    /// The pot after `amount` has come in, unless the balance would pass `u64::MAX`.
    pub open spec fn credited(self, amount: u64) -> Result<SavingsPot, CadpayError> {
        if self.balance + amount > u64::MAX {
            Err(CadpayError::BalanceOverflow)
        } else {
            Ok(self.with_balance((self.balance + amount) as u64))
        }
    }

    /// The pot after `amount` has gone out, unless it holds less than that.
    pub open spec fn debited(self, amount: u64) -> Result<SavingsPot, CadpayError> {
        if amount > self.balance {
            Err(CadpayError::BalanceUnderflow)
        } else {
            Ok(self.with_balance((self.balance - amount) as u64))
        }
    }

    /// Whether the pot pays out at the time `now`.
    pub open spec fn unlocked(self, now: u64) -> bool {
        now >= self.unlock_time
    }

    /// Adds `amount` to the balance. Fails with `BalanceOverflow`, and leaves
    /// the pot as it was, where the sum does not fit.
    pub fn credit(&mut self, amount: u64) -> (r: Result<(), CadpayError>)
        ensures
            match old(self).credited(amount) {
                Ok(pot) => r == Ok::<(), CadpayError>(()) && *final(self) == pot,
                Err(e) => r == Err::<(), CadpayError>(e) && *final(self) == *old(self),
            },
    {
        match self.balance.checked_add(amount) {
            Some(balance) => {
                self.balance = balance;
                Ok(())
            },
            None => Err(CadpayError::BalanceOverflow),
        }
    }

    /// Takes `amount` from the balance. Fails with `BalanceUnderflow`, and
    /// leaves the pot as it was, where it holds less.
    pub fn debit(&mut self, amount: u64) -> (r: Result<(), CadpayError>)
        ensures
            match old(self).debited(amount) {
                Ok(pot) => r == Ok::<(), CadpayError>(()) && *final(self) == pot,
                Err(e) => r == Err::<(), CadpayError>(e) && *final(self) == *old(self),
            },
    {
        match self.balance.checked_sub(amount) {
            Some(balance) => {
                self.balance = balance;
                Ok(())
            },
            None => Err(CadpayError::BalanceUnderflow),
        }
    }

    /// Whether the pot pays out at the time `now`.
    pub fn is_unlocked(&self, now: u64) -> (r: bool)
        ensures
            r == self.unlocked(now),
    {
        now >= self.unlock_time
    }

    /// A copy of the pot.
    pub fn duplicate(&self) -> (r: SavingsPot)
        ensures
            r == *self,
    {
        SavingsPot {
            authority: self.authority,
            name: self.name.clone(),
            unlock_time: self.unlock_time,
            balance: self.balance,
            created_at: self.created_at,
            bump: self.bump,
        }
    }
}

/// What can stand at an address of the registry.
#[derive(Debug, PartialEq, Eq)]
pub enum Record {
    Profile(UserProfile),
    Pot(SavingsPot),
}

impl Record {
    /// A copy of the record.
    pub fn duplicate(&self) -> (r: Record)
        ensures
            r == *self,
    {
        match self {
            Record::Profile(profile) => Record::Profile(*profile),
            Record::Pot(pot) => Record::Pot(pot.duplicate()),
        }
    }
}

} // verus!
