use anchor_lang::solana_program::pubkey::Pubkey;
use cadpay::error::CadpayError;
use cadpay::identity::{derive_pot_address, derive_profile_address, program_id, Address};
use cadpay::lifecycle::{
    close_savings_pot, closing_transfer, create_savings_pot, deposit_to_pot, deposit_transfer,
    initialize_user, load_pot, load_profile, update_user, withdraw_from_pot, withdrawal_transfer,
};
use cadpay::records::{padded, Record, SavingsPot, UserProfile};
use cadpay::registry::Registry;
use cadpay::requests::{
    Authorization, CloseSavingsPot, CreateSavingsPot, DepositToPot, InitializeUser, Transfer,
    UpdateUser, WithdrawFromPot,
};

const NOW: u64 = 1_700_000_000;

fn alice() -> Address {
    Address::new([7u8; 32])
}

fn bob() -> Address {
    Address::new([9u8; 32])
}

fn open_pot(registry: &mut Registry, owner: Address, name: &str, unlock_time: u64) -> Address {
    create_savings_pot(
        registry,
        &program_id(),
        &CreateSavingsPot { user: owner },
        name.to_string(),
        unlock_time,
        NOW,
    )
    .unwrap()
}

fn pay_in(registry: &mut Registry, pot: Address, user: Address, amount: u64) -> Result<(), CadpayError> {
    deposit_to_pot(registry, &DepositToPot { savings_pot: pot, user }, amount, true)
}

fn balance(registry: &Registry, pot: Address) -> u64 {
    load_pot(registry, &pot).unwrap().balance
}

#[test]
fn program_id_is_the_declared_key() {
    let key: Pubkey = "6VvJbGzNHbtZLWxmLTYPpRz2F3oMDxdL1YRgV3b51Ccz".parse().unwrap();
    assert_eq!(program_id().bytes, key.to_bytes());
}

#[test]
fn pot_address_is_the_program_address_of_its_seeds() {
    let program = program_id();
    let (address, bump) = derive_pot_address(&program, &alice(), "vacation").unwrap();
    let key = Pubkey::new_from_array(program.bytes);
    let (expected, expected_bump) =
        Pubkey::find_program_address(&[b"savings-pot-v1", &[7u8; 32], b"vacation"], &key);
    assert_eq!(address.bytes, expected.to_bytes());
    assert_eq!(bump, expected_bump);
    assert_ne!(address.bytes, program.bytes);
    assert_ne!(address.bytes, alice().bytes);
    let again = Pubkey::create_program_address(
        &[b"savings-pot-v1", &[7u8; 32], b"vacation", &[bump]],
        &key,
    )
    .unwrap();
    assert_eq!(address.bytes, again.to_bytes());
}

#[test]
fn profile_address_is_the_program_address_of_its_seeds() {
    let program = program_id();
    let (address, bump) = derive_profile_address(&program, &bob()).unwrap();
    let key = Pubkey::new_from_array(program.bytes);
    let (expected, expected_bump) = Pubkey::find_program_address(&[b"user-profile-v1", &[9u8; 32]], &key);
    assert_eq!(address.bytes, expected.to_bytes());
    assert_eq!(bump, expected_bump);
}

#[test]
fn derivation_is_deterministic() {
    let program = program_id();
    let first = derive_pot_address(&program, &alice(), "vacation");
    let second = derive_pot_address(&program, &alice(), "vacation");
    assert_eq!(first, second);
    assert!(first.is_ok());
    assert_eq!(
        derive_profile_address(&program, &alice()),
        derive_profile_address(&program, &alice())
    );
}

#[test]
fn derivation_tells_owners_names_and_programs_apart() {
    let program = program_id();
    let base = derive_pot_address(&program, &alice(), "vacation").unwrap().0;
    assert_ne!(base, derive_pot_address(&program, &bob(), "vacation").unwrap().0);
    assert_ne!(base, derive_pot_address(&program, &alice(), "vacatio").unwrap().0);
    assert_ne!(base, derive_pot_address(&Address::new([1u8; 32]), &alice(), "vacation").unwrap().0);
    assert_ne!(base, derive_profile_address(&program, &alice()).unwrap().0);
}

#[test]
fn address_same_compares_every_byte() {
    let mut bytes = [3u8; 32];
    let a = Address::new(bytes);
    assert!(a.same(&Address::new([3u8; 32])));
    bytes[31] = 4;
    assert!(!a.same(&Address::new(bytes)));
    bytes[31] = 3;
    bytes[0] = 4;
    assert!(!a.same(&Address::new(bytes)));
}

#[test]
fn locked_pot_refuses_then_pays_after_unlock() {
    let mut registry = Registry::new();
    let pot = open_pot(&mut registry, alice(), "vacation", NOW + 100);
    assert_eq!(pay_in(&mut registry, pot, alice(), 500), Ok(()));
    assert_eq!(balance(&registry, pot), 500);
    let ctx = WithdrawFromPot { savings_pot: pot, authority: alice(), recipient: bob() };
    assert_eq!(
        withdraw_from_pot(&mut registry, &ctx, 500, NOW + 50, true),
        Err(CadpayError::PotLocked)
    );
    assert_eq!(balance(&registry, pot), 500);
    assert_eq!(withdraw_from_pot(&mut registry, &ctx, 500, NOW + 150, true), Ok(()));
    assert_eq!(balance(&registry, pot), 0);
}

#[test]
fn deposit_past_the_maximum_is_refused() {
    let mut registry = Registry::new();
    let pot = open_pot(&mut registry, alice(), "big", 1);
    assert_eq!(pay_in(&mut registry, pot, alice(), u64::MAX - 10), Ok(()));
    assert_eq!(pay_in(&mut registry, pot, alice(), 20), Err(CadpayError::BalanceOverflow));
    assert_eq!(balance(&registry, pot), u64::MAX - 10);
    assert_eq!(
        deposit_transfer(&registry, &DepositToPot { savings_pot: pot, user: alice() }, 20),
        Err(CadpayError::BalanceOverflow)
    );
    assert_eq!(pay_in(&mut registry, pot, alice(), 10), Ok(()));
    assert_eq!(balance(&registry, pot), u64::MAX);
}

#[test]
fn creating_a_pot_twice_is_refused() {
    let mut registry = Registry::new();
    let ctx = CreateSavingsPot { user: alice() };
    let first = create_savings_pot(&mut registry, &program_id(), &ctx, "a".to_string(), 5, NOW);
    assert!(first.is_ok());
    let second = create_savings_pot(&mut registry, &program_id(), &ctx, "a".to_string(), 6, NOW + 1);
    assert_eq!(second, Err(CadpayError::AccountAlreadyExists));
    assert_eq!(load_pot(&registry, &first.unwrap()).unwrap().unlock_time, 5);
    let other = create_savings_pot(
        &mut registry,
        &program_id(),
        &CreateSavingsPot { user: bob() },
        "a".to_string(),
        6,
        NOW,
    );
    assert!(other.is_ok());
}

#[test]
fn new_pot_is_empty_and_keeps_what_it_was_made_with() {
    let mut registry = Registry::new();
    let pot = open_pot(&mut registry, alice(), "vacation", NOW + 100);
    let (address, bump) = derive_pot_address(&program_id(), &alice(), "vacation").unwrap();
    assert_eq!(pot, address);
    assert_eq!(
        load_pot(&registry, &pot),
        Ok(SavingsPot {
            authority: alice(),
            name: "vacation".to_string(),
            unlock_time: NOW + 100,
            balance: 0,
            created_at: NOW,
            bump,
        })
    );
}

#[test]
fn pot_name_must_have_one_to_thirty_two_bytes() {
    let mut registry = Registry::new();
    let ctx = CreateSavingsPot { user: alice() };
    let program = program_id();
    assert_eq!(
        create_savings_pot(&mut registry, &program, &ctx, String::new(), 5, NOW),
        Err(CadpayError::InvalidPotName)
    );
    assert_eq!(
        create_savings_pot(&mut registry, &program, &ctx, "x".repeat(33), 5, NOW),
        Err(CadpayError::InvalidPotName)
    );
    assert!(create_savings_pot(&mut registry, &program, &ctx, "x".repeat(32), 5, NOW).is_ok());
    assert!(create_savings_pot(&mut registry, &program, &ctx, "y".to_string(), 5, NOW).is_ok());
    // sixteen letters of two bytes each fit, eleven of three bytes each do not
    assert!(create_savings_pot(&mut registry, &program, &ctx, "é".repeat(16), 5, NOW).is_ok());
    assert_eq!(
        create_savings_pot(&mut registry, &program, &ctx, "€".repeat(11), 5, NOW),
        Err(CadpayError::InvalidPotName)
    );
}

#[test]
fn unlock_time_must_not_be_zero() {
    let mut registry = Registry::new();
    let ctx = CreateSavingsPot { user: alice() };
    assert_eq!(
        create_savings_pot(&mut registry, &program_id(), &ctx, "a".to_string(), 0, NOW),
        Err(CadpayError::InvalidUnlockTime)
    );
    assert_eq!(
        create_savings_pot(&mut registry, &program_id(), &ctx, String::new(), 0, NOW),
        Err(CadpayError::InvalidPotName)
    );
    let address = derive_pot_address(&program_id(), &alice(), "a").unwrap().0;
    assert!(!registry.contains(&address));
}

#[test]
fn deposit_of_nothing_is_refused() {
    let mut registry = Registry::new();
    let pot = open_pot(&mut registry, alice(), "a", 1);
    assert_eq!(pay_in(&mut registry, pot, alice(), 0), Err(CadpayError::InvalidAmount));
    assert_eq!(balance(&registry, pot), 0);
}

#[test]
fn deposit_names_a_transfer_from_the_caller() {
    let mut registry = Registry::new();
    let pot = open_pot(&mut registry, alice(), "a", 1);
    let ctx = DepositToPot { savings_pot: pot, user: bob() };
    assert_eq!(
        deposit_transfer(&registry, &ctx, 42),
        Ok(Transfer { from: bob(), to: pot, amount: 42, authorization: Authorization::Caller })
    );
    assert_eq!(balance(&registry, pot), 0);
    assert_eq!(deposit_to_pot(&mut registry, &ctx, 42, true), Ok(()));
    assert_eq!(balance(&registry, pot), 42);
}

#[test]
fn failed_transfer_leaves_the_pot_as_it_was() {
    let mut registry = Registry::new();
    let pot = open_pot(&mut registry, alice(), "a", 1);
    assert_eq!(pay_in(&mut registry, pot, alice(), 100), Ok(()));
    let deposit = DepositToPot { savings_pot: pot, user: alice() };
    assert_eq!(deposit_to_pot(&mut registry, &deposit, 5, false), Err(CadpayError::TransferFailed));
    let withdrawal = WithdrawFromPot { savings_pot: pot, authority: alice(), recipient: bob() };
    assert_eq!(
        withdraw_from_pot(&mut registry, &withdrawal, 5, NOW, false),
        Err(CadpayError::TransferFailed)
    );
    let closure = CloseSavingsPot { savings_pot: pot, authority: alice() };
    assert_eq!(close_savings_pot(&mut registry, &closure, false), Err(CadpayError::TransferFailed));
    assert_eq!(balance(&registry, pot), 100);
    assert_eq!(close_savings_pot(&mut registry, &closure, true), Ok(()));
    assert!(!registry.contains(&pot));
}

#[test]
fn withdrawal_amount_must_be_within_the_balance() {
    let mut registry = Registry::new();
    let pot = open_pot(&mut registry, alice(), "a", 10);
    assert_eq!(pay_in(&mut registry, pot, alice(), 100), Ok(()));
    let ctx = WithdrawFromPot { savings_pot: pot, authority: alice(), recipient: bob() };
    assert_eq!(
        withdraw_from_pot(&mut registry, &ctx, 0, 10, true),
        Err(CadpayError::InvalidWithdrawalAmount)
    );
    assert_eq!(
        withdraw_from_pot(&mut registry, &ctx, 101, 10, true),
        Err(CadpayError::InvalidWithdrawalAmount)
    );
    assert_eq!(balance(&registry, pot), 100);
    assert_eq!(withdraw_from_pot(&mut registry, &ctx, 100, 10, true), Ok(()));
    assert_eq!(balance(&registry, pot), 0);
}

#[test]
fn withdrawal_names_a_transfer_that_the_pot_stands_behind() {
    let mut registry = Registry::new();
    let pot = open_pot(&mut registry, alice(), "vacation", 10);
    let bump = derive_pot_address(&program_id(), &alice(), "vacation").unwrap().1;
    assert_eq!(pay_in(&mut registry, pot, bob(), 100), Ok(()));
    let ctx = WithdrawFromPot { savings_pot: pot, authority: alice(), recipient: bob() };
    assert_eq!(
        withdrawal_transfer(&registry, &ctx, 30, 10),
        Ok(Transfer {
            from: pot,
            to: bob(),
            amount: 30,
            authorization: Authorization::Derived { owner: alice(), name: "vacation".to_string(), bump },
        })
    );
    assert_eq!(balance(&registry, pot), 100);
}

#[test]
fn withdrawal_before_unlock_fails_whatever_the_amount() {
    let mut registry = Registry::new();
    let pot = open_pot(&mut registry, alice(), "a", 1000);
    assert_eq!(pay_in(&mut registry, pot, alice(), 100), Ok(()));
    let ctx = WithdrawFromPot { savings_pot: pot, authority: alice(), recipient: alice() };
    for amount in [0u64, 1, 100, 101, u64::MAX] {
        assert_eq!(
            withdraw_from_pot(&mut registry, &ctx, amount, 999, true),
            Err(CadpayError::PotLocked)
        );
        assert_eq!(withdrawal_transfer(&registry, &ctx, amount, 0), Err(CadpayError::PotLocked));
    }
    assert_eq!(balance(&registry, pot), 100);
    assert_eq!(withdraw_from_pot(&mut registry, &ctx, 1, 1000, true), Ok(()));
    assert_eq!(balance(&registry, pot), 99);
}

#[test]
fn stranger_can_neither_withdraw_nor_close() {
    let mut registry = Registry::new();
    let pot = open_pot(&mut registry, alice(), "a", 10);
    assert_eq!(pay_in(&mut registry, pot, alice(), 100), Ok(()));
    let withdrawal = WithdrawFromPot { savings_pot: pot, authority: bob(), recipient: bob() };
    assert_eq!(
        withdraw_from_pot(&mut registry, &withdrawal, 50, 20, true),
        Err(CadpayError::Unauthorized)
    );
    assert_eq!(
        withdraw_from_pot(&mut registry, &withdrawal, 50, 5, true),
        Err(CadpayError::Unauthorized)
    );
    let closure = CloseSavingsPot { savings_pot: pot, authority: bob() };
    assert_eq!(close_savings_pot(&mut registry, &closure, true), Err(CadpayError::Unauthorized));
    assert_eq!(closing_transfer(&registry, &closure), Err(CadpayError::Unauthorized));
    assert_eq!(balance(&registry, pot), 100);
}

#[test]
fn closing_an_empty_pot_asks_for_no_transfer() {
    let mut registry = Registry::new();
    let pot = open_pot(&mut registry, alice(), "a", 10);
    let ctx = CloseSavingsPot { savings_pot: pot, authority: alice() };
    assert_eq!(closing_transfer(&registry, &ctx), Ok(None));
    assert_eq!(close_savings_pot(&mut registry, &ctx, false), Ok(()));
    assert!(!registry.contains(&pot));
    assert_eq!(load_pot(&registry, &pot), Err(CadpayError::NotFound));
}

#[test]
fn closing_sweeps_the_whole_balance_to_the_authority() {
    let mut registry = Registry::new();
    let pot = open_pot(&mut registry, alice(), "a", u64::MAX);
    let bump = derive_pot_address(&program_id(), &alice(), "a").unwrap().1;
    assert_eq!(pay_in(&mut registry, pot, bob(), 77), Ok(()));
    let ctx = CloseSavingsPot { savings_pot: pot, authority: alice() };
    assert_eq!(
        closing_transfer(&registry, &ctx),
        Ok(Some(Transfer {
            from: pot,
            to: alice(),
            amount: 77,
            authorization: Authorization::Derived { owner: alice(), name: "a".to_string(), bump },
        }))
    );
    assert_eq!(close_savings_pot(&mut registry, &ctx, true), Ok(()));
    assert!(!registry.contains(&pot));
    assert_eq!(close_savings_pot(&mut registry, &ctx, true), Err(CadpayError::NotFound));
}

#[test]
fn closed_pot_can_be_created_anew() {
    let mut registry = Registry::new();
    let pot = open_pot(&mut registry, alice(), "a", 10);
    assert_eq!(pay_in(&mut registry, pot, alice(), 5), Ok(()));
    let ctx = CloseSavingsPot { savings_pot: pot, authority: alice() };
    assert_eq!(close_savings_pot(&mut registry, &ctx, true), Ok(()));
    let again = create_savings_pot(
        &mut registry,
        &program_id(),
        &CreateSavingsPot { user: alice() },
        "a".to_string(),
        20,
        NOW + 9,
    );
    assert_eq!(again, Ok(pot));
    let record = load_pot(&registry, &pot).unwrap();
    assert_eq!(record.balance, 0);
    assert_eq!(record.created_at, NOW + 9);
    assert_eq!(record.unlock_time, 20);
}

#[test]
fn balance_is_deposits_less_withdrawals() {
    let mut registry = Registry::new();
    let pot = open_pot(&mut registry, alice(), "a", 10);
    let other = open_pot(&mut registry, alice(), "b", 10);
    let out = WithdrawFromPot { savings_pot: pot, authority: alice(), recipient: bob() };
    assert_eq!(pay_in(&mut registry, pot, alice(), 300), Ok(()));
    assert_eq!(pay_in(&mut registry, other, alice(), 11), Ok(()));
    assert_eq!(pay_in(&mut registry, pot, bob(), 0), Err(CadpayError::InvalidAmount));
    assert_eq!(withdraw_from_pot(&mut registry, &out, 120, 10, true), Ok(()));
    assert_eq!(withdraw_from_pot(&mut registry, &out, 500, 10, true), Err(CadpayError::InvalidWithdrawalAmount));
    assert_eq!(withdraw_from_pot(&mut registry, &out, 50, 9, true), Err(CadpayError::PotLocked));
    assert_eq!(pay_in(&mut registry, pot, bob(), 25), Ok(()));
    assert_eq!(withdraw_from_pot(&mut registry, &out, 5, 11, false), Err(CadpayError::TransferFailed));
    assert_eq!(withdraw_from_pot(&mut registry, &out, 5, 11, true), Ok(()));
    assert_eq!(balance(&registry, pot), 300 + 25 - 120 - 5);
    assert_eq!(balance(&registry, other), 11);
}

#[test]
fn operations_on_a_missing_pot_find_nothing() {
    let mut registry = Registry::new();
    let nowhere = Address::new([1u8; 32]);
    assert_eq!(pay_in(&mut registry, nowhere, alice(), 5), Err(CadpayError::NotFound));
    let out = WithdrawFromPot { savings_pot: nowhere, authority: alice(), recipient: bob() };
    assert_eq!(withdraw_from_pot(&mut registry, &out, 5, 10, true), Err(CadpayError::NotFound));
    let ctx = CloseSavingsPot { savings_pot: nowhere, authority: alice() };
    assert_eq!(close_savings_pot(&mut registry, &ctx, true), Err(CadpayError::NotFound));
    // a profile is no pot
    let profile = initialize_user(
        &mut registry,
        &program_id(),
        &InitializeUser { user: alice() },
        [1; 16],
        [2; 4],
        [3; 8],
        [4; 4],
    )
    .unwrap();
    assert_eq!(pay_in(&mut registry, profile, alice(), 5), Err(CadpayError::NotFound));
    assert_eq!(load_pot(&registry, &profile), Err(CadpayError::NotFound));
}

#[test]
fn pot_credit_and_debit_are_checked() {
    let mut pot = SavingsPot {
        authority: alice(),
        name: "a".to_string(),
        unlock_time: 10,
        balance: 5,
        created_at: 1,
        bump: 255,
    };
    assert_eq!(pot.debit(6), Err(CadpayError::BalanceUnderflow));
    assert_eq!(pot.balance, 5);
    assert_eq!(pot.debit(5), Ok(()));
    assert_eq!(pot.balance, 0);
    assert_eq!(pot.credit(u64::MAX), Ok(()));
    assert_eq!(pot.credit(1), Err(CadpayError::BalanceOverflow));
    assert_eq!(pot.balance, u64::MAX);
    assert!(pot.is_unlocked(10));
    assert!(!pot.is_unlocked(9));
    assert_eq!(pot.duplicate(), pot);
}

#[test]
fn profile_is_created_once_and_changed_by_its_authority() {
    let mut registry = Registry::new();
    let program = program_id();
    let ctx = InitializeUser { user: alice() };
    let address = initialize_user(&mut registry, &program, &ctx, [1; 16], [2; 4], [3; 8], [4; 4]).unwrap();
    assert_eq!(address, derive_profile_address(&program, &alice()).unwrap().0);
    assert_eq!(
        load_profile(&registry, &address),
        Ok(UserProfile { authority: alice(), username: [1; 16], emoji: [2; 4], gender: [3; 8], pin: [4; 4] })
    );
    assert_eq!(
        initialize_user(&mut registry, &program, &ctx, [5; 16], [5; 4], [5; 8], [5; 4]),
        Err(CadpayError::AccountAlreadyExists)
    );
    let stranger = UpdateUser { user: alice(), authority: bob() };
    assert_eq!(
        update_user(&mut registry, &program, &stranger, [6; 16], [6; 4], [6; 8], [6; 4]),
        Err(CadpayError::Unauthorized)
    );
    assert_eq!(load_profile(&registry, &address).unwrap().username, [1; 16]);
    let owner = UpdateUser { user: alice(), authority: alice() };
    assert_eq!(update_user(&mut registry, &program, &owner, [6; 16], [7; 4], [8; 8], [9; 4]), Ok(()));
    assert_eq!(
        load_profile(&registry, &address),
        Ok(UserProfile { authority: alice(), username: [6; 16], emoji: [7; 4], gender: [8; 8], pin: [9; 4] })
    );
    let absent = UpdateUser { user: bob(), authority: bob() };
    assert_eq!(
        update_user(&mut registry, &program, &absent, [6; 16], [7; 4], [8; 8], [9; 4]),
        Err(CadpayError::NotFound)
    );
}

#[test]
fn registry_creates_updates_and_deletes() {
    let mut registry = Registry::new();
    let a = Address::new([1u8; 32]);
    let b = Address::new([2u8; 32]);
    let first = Record::Profile(UserProfile {
        authority: alice(),
        username: [1; 16],
        emoji: [2; 4],
        gender: [3; 8],
        pin: [4; 4],
    });
    let second = Record::Pot(SavingsPot {
        authority: bob(),
        name: "b".to_string(),
        unlock_time: 1,
        balance: 2,
        created_at: 3,
        bump: 4,
    });
    assert!(registry.get(&a).is_none());
    assert_eq!(registry.update(a, first.duplicate()), Err(CadpayError::NotFound));
    assert_eq!(registry.delete(a), Err(CadpayError::NotFound));
    assert_eq!(registry.create(a, first.duplicate()), Ok(()));
    assert_eq!(registry.create(b, second.duplicate()), Ok(()));
    assert_eq!(registry.create(a, second.duplicate()), Err(CadpayError::AccountAlreadyExists));
    assert_eq!(registry.get(&a), Some(&first));
    assert_eq!(registry.get(&b), Some(&second));
    assert_eq!(registry.update(a, second.duplicate()), Ok(()));
    assert_eq!(registry.get(&a), Some(&second));
    assert_eq!(registry.delete(a), Ok(second.duplicate()));
    assert!(!registry.contains(&a));
    assert!(registry.contains(&b));
    assert_eq!(registry.get(&b), Some(&second));
}

#[test]
fn errors_describe_themselves() {
    assert_eq!(CadpayError::InvalidPotName.message(), "Invalid pot name");
    assert_eq!(CadpayError::InvalidUnlockTime.message(), "Invalid unlock time");
    assert_eq!(CadpayError::InvalidAmount.message(), "Invalid amount");
    assert_eq!(CadpayError::InvalidWithdrawalAmount.message(), "Invalid withdrawal amount");
    assert_eq!(CadpayError::PotLocked.message(), "Pot is still locked");
    assert_eq!(CadpayError::BalanceOverflow.message(), "Balance overflow");
    assert_eq!(CadpayError::BalanceUnderflow.message(), "Balance underflow");
    assert_eq!(CadpayError::Unauthorized.message(), "Unauthorized");
    assert_eq!(CadpayError::AccountAlreadyExists.message(), "Account already exists");
    assert_eq!(CadpayError::NotFound.message(), "Account not found");
    assert_eq!(CadpayError::TransferFailed.message(), "Transfer failed");
    assert_eq!(CadpayError::DerivationExhausted.message(), "Address derivation exhausted");
}

#[test]
fn transfer_out_of_a_pot_carries_the_seeds_of_its_address() {
    let mut registry = Registry::new();
    let program = program_id();
    let pot = open_pot(&mut registry, alice(), "rainy day", 10);
    assert_eq!(pay_in(&mut registry, pot, alice(), 9), Ok(()));
    let ctx = CloseSavingsPot { savings_pot: pot, authority: alice() };
    let transfer = closing_transfer(&registry, &ctx).unwrap().unwrap();
    match transfer.authorization {
        Authorization::Derived { owner, name, bump } => {
            let key = Pubkey::create_program_address(
                &[b"savings-pot-v1", &owner.bytes, name.as_bytes(), &[bump]],
                &Pubkey::new_from_array(program.bytes),
            )
            .unwrap();
            assert_eq!(key.to_bytes(), transfer.from.bytes);
            assert_eq!(derive_pot_address(&program, &owner, &name), Ok((transfer.from, bump)));
        }
        Authorization::Caller => panic!("the pot pays, not the caller"),
    }
}

#[test]
fn operations_leave_other_records_alone() {
    let mut registry = Registry::new();
    let first = open_pot(&mut registry, alice(), "a", 10);
    let second = open_pot(&mut registry, bob(), "a", 10);
    assert_ne!(first, second);
    assert_eq!(pay_in(&mut registry, first, alice(), 40), Ok(()));
    assert_eq!(pay_in(&mut registry, second, bob(), 2), Ok(()));
    let before = load_pot(&registry, &second).unwrap();
    let out = WithdrawFromPot { savings_pot: first, authority: alice(), recipient: bob() };
    assert_eq!(withdraw_from_pot(&mut registry, &out, 15, 10, true), Ok(()));
    let ctx = CloseSavingsPot { savings_pot: first, authority: alice() };
    assert_eq!(close_savings_pot(&mut registry, &ctx, true), Ok(()));
    assert_eq!(load_pot(&registry, &second), Ok(before));
    let kept = load_pot(&registry, &second).unwrap();
    assert_eq!((kept.authority, kept.balance, kept.unlock_time, kept.created_at), (bob(), 2, 10, NOW));
}

#[test]
fn profile_fields_are_cut_or_filled_with_zeros() {
    assert_eq!(padded::<4>(b"ab"), [97, 98, 0, 0]);
    assert_eq!(padded::<4>(b"abcd"), [97, 98, 99, 100]);
    assert_eq!(padded::<4>(b"abcdef"), [97, 98, 99, 100]);
    assert_eq!(padded::<16>(b""), [0u8; 16]);
    assert_eq!(padded::<8>("female".as_bytes()), [102, 101, 109, 97, 108, 101, 0, 0]);
}
