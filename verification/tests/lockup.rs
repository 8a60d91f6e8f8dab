use venear::context::CallContext;
use venear::error::ContractError;
use venear::lockup_contract::{LockupContract, StakingInformation, TransactionStatus};
use venear::lockup_update::VLockupUpdate;
use venear::token::NearToken;

fn ctx(pred: &str, deposit: u128, ts: u64) -> CallContext {
    CallContext {
        predecessor_account_id: pred.to_string(),
        current_account_id: "lockup.venear.near".to_string(),
        attached_deposit: NearToken::from_yoctonear(deposit),
        block_timestamp: ts,
        block_height: 1,
        storage_byte_cost: NearToken::from_yoctonear(1),
    }
}

fn near(n: u128) -> NearToken {
    NearToken::from_near(n)
}

fn lockup() -> LockupContract {
    LockupContract::new(
        "owner.near".to_string(),
        "venear.near".to_string(),
        1_000,
        None,
        None,
        "whitelist.near".to_string(),
        1,
        5_000_000,
        near(100),
    )
    .unwrap()
}

// 103.5 NEAR in the account: 100 NEAR that can leave, 3.5 for storage.
fn balance() -> NearToken {
    NearToken::from_millinear(103_500)
}

#[test]
fn a_new_lockup() {
    let c = lockup();
    assert_eq!(c.get_owner_account_id(), "owner.near");
    assert_eq!(c.get_version(), 1);
    assert_eq!(c.get_lockup_update_nonce(), 5_000_000);
    assert_eq!(c.lockup_information.lockup_amount, near(100).as_yoctonear());
    assert_eq!(c.get_venear_locked_balance().as_yoctonear(), 0);
    assert_eq!(c.get_venear_liquid_balance(balance()).unwrap().as_near(), 100);
    assert_eq!(c.get_staking_pool_account_id(), None);
    assert_eq!(c.get_known_deposited_balance().as_yoctonear(), 0);
    assert_eq!(c.get_liquid_owners_balance(balance()).as_near(), 100);
    assert_eq!(c.get_liquid_owners_balance(NearToken::from_near(3)).as_yoctonear(), 0);
    assert_eq!(c.get_owners_balance(balance()).unwrap().as_millinear(), 103_500);
    assert_eq!(c.get_balance(balance()).unwrap().as_millinear(), 103_500);
    assert_eq!(
        LockupContract::new("Owner".to_string(), "v.near".to_string(), 1, None, None, "w.near".to_string(), 1, 0, near(1)).unwrap_err(),
        ContractError::InvalidOwnerAccountId
    );
}

#[test]
fn test_full_lock_unlock_cycle() {
    let mut c = lockup();
    let call = c.lock_near(&ctx("owner.near", 1, 10), Some(near(50)), balance()).unwrap();
    assert_eq!(c.get_venear_locked_balance().as_near(), 50);
    assert_eq!(c.get_lockup_update_nonce(), 5_000_001);
    assert_eq!(call.venear_account_id, "venear.near");
    assert_eq!(call.owner_account_id, "owner.near");
    let VLockupUpdate::V1(u) = call.update;
    assert_eq!(u.locked_near_balance.as_near(), 50);
    assert_eq!(u.lockup_update_nonce, 5_000_001);
    assert_eq!(u.timestamp, 10);
    assert_eq!(c.get_venear_liquid_balance(balance()).unwrap().as_near(), 50);

    c.begin_unlock_near(&ctx("owner.near", 1, 20), Some(near(30))).unwrap();
    assert_eq!(c.get_venear_locked_balance().as_near(), 20);
    assert_eq!(c.get_venear_pending_balance().as_near(), 30);
    assert_eq!(c.get_venear_unlock_timestamp(), 1_020);
    assert_eq!(c.get_lockup_update_nonce(), 5_000_002);
    assert_eq!(c.get_venear_liquid_balance(balance()).unwrap().as_near(), 50);

    assert_eq!(c.end_unlock_near(&ctx("owner.near", 1, 1_019), None).unwrap_err(), ContractError::InvalidUnlockTime);
    c.end_unlock_near(&ctx("owner.near", 1, 1_020), Some(near(10))).unwrap();
    assert_eq!(c.get_venear_pending_balance().as_near(), 20);
    assert_eq!(c.get_venear_liquid_balance(balance()).unwrap().as_near(), 60);

    c.lock_pending_near(&ctx("owner.near", 1, 1_030), None).unwrap();
    assert_eq!(c.get_venear_pending_balance().as_near(), 0);
    assert_eq!(c.get_venear_locked_balance().as_near(), 40);
    assert_eq!(c.get_lockup_update_nonce(), 5_000_004);
}

#[test]
fn test_over_unlock_should_fail() {
    let mut c = lockup();
    c.lock_near(&ctx("owner.near", 1, 10), Some(near(100)), balance()).unwrap();
    assert_eq!(c.begin_unlock_near(&ctx("owner.near", 1, 10), Some(near(150))).unwrap_err(), ContractError::InvalidAmount);
    assert_eq!(c.get_venear_locked_balance().as_near(), 100);
}

#[test]
fn test_early_unlock_attempt() {
    let mut c = lockup();
    c.lock_near(&ctx("owner.near", 1, 10), None, balance()).unwrap();
    assert_eq!(c.get_venear_locked_balance().as_near(), 100);
    c.begin_unlock_near(&ctx("owner.near", 1, 10), None).unwrap();
    assert_eq!(c.end_unlock_near(&ctx("owner.near", 1, 500), None).unwrap_err(), ContractError::InvalidUnlockTime);
    assert_eq!(c.get_venear_pending_balance().as_near(), 100);
}

#[test]
fn lockup_errors() {
    let mut c = lockup();
    assert_eq!(c.lock_near(&ctx("owner.near", 0, 10), None, balance()).unwrap_err(), ContractError::RequiresOneYocto);
    assert_eq!(c.lock_near(&ctx("owner.near", 1, 10), Some(near(101)), balance()).unwrap_err(), ContractError::InvalidAmount);
    assert_eq!(c.lock_pending_near(&ctx("owner.near", 1, 10), Some(near(1))).unwrap_err(), ContractError::InvalidAmount);
    assert_eq!(c.end_unlock_near(&ctx("owner.near", 1, 10), Some(near(1))).unwrap_err(), ContractError::InvalidAmount);
    c.lock_near(&ctx("owner.near", 1, 10), Some(near(90)), balance()).unwrap();
    // The account's balance went below what is locked.
    assert_eq!(c.get_venear_liquid_balance(near(50)).unwrap_err(), ContractError::BalanceOutOfRange);
    assert_eq!(c.assert_owner(&ctx("someone.near", 1, 10)), Err(ContractError::NotOwner));
    assert_eq!(c.assert_owner(&ctx("owner.near", 1, 10)), Ok(()));
}

#[test]
fn staking_pool_checks() {
    let mut c = lockup();
    assert_eq!(c.assert_staking_pool_is_idle(), Err(ContractError::StakingPoolNotSelected));
    assert_eq!(c.assert_no_staking_or_idle(), Ok(()));
    assert_eq!(c.assert_staking_pool_is_not_selected(), Ok(()));
    assert_eq!(c.set_staking_pool_status(TransactionStatus::Busy), Err(ContractError::StakingPoolNotSelected));
    c.staking_information = Some(StakingInformation {
        staking_pool_account_id: "pool.near".to_string(),
        status: TransactionStatus::Idle,
        deposit_amount: near(20),
    });
    assert_eq!(c.get_staking_pool_account_id(), Some("pool.near".to_string()));
    assert_eq!(c.get_known_deposited_balance().as_near(), 20);
    assert_eq!(c.get_venear_liquid_balance(balance()).unwrap().as_near(), 120);
    assert_eq!(c.assert_staking_pool_is_not_selected(), Err(ContractError::StakingPoolAlreadySelected));
    c.set_staking_pool_status(TransactionStatus::Busy).unwrap();
    assert_eq!(c.assert_staking_pool_is_idle(), Err(ContractError::Busy));
    assert_eq!(c.assert_no_staking_or_idle(), Err(ContractError::Busy));
}

#[test]
fn a_lockup_update_carries_its_gas() {
    let mut c = lockup();
    let call = c.lock_near(&ctx("owner.near", 1, 10), Some(near(50)), balance()).unwrap();
    assert_eq!(call.gas, 20_000_000_000_000);
}
