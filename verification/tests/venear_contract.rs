use venear::account::VAccount;
use venear::context::CallContext;
use venear::error::ContractError;
use venear::fraction::Fraction;
use venear::lockup_update::{LockupUpdateV1, VLockupUpdate};
use venear::token::NearToken;
use venear::venear::VenearGrowthConfigFixedRate;
use venear::venear_contract::{Config, Contract, LstData};
use venear::global_state::GlobalState;
use venear::account_id::{internal_map_owner_account_id, is_valid_account_id};

const CURRENT: &str = "venear.near";
const OWNER: &str = "owner.near";
const DEPLOYER: &str = "deployer.near";
const BYTE_COST: u128 = 10_000_000_000_000_000_000;
const ALICE_LOCKUP: &str = "2dd5dda540767b3a1aa33544bcba38042f4df6de.venear.near";
const BOB_LOCKUP: &str = "24341428553285e10e74a5f26f4638ac53afb28c.venear.near";
const CODE: [u8; 5] = [1, 2, 3, 4, 5];

fn ctx(pred: &str, deposit: u128, ts: u64, height: u64) -> CallContext {
    CallContext {
        predecessor_account_id: pred.to_string(),
        current_account_id: CURRENT.to_string(),
        attached_deposit: NearToken::from_yoctonear(deposit),
        block_timestamp: ts,
        block_height: height,
        storage_byte_cost: NearToken::from_yoctonear(BYTE_COST),
    }
}

fn config() -> Config {
    Config {
        lockup_contract_config: None,
        lockup_duration_ns: 90_000_000_000,
        staking_pool_whitelist_account_id: "whitelist.near".to_string(),
        lockup_code_deployers: vec![DEPLOYER.to_string()],
        local_deposit: NearToken::from_millinear(100),
        min_extra_lockup_deposit: NearToken::from_near(2),
        owner_account_id: OWNER.to_string(),
        guardians: vec!["guardian.near".to_string()],
    }
}

fn rate() -> VenearGrowthConfigFixedRate {
    VenearGrowthConfigFixedRate {
        annual_growth_rate_ns: Fraction { numerator: 15854895991882, denominator: 10u128.pow(30) },
    }
}

fn with_code() -> Contract {
    let mut c = Contract::new(config(), rate(), &ctx(OWNER, 0, 1_000_000_000, 10));
    c.prepare_lockup_code(&ctx(DEPLOYER, 105 * BYTE_COST, 1_000_000_000, 10), CODE.to_vec()).unwrap();
    let hash = c.lockup_codes[0].hash;
    c.set_lockup_contract(&ctx(OWNER, 1, 1_000_000_000, 10), hash, NearToken::from_near(2)).unwrap();
    c
}

fn registration_cost() -> u128 {
    5 * BYTE_COST + NearToken::from_near(2).as_yoctonear() + NearToken::from_millinear(100).as_yoctonear()
}

fn with_accounts() -> Contract {
    let mut c = with_code();
    for (name, lockup) in [("alice.near", ALICE_LOCKUP), ("bob.near", BOB_LOCKUP)] {
        c.register_account(&ctx(name, registration_cost(), 2_000_000_000, 11), None).unwrap();
        c.on_lockup_deployed(&ctx(CURRENT, 0, 2_000_000_000, 11), 1, name.to_string(), 11_000_000, NearToken::from_near(2), true)
            .unwrap();
        let _ = lockup;
    }
    c
}

fn lock(c: &mut Contract, owner: &str, lockup: &str, near: u128, nonce: u64, ts: u64, height: u64) -> Result<(), ContractError> {
    let update = LockupUpdateV1 {
        locked_near_balance: NearToken::from_near(near),
        timestamp: ts,
        lockup_update_nonce: nonce,
    };
    c.on_lockup_update(&ctx(lockup, 0, ts, height), 1, owner.to_string(), VLockupUpdate::V1(update))
}

#[test]
fn a_new_contract_is_empty() {
    let c = Contract::new(config(), rate(), &ctx(OWNER, 0, 1_500_000_000, 10));
    assert!(c.internal_get_account("alice.near").is_none());
    assert_eq!(c.ft_total_supply(&ctx(OWNER, 0, 3_000_000_000, 10)).unwrap().as_yoctonear(), 0);
    assert!(!c.paused);
}

#[test]
fn lockup_account_ids_are_the_hash_of_the_owner() {
    assert_eq!(internal_map_owner_account_id("alice.near", CURRENT).unwrap(), ALICE_LOCKUP);
    assert_eq!(internal_map_owner_account_id("bob.near", CURRENT).unwrap(), BOB_LOCKUP);
    assert_eq!(internal_map_owner_account_id("alice.near", "a-current-account-id-that-is-too-long.near"), None);
}

#[test]
fn account_id_rules() {
    assert!(is_valid_account_id("alice.near"));
    assert!(is_valid_account_id("a_b-c.d0"));
    assert!(!is_valid_account_id("a"));
    assert!(!is_valid_account_id("Alice.near"));
    assert!(!is_valid_account_id(".alice"));
    assert!(!is_valid_account_id("alice."));
    assert!(!is_valid_account_id("al..ice"));
    assert!(!is_valid_account_id("al-_ice"));
    assert!(!is_valid_account_id(&"a".repeat(65)));
    assert!(is_valid_account_id(&"a".repeat(64)));
    assert!(!is_valid_account_id("ƒluent.near"));
}

#[test]
fn storing_code_needs_a_deployer_and_its_storage() {
    let mut c = Contract::new(config(), rate(), &ctx(OWNER, 0, 1_000_000_000, 10));
    assert_eq!(
        c.prepare_lockup_code(&ctx("mallory.near", 105 * BYTE_COST, 1_000_000_000, 10), CODE.to_vec()),
        Err(ContractError::PermissionDenied)
    );
    assert_eq!(
        c.prepare_lockup_code(&ctx(DEPLOYER, 105 * BYTE_COST - 1, 1_000_000_000, 10), CODE.to_vec()),
        Err(ContractError::InsufficientDeposit)
    );
    assert_eq!(c.lockup_codes.len(), 0);
    let first = c.prepare_lockup_code(&ctx(DEPLOYER, 105 * BYTE_COST, 1_000_000_000, 10), CODE.to_vec()).unwrap();
    let second = c.prepare_lockup_code(&ctx(DEPLOYER, 105 * BYTE_COST, 1_000_000_000, 10), CODE.to_vec()).unwrap();
    assert_eq!(c.lockup_codes.len(), 1);
    assert_eq!(first, c.lockup_codes[0].hash);
    assert_eq!(second, first);
    // The SHA-256 of the bytes 1, 2, 3, 4, 5.
    assert_eq!(
        c.lockup_codes[0].hash,
        [
            0x74, 0xf8, 0x1f, 0xe1, 0x67, 0xd9, 0x9b, 0x4c, 0xb4, 0x1d, 0x6d, 0x0c, 0xcd, 0xa8, 0x22, 0x78,
            0xca, 0xee, 0x9f, 0x3e, 0x2f, 0x25, 0xd5, 0xe5, 0xa3, 0x93, 0x6f, 0xf3, 0xdc, 0xec, 0x60, 0xd0
        ]
    );
}

#[test]
fn setting_the_lockup_code_bumps_the_version() {
    let mut c = with_code();
    let cfg = c.config.lockup_contract_config.unwrap();
    assert_eq!(cfg.contract_version, 1);
    assert_eq!(cfg.contract_size, 5);
    let hash = c.lockup_codes[0].hash;
    c.set_lockup_contract(&ctx(OWNER, 1, 1_000_000_000, 10), hash, NearToken::from_near(3)).unwrap();
    assert_eq!(c.config.lockup_contract_config.unwrap().contract_version, 2);
    assert_eq!(c.config.min_extra_lockup_deposit.as_near(), 3);
    assert_eq!(
        c.set_lockup_contract(&ctx(OWNER, 1, 1_000_000_000, 10), [0u8; 32], NearToken::from_near(3)),
        Err(ContractError::LockupCodeNotFound)
    );
    assert_eq!(
        c.set_lockup_contract(&ctx("alice.near", 1, 1_000_000_000, 10), hash, NearToken::from_near(3)),
        Err(ContractError::NotOwner)
    );
}

#[test]
fn registration_cost_and_deployment_plan() {
    let mut c = with_code();
    assert_eq!(c.get_registration_cost(&ctx("alice.near", 0, 0, 10)).unwrap().as_yoctonear(), registration_cost());
    assert_eq!(
        c.get_lockup_deployment_cost(&ctx("alice.near", 0, 0, 10)).unwrap().as_yoctonear(),
        5 * BYTE_COST + NearToken::from_near(2).as_yoctonear()
    );
    let plan = c.register_account(&ctx("alice.near", registration_cost() + 7, 2_500_000_000, 12), None).unwrap();
    assert_eq!(plan.lockup_account_id, ALICE_LOCKUP);
    assert_eq!(plan.deposit.as_yoctonear(), registration_cost() + 7 - NearToken::from_millinear(100).as_yoctonear());
    assert_eq!(plan.init_args.lockup_update_nonce, 12_000_000);
    assert_eq!(plan.init_args.version, 1);
    assert_eq!(plan.init_args.lockup_duration, 90_000_000_000);
    assert_eq!(plan.callback_args.account_id, "alice.near");
    let info = c.get_account_info(&ctx("alice.near", 0, 2_500_000_000, 12), "alice.near".to_string()).unwrap().unwrap();
    assert_eq!(info.account.balance.near_balance.as_millinear(), 100);
    assert_eq!(info.account.update_timestamp, 2_000_000_000);
    assert_eq!(info.internal.version, None);
    assert_eq!(info.internal.deposit.as_millinear(), 100);
    assert_eq!(c.ft_balance_of(&ctx("x.near", 0, 2_500_000_000, 12), "alice.near".to_string()).unwrap().as_millinear(), 100);
    assert_eq!(c.ft_total_supply(&ctx("x.near", 0, 2_500_000_000, 12)).unwrap().as_millinear(), 100);
}

#[test]
fn registration_errors() {
    let mut c = Contract::new(config(), rate(), &ctx(OWNER, 0, 1_000_000_000, 10));
    assert_eq!(
        c.register_account(&ctx("alice.near", registration_cost(), 2_000_000_000, 11), None).unwrap_err(),
        ContractError::LockupCodeNotInitialized
    );
    let mut c = with_code();
    assert_eq!(
        c.register_account(&ctx("alice.near", registration_cost() - 1, 2_000_000_000, 11), None).unwrap_err(),
        ContractError::InsufficientDeposit
    );
    c.register_account(&ctx("alice.near", registration_cost(), 2_000_000_000, 11), None).unwrap();
    assert_eq!(
        c.register_account(&ctx("bob.near", registration_cost(), 2_000_000_000, 11), Some("alice.near".to_string())).unwrap_err(),
        ContractError::AccountAlreadyExists
    );
    let mut long = with_code();
    let mut cx = ctx("alice.near", registration_cost(), 2_000_000_000, 11);
    cx.current_account_id = "a-current-account-id-that-is-too-long.near".to_string();
    assert_eq!(long.register_account(&cx, None).unwrap_err(), ContractError::InvalidLockupAccountId);
    assert!(long.internal_get_account_internal("alice.near").is_none());
    c.paused = true;
    assert_eq!(c.register_account(&ctx("bob.near", registration_cost(), 2_000_000_000, 11), None).unwrap_err(), ContractError::Paused);
}

#[test]
fn deploy_lockup_needs_registration() {
    let c = with_accounts();
    let cost = 5 * BYTE_COST + NearToken::from_near(2).as_yoctonear();
    let plan = c.deploy_lockup(&ctx("alice.near", cost, 3_000_000_000, 20)).unwrap();
    assert_eq!(plan.lockup_account_id, ALICE_LOCKUP);
    assert_eq!(plan.init_args.lockup_update_nonce, 20_000_000);
    assert_eq!(plan.deploy_gas, 100_000_000_000_000);
    assert_eq!(plan.callback_gas, 15_000_000_000_000);
    assert_eq!(c.deploy_lockup(&ctx("carol.near", cost, 3_000_000_000, 20)).unwrap_err(), ContractError::AccountNotRegistered);
    assert_eq!(c.deploy_lockup(&ctx("alice.near", cost - 1, 3_000_000_000, 20)).unwrap_err(), ContractError::InsufficientDeposit);
}

#[test]
fn lockup_deployment_outcome() {
    let mut c = with_code();
    c.register_account(&ctx("alice.near", registration_cost(), 2_000_000_000, 11), None).unwrap();
    let (lockup, refund) = c
        .on_lockup_deployed(&ctx(CURRENT, 0, 2_000_000_000, 11), 1, "alice.near".to_string(), 11_000_000, NearToken::from_near(2), false)
        .unwrap();
    assert_eq!(lockup, None);
    let refund = refund.unwrap();
    assert_eq!(refund.receiver_id, "alice.near");
    assert_eq!(refund.amount.as_near(), 2);
    assert_eq!(
        c.on_lockup_deployed(&ctx("alice.near", 0, 2_000_000_000, 11), 1, "alice.near".to_string(), 11_000_000, NearToken::from_near(2), true)
            .unwrap_err(),
        ContractError::PermissionDenied
    );
    let (lockup, refund) = c
        .on_lockup_deployed(&ctx(CURRENT, 0, 2_000_000_000, 11), 1, "alice.near".to_string(), 11_000_000, NearToken::from_near(2), true)
        .unwrap();
    assert_eq!(lockup.as_deref(), Some(ALICE_LOCKUP));
    assert!(refund.is_none());
    assert_eq!(c.get_lockup_account_id(&ctx(CURRENT, 0, 2_000_000_000, 11), "alice.near".to_string()).unwrap(), ALICE_LOCKUP);
    let internal = c.internal_get_account_internal("alice.near").unwrap();
    assert_eq!(internal.version, Some(1));
    assert_eq!(internal.lockup_update_nonce, 11_000_000);
    assert_eq!(
        c.on_lockup_deployed(&ctx(CURRENT, 0, 2_000_000_000, 11), 1, "alice.near".to_string(), 10_000_000, NearToken::from_near(2), true)
            .unwrap_err(),
        ContractError::InvalidNonce
    );
}

#[test]
fn a_lockup_update_sets_the_locked_near() {
    let mut c = with_accounts();
    lock(&mut c, "alice.near", ALICE_LOCKUP, 10, 11_000_001, 4_000_000_000, 30).unwrap();
    let a = c.internal_get_account("alice.near").unwrap();
    assert_eq!(a.balance.near_balance.as_millinear(), 10_100);
    assert_eq!(c.internal_get_account_internal("alice.near").unwrap().lockup_update_nonce, 11_000_001);
    assert_eq!(c.ft_total_supply(&ctx("x.near", 0, 4_000_000_000, 30)).unwrap().as_millinear() / 100, 102);
    // The same update again is refused.
    assert_eq!(lock(&mut c, "alice.near", ALICE_LOCKUP, 10, 11_000_001, 4_000_000_000, 30), Err(ContractError::InvalidNonce));
    // Less locked NEAR drops the extra veNEAR.
    lock(&mut c, "alice.near", ALICE_LOCKUP, 20, 11_000_002, 31_536_004_000_000_000, 40).unwrap();
    assert!(c.internal_get_account("alice.near").unwrap().balance.extra_venear_balance.as_near() > 0);
    // The same locked NEAR again keeps it: the deposit is counted beside it.
    lock(&mut c, "alice.near", ALICE_LOCKUP, 20, 11_000_003, 31_536_005_000_000_000, 41).unwrap();
    assert!(c.internal_get_account("alice.near").unwrap().balance.extra_venear_balance.as_near() > 0);
    lock(&mut c, "alice.near", ALICE_LOCKUP, 5, 11_000_004, 31_536_006_000_000_000, 42).unwrap();
    let a = c.internal_get_account("alice.near").unwrap();
    assert_eq!(a.balance.extra_venear_balance.as_yoctonear(), 0);
    assert_eq!(a.balance.near_balance.as_millinear(), 5_100);
}

#[test]
fn lockup_update_errors() {
    let mut c = with_accounts();
    assert_eq!(lock(&mut c, "alice.near", BOB_LOCKUP, 10, 11_000_001, 4_000_000_000, 30), Err(ContractError::PermissionDenied));
    let update = LockupUpdateV1 { locked_near_balance: NearToken::from_near(1), timestamp: 0, lockup_update_nonce: 11_000_001 };
    assert_eq!(
        c.on_lockup_update(&ctx(ALICE_LOCKUP, 0, 4_000_000_000, 30), 2, "alice.near".to_string(), VLockupUpdate::V1(update)),
        Err(ContractError::InvalidLockupVersion)
    );
    let carol_lockup = internal_map_owner_account_id("carol.near", CURRENT).unwrap();
    assert_eq!(lock(&mut c, "carol.near", &carol_lockup, 10, 1, 4_000_000_000, 30), Err(ContractError::AccountNotRegistered));
    // Time going back.
    assert_eq!(lock(&mut c, "alice.near", ALICE_LOCKUP, 10, 11_000_001, 1_000_000_000, 30), Err(ContractError::BalanceOutOfRange));
}

#[test]
fn delegation_moves_the_balance_and_back() {
    let mut c = with_accounts();
    lock(&mut c, "alice.near", ALICE_LOCKUP, 10, 11_000_001, 4_000_000_000, 30).unwrap();
    c.delegate_all(&ctx("alice.near", 1, 4_000_000_000, 30), "bob.near".to_string()).unwrap();
    let a = c.internal_get_account("alice.near").unwrap();
    let b = c.internal_get_account("bob.near").unwrap();
    assert_eq!(a.delegation.as_ref().unwrap().account_id, "bob.near");
    assert_eq!(b.delegated_balance.near_balance.as_millinear(), 10_100);
    // Alice's own veNEAR counts for Bob now.
    assert_eq!(b.total_balance(4_000_000_000, c.internal_get_venear_growth_config()).as_millinear(), 10_200);
    assert_eq!(a.total_balance(4_000_000_000, c.internal_get_venear_growth_config()).as_millinear(), 0);
    // Delegating again to the same account changes nothing.
    c.delegate_all(&ctx("alice.near", 1, 4_000_000_000, 30), "bob.near".to_string()).unwrap();
    // A lockup update moves with the delegation.
    lock(&mut c, "alice.near", ALICE_LOCKUP, 20, 11_000_002, 4_000_000_000, 30).unwrap();
    assert_eq!(c.internal_get_account("bob.near").unwrap().delegated_balance.near_balance.as_millinear(), 20_100);
    c.undelegate(&ctx("alice.near", 1, 4_000_000_000, 30)).unwrap();
    let a = c.internal_get_account("alice.near").unwrap();
    let b = c.internal_get_account("bob.near").unwrap();
    assert!(a.delegation.is_none());
    assert_eq!(b.delegated_balance.near_balance.as_yoctonear(), 0);
    assert_eq!(b.delegated_balance.extra_venear_balance.as_yoctonear(), 0);
}

#[test]
fn delegation_errors() {
    let mut c = with_accounts();
    assert_eq!(c.delegate_all(&ctx("alice.near", 0, 4_000_000_000, 30), "bob.near".to_string()), Err(ContractError::RequiresOneYocto));
    assert_eq!(c.delegate_all(&ctx("alice.near", 1, 4_000_000_000, 30), "alice.near".to_string()), Err(ContractError::SelfDelegation));
    assert_eq!(c.delegate_all(&ctx("alice.near", 1, 4_000_000_000, 30), "carol.near".to_string()), Err(ContractError::AccountNotRegistered));
    assert_eq!(c.delegate_all(&ctx("carol.near", 1, 4_000_000_000, 30), "bob.near".to_string()), Err(ContractError::AccountNotRegistered));
    assert_eq!(c.undelegate(&ctx("alice.near", 1, 4_000_000_000, 30)), Err(ContractError::NotDelegated));
    c.paused = true;
    assert_eq!(c.delegate_all(&ctx("alice.near", 1, 4_000_000_000, 30), "bob.near".to_string()), Err(ContractError::Paused));
    assert_eq!(c.undelegate(&ctx("alice.near", 1, 4_000_000_000, 30)), Err(ContractError::Paused));
}

#[test]
fn snapshots_keep_the_state_before_the_block() {
    let fresh = Contract::new(config(), rate(), &ctx(OWNER, 0, 1_000_000_000, 10));
    assert_eq!(fresh.get_snapshot(&ctx("x.near", 0, 1_000_000_000, 10)).unwrap_err(), ContractError::SnapshotNotAvailable);
    let mut c = with_accounts();
    let (empty, _) = c.get_snapshot(&ctx("x.near", 0, 2_000_000_000, 11)).unwrap();
    assert_eq!(empty.length, 0);
    let (before, _) = c.get_snapshot(&ctx("x.near", 0, 4_000_000_000, 30)).unwrap();
    assert_eq!(before.length, 2);
    assert_eq!(before.root, c.tree.root);
    lock(&mut c, "alice.near", ALICE_LOCKUP, 10, 11_000_001, 4_000_000_000, 30).unwrap();
    let (same_block, _) = c.get_snapshot(&ctx("x.near", 0, 4_000_000_000, 30)).unwrap();
    assert_eq!(same_block.root, before.root);
    assert_ne!(c.tree.root, before.root);
    let (next_block, _) = c.get_snapshot(&ctx("x.near", 0, 5_000_000_000, 31)).unwrap();
    assert_eq!(next_block.root, c.tree.root);
    c.paused = true;
    assert_eq!(c.get_snapshot(&ctx("x.near", 0, 5_000_000_000, 31)).unwrap_err(), ContractError::Paused);
}

#[test]
fn proofs_verify_against_the_root() {
    let mut c = with_accounts();
    lock(&mut c, "alice.near", ALICE_LOCKUP, 10, 11_000_001, 4_000_000_000, 30).unwrap();
    let (proof, value) = c.get_proof("alice.near".to_string()).unwrap();
    assert!(proof.verify(c.tree.root, c.tree.length, &value));
    let (bob_proof, bob_value) = c.get_proof("bob.near".to_string()).unwrap();
    assert!(bob_proof.verify(c.tree.root, c.tree.length, &bob_value));
    assert!(!proof.verify(c.tree.root, c.tree.length, &bob_value));
    let VAccount::V0(a) = value;
    assert_eq!(a.account_id, "alice.near");
    assert_eq!(c.get_proof("carol.near".to_string()).unwrap_err(), ContractError::AccountNotRegistered);
}

#[test]
fn governance_needs_the_owner_and_one_yocto() {
    let mut c = with_code();
    assert_eq!(c.set_local_deposit(&ctx("alice.near", 1, 0, 10), NearToken::from_near(1)), Err(ContractError::NotOwner));
    assert_eq!(c.set_local_deposit(&ctx(OWNER, 2, 0, 10), NearToken::from_near(1)), Err(ContractError::RequiresOneYocto));
    c.set_local_deposit(&ctx(OWNER, 1, 0, 10), NearToken::from_near(1)).unwrap();
    assert_eq!(c.config.local_deposit.as_near(), 1);
    c.set_staking_pool_whitelist_account_id(&ctx(OWNER, 1, 0, 10), "new_whitelist.near".to_string()).unwrap();
    assert_eq!(c.config.staking_pool_whitelist_account_id, "new_whitelist.near");
    c.set_unlock_duration_ns(&ctx(OWNER, 1, 0, 10), 5).unwrap();
    assert_eq!(c.config.lockup_duration_ns, 5);
    c.set_lockup_code_deployers(&ctx(OWNER, 1, 0, 10), vec!["d1.near".to_string()]).unwrap();
    assert_eq!(c.config.lockup_code_deployers, vec!["d1.near".to_string()]);
    c.set_owner_account_id(&ctx(OWNER, 1, 0, 10), "new_owner.near".to_string()).unwrap();
    assert_eq!(c.set_local_deposit(&ctx(OWNER, 1, 0, 10), NearToken::from_near(2)), Err(ContractError::NotOwner));
    c.set_local_deposit(&ctx("new_owner.near", 1, 0, 10), NearToken::from_near(2)).unwrap();
    assert_eq!(c.config.local_deposit.as_near(), 2);
}

#[test]
fn venear_cannot_be_transferred() {
    let mut c = with_accounts();
    assert_eq!(c.ft_transfer(), Err(ContractError::NonTransferable));
    assert_eq!(c.ft_transfer_call(), Err(ContractError::NonTransferable));
    let m = c.ft_metadata();
    assert_eq!(m.symbol, "VENEAR");
    assert_eq!(m.name, "veNEAR");
    assert_eq!(m.spec, "ft-1.0.0");
    assert_eq!(m.decimals, 24);
    assert!(m.icon.unwrap().starts_with("data:image/svg+xml;base64,"));
    assert_eq!(c.ft_balance_of(&ctx("x.near", 0, 4_000_000_000, 30), "carol.near".to_string()).unwrap().as_yoctonear(), 0);
}

#[test]
fn liquid_staking_data_only_moves_forward() {
    let mut c = with_code();
    let d = |ts: u64, n: u128| LstData { timestamp: ts, multiplier: Fraction { numerator: n, denominator: 10 } };
    c.internal_update_lst_data("lst.near".to_string(), d(5, 11)).unwrap();
    assert_eq!(c.internal_update_lst_data("lst.near".to_string(), d(5, 12)), Err(ContractError::StaleLstData));
    assert_eq!(c.internal_update_lst_data("lst.near".to_string(), d(6, 10)), Err(ContractError::LstMultiplierDecreased));
    c.internal_update_lst_data("lst.near".to_string(), d(6, 11)).unwrap();
    c.internal_update_lst_data("lst.near".to_string(), d(7, 12)).unwrap();
}

#[test]
fn the_total_near_is_the_sum_of_the_accounts_near() {
    let mut c = with_accounts();
    lock(&mut c, "alice.near", ALICE_LOCKUP, 10, 11_000_001, 4_000_000_000, 30).unwrap();
    lock(&mut c, "bob.near", BOB_LOCKUP, 7, 11_000_001, 5_000_000_000, 31).unwrap();
    c.delegate_all(&ctx("alice.near", 1, 6_000_000_000, 32), "bob.near".to_string()).unwrap();
    lock(&mut c, "alice.near", ALICE_LOCKUP, 3, 11_000_002, 7_000_000_000, 33).unwrap();
    let total = GlobalState::from(c.tree.get_global_state().duplicate()).total_venear_balance.near_balance.as_yoctonear();
    let sum: u128 = ["alice.near", "bob.near"]
        .iter()
        .map(|n| c.internal_get_account(n).unwrap().balance.near_balance.as_yoctonear())
        .sum();
    assert_eq!(total, sum);
    assert_eq!(total, NearToken::from_millinear(10_200).as_yoctonear());
}

#[test]
fn a_full_tree_takes_no_new_account() {
    let mut c = with_code();
    c.tree.length = u32::MAX;
    assert_eq!(
        c.register_account(&ctx("alice.near", registration_cost(), 2_000_000_000, 11), None).unwrap_err(),
        ContractError::TreeFull
    );
}

#[test]
fn undelegating_survives_rounding() {
    let mut c = with_accounts();
    lock(&mut c, "alice.near", ALICE_LOCKUP, 10, 11_000_001, 3_000_000_000, 20).unwrap();
    c.delegate_all(&ctx("alice.near", 1, 3_000_000_000, 20), "bob.near".to_string()).unwrap();
    // Bob's record, with the delegated balance, is grown many times.
    for i in 1..=10u64 {
        let update = LockupUpdateV1 {
            locked_near_balance: NearToken::from_millinear(i as u128),
            timestamp: 0,
            lockup_update_nonce: 11_000_000 + i,
        };
        let ts = 3_000_000_000 + i * 7_777_000_000_000;
        c.on_lockup_update(&ctx(BOB_LOCKUP, 0, ts, 20 + i), 1, "bob.near".to_string(), VLockupUpdate::V1(update)).unwrap();
    }
    c.undelegate(&ctx("alice.near", 1, 100_000_000_000_000, 40)).unwrap();
    let a = c.internal_get_account("alice.near").unwrap();
    assert!(a.delegation.is_none());
    let b = c.internal_get_account("bob.near").unwrap();
    assert_eq!(b.delegated_balance.near_balance.as_yoctonear(), 0);
}

#[test]
fn delegated_near_is_the_delegators_near() {
    let mut c = with_accounts();
    c.register_account(&ctx("carol.near", registration_cost(), 2_000_000_000, 11), None).unwrap();
    lock(&mut c, "alice.near", ALICE_LOCKUP, 10, 11_000_001, 4_000_000_000, 30).unwrap();
    c.delegate_all(&ctx("alice.near", 1, 4_000_000_000, 30), "bob.near".to_string()).unwrap();
    c.delegate_all(&ctx("carol.near", 1, 5_000_000_000, 31), "bob.near".to_string()).unwrap();
    // Alice's 10.1 NEAR and Carol's 0.1 NEAR.
    assert_eq!(c.internal_get_account("bob.near").unwrap().delegated_balance.near_balance.as_millinear(), 10_200);
    // Alice moves hers to Carol.
    c.delegate_all(&ctx("alice.near", 1, 6_000_000_000, 32), "carol.near".to_string()).unwrap();
    assert_eq!(c.internal_get_account("bob.near").unwrap().delegated_balance.near_balance.as_millinear(), 100);
    assert_eq!(c.internal_get_account("carol.near").unwrap().delegated_balance.near_balance.as_millinear(), 10_100);
    c.undelegate(&ctx("carol.near", 1, 7_000_000_000, 33)).unwrap();
    assert_eq!(c.internal_get_account("bob.near").unwrap().delegated_balance.near_balance.as_yoctonear(), 0);
    assert_eq!(c.internal_get_account("carol.near").unwrap().delegated_balance.near_balance.as_millinear(), 10_100);
}

#[test]
fn test_venear_pause() {
    let mut c = with_accounts();
    c.delegate_all(&ctx("alice.near", 1, 3_000_000_000, 20), "bob.near".to_string()).unwrap();
    assert_eq!(c.pause(&ctx("alice.near", 1, 3_000_000_000, 20)), Err(ContractError::NotGuardian));
    assert!(!c.is_paused());
    c.pause(&ctx("guardian.near", 1, 3_000_000_000, 20)).unwrap();
    assert!(c.is_paused());
    assert_eq!(c.unpause(&ctx("guardian.near", 1, 3_000_000_000, 20)), Err(ContractError::NotOwner));
    assert!(c.is_paused());
    c.unpause(&ctx(OWNER, 1, 3_000_000_000, 20)).unwrap();
    assert!(!c.is_paused());
    c.pause(&ctx(OWNER, 1, 3_000_000_000, 20)).unwrap();
    assert!(c.is_paused());
    assert_eq!(c.register_account(&ctx("carol.near", registration_cost(), 3_000_000_000, 20), None).unwrap_err(), ContractError::Paused);
    assert_eq!(c.undelegate(&ctx("alice.near", 1, 3_000_000_000, 20)), Err(ContractError::Paused));
    assert_eq!(c.delegate_all(&ctx("bob.near", 1, 3_000_000_000, 20), "alice.near".to_string()), Err(ContractError::Paused));
    let cost = 5 * BYTE_COST + NearToken::from_near(2).as_yoctonear();
    assert_eq!(c.deploy_lockup(&ctx("alice.near", cost, 3_000_000_000, 20)).unwrap_err(), ContractError::Paused);
    assert_eq!(c.get_snapshot(&ctx("x.near", 0, 3_000_000_000, 20)).unwrap_err(), ContractError::Paused);
    assert_eq!(c.get_proof("alice.near".to_string()).unwrap_err(), ContractError::Paused);
}

#[test]
fn only_the_owner_sets_the_venear_guardians() {
    let mut c = with_accounts();
    let guardians = vec!["new_guardian_1.near".to_string(), "new_guardian_2.near".to_string()];
    assert_eq!(c.set_guardians(&ctx("alice.near", 1, 3_000_000_000, 20), guardians.clone()), Err(ContractError::NotOwner));
    c.set_guardians(&ctx(OWNER, 1, 3_000_000_000, 20), guardians.clone()).unwrap();
    assert_eq!(c.config.guardians, guardians);
}
