use venear::account::{Account, VAccount};
use venear::fraction::Fraction;
use venear::global_state::{GlobalState, VGlobalState};
use venear::merkle::HeightAndIndex;
use venear::merkle_tree::MerkleTree;
use venear::token::NearToken;
use venear::venear::{VenearBalance, VenearGrowthConfig, VenearGrowthConfigFixedRate};

fn state() -> VGlobalState {
    let config = VenearGrowthConfig::from(VenearGrowthConfigFixedRate {
        annual_growth_rate_ns: Fraction { numerator: 1, denominator: 1_000_000 },
    });
    VGlobalState::from(GlobalState::new(1_500_000_000, config))
}

fn account(id: &str, near: u128) -> VAccount {
    VAccount::from(Account {
        account_id: id.to_string(),
        update_timestamp: 0,
        balance: VenearBalance::from_near(NearToken::from_near(near)),
        delegated_balance: VenearBalance::default(),
        delegation: None,
    })
}

fn near_of(v: &VAccount) -> u128 {
    let VAccount::V0(a) = v;
    a.balance.near_balance.as_near()
}

#[test]
fn node_keys() {
    assert_eq!(HeightAndIndex { height: 0, index: 7 }.key(), 7);
    assert_eq!(HeightAndIndex { height: 2, index: 1 }.key(), 2 * 0x1_0000_0000 + 1);
}

#[test]
fn a_new_tree_is_empty() {
    let t = MerkleTree::new(state(), 5);
    assert_eq!(t.length, 0);
    assert_eq!(t.root, [0u8; 32]);
    assert!(t.get("a.near").is_none());
    assert!(t.get_proof("a.near").is_none());
    assert!(t.get_snapshot(5).is_none());
    let (s, _) = t.get_snapshot(6).unwrap();
    assert_eq!(s.length, 0);
    assert_eq!(s.block_height, 5);
    let GlobalState { update_timestamp, .. } = GlobalState::from(t.get_global_state().duplicate());
    assert_eq!(update_timestamp, 1_000_000_000);
}

#[test]
fn set_get_and_prove() {
    let mut t = MerkleTree::new(state(), 1);
    let names = ["a.near", "b.near", "c.near", "d.near", "e.near"];
    for (i, n) in names.iter().enumerate() {
        assert!(t.set(n.to_string(), account(n, i as u128 + 1), 2).is_none());
    }
    assert_eq!(t.length, 5);
    for (i, n) in names.iter().enumerate() {
        let v = t.get(n).unwrap();
        assert_eq!(near_of(v), i as u128 + 1);
        let p = t.get_proof(n).unwrap();
        assert_eq!(p.index, i as u32);
        assert_eq!(p.path.len(), 3);
        assert!(p.verify(t.root, t.length, v));
        assert!(!p.verify(t.root, t.length, &account(n, 100)));
        assert!(!p.verify([1u8; 32], t.length, v));
    }
    // Setting again replaces the value and returns the old one.
    let old = t.set("c.near".to_string(), account("c.near", 30), 2).unwrap();
    assert_eq!(near_of(&old), 3);
    assert_eq!(near_of(t.get("c.near").unwrap()), 30);
    assert_eq!(t.length, 5);
    let p = t.get_proof("a.near").unwrap();
    assert!(p.verify(t.root, t.length, t.get("a.near").unwrap()));
}

#[test]
fn a_single_leaf_is_its_own_root() {
    let mut t = MerkleTree::new(state(), 1);
    t.set("a.near".to_string(), account("a.near", 1), 1);
    let p = t.get_proof("a.near").unwrap();
    assert_eq!(p.path.len(), 0);
    assert!(p.verify(t.root, 1, t.get("a.near").unwrap()));
    assert!(!p.verify(t.root, 2, t.get("a.near").unwrap()));
}

#[test]
fn snapshots_are_taken_once_per_block() {
    let mut t = MerkleTree::new(state(), 1);
    t.set("a.near".to_string(), account("a.near", 1), 2);
    let root_after_2 = t.root;
    t.set("b.near".to_string(), account("b.near", 2), 3);
    let (s, _) = t.get_snapshot(3).unwrap();
    assert_eq!(s.root, root_after_2);
    assert_eq!(s.length, 1);
    t.set("c.near".to_string(), account("c.near", 3), 3);
    let (s, _) = t.get_snapshot(3).unwrap();
    assert_eq!(s.root, root_after_2);
    let (s, _) = t.get_snapshot(4).unwrap();
    assert_eq!(s.root, t.root);
    assert_eq!(s.length, 3);
    t.set_global_state(state(), 5);
    let (s, _) = t.get_snapshot(5).unwrap();
    assert_eq!(s.length, 3);
    assert_eq!(s.block_height, 3);
}
