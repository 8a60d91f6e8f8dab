//! The Merkle tree itself: its storage, updates, proofs and snapshots.
use vstd::prelude::*;
use std::collections::HashMap;
use vstd::hash_map::StringHashMap;
use crate::account::VAccount;
use crate::crypto::{sha256, CryptoHash};
use crate::encoding::encodable;
use crate::global_state::VGlobalState;
use crate::merkle::{
    combine, compute_tree_height, concat_hashes, in_domain, lemma_two_pow_32, inner_ok, leaf_hash, leaf_ok,
    node_key, nodes_ok, path_hash, path_view, proof_valid, stored_node, zero_hash,
    BlockHeight, HeightAndIndex, MerkleProof, MerkleTreeSnapshot,
};
use crate::merkle_shape::{
    level_count, lemma_level_count_grow, lemma_level_count_nonneg, lemma_level_count_step,
    lemma_path_in_level, lemma_path_index_bounds, lemma_path_index_step, lemma_path_reaches_root,
    lemma_top_level, lemma_tree_height_bound, lemma_tree_height_grow, path_index, sibling, tree_height,
};

verus! {

broadcast use vstd::std_specs::hash::group_hash_axioms;

/// The Merkle tree of versioned accounts, keyed by account ID.
pub struct MerkleTree {
    /// The root hash; 32 zero bytes while the tree is empty.
    pub root: CryptoHash,
    /// The number of leaves.
    pub length: u32,
    /// The stored node hashes, by `node_key`.
    pub hashes: HashMap<u64, CryptoHash>,
    /// The leaves' values, by index.
    pub data: Vec<VAccount>,
    /// The leaf index of each account.
    pub accounts: StringHashMap<u32>,
    /// The global state of the tree, e.g. the total of the balances.
    pub global_state: VGlobalState,
    /// The tree and global state as they stood before the first change in
    /// the last block that changed them.
    pub previous_snapshot: Option<(MerkleTreeSnapshot, VGlobalState)>,
    /// The block height of the last change.
    pub last_block_height: BlockHeight,
}

proof fn lemma_node_key_injective(h1: int, i1: int, h2: int, i2: int)
    requires
        in_domain(h1, i1),
        in_domain(h2, i2),
    ensures
        node_key(h1, i1) == node_key(h2, i2) <==> (h1 == h2 && i1 == i2),
{
}

/// Whether the node at height `h` and index `i` is one that an update of leaf
/// `k` rewrites, in a tree of `len` leaves.
pub open spec fn on_update_path(k: int, len: int, h: int, i: int) -> bool {
    ||| (h == 0 && i == k)
    ||| (1 <= h < tree_height(len) && i == path_index(k, h as nat))
}

/// Rehashing the path of leaf `k` after its value changed, or after it was
/// added as the last leaf, leaves every leaf and every node above a leaf
/// holding the right hash.
proof fn lemma_update_keeps_nodes_ok(
    old_nodes: Map<u64, CryptoHash>,
    new_nodes: Map<u64, CryptoHash>,
    len: int,
    new_len: int,
    data: Seq<VAccount>,
    new_data: Seq<VAccount>,
    k: int,
)
    requires
        nodes_ok(old_nodes, len, data),
        0 <= len,
        new_len <= u32::MAX,
        new_len == len || (new_len == len + 1 && k == len),
        0 <= k < new_len,
        new_data.len() == new_len,
        data.len() == len,
        forall|i: int| 0 <= i < new_len && i != k ==> new_data[i] == data[i],
        stored_node(new_nodes, 0, k) == leaf_hash(new_data[k]),
        forall|h: int|
            1 <= h < tree_height(new_len) ==> #[trigger] inner_ok(
                new_nodes,
                h,
                path_index(k, h as nat),
            ),
        forall|h: int, i: int|
            in_domain(h, i) && !on_update_path(k, new_len, h, i) ==> #[trigger] stored_node(
                new_nodes,
                h,
                i,
            ) == stored_node(old_nodes, h, i),
    ensures
        nodes_ok(new_nodes, new_len, new_data),
{
    assert forall|i: int| 0 <= i < new_len implies #[trigger] leaf_ok(new_nodes, new_data, i) by {
        if i != k {
            assert(in_domain(0, i));
            assert(!on_update_path(k, new_len, 0, i));
            assert(leaf_ok(old_nodes, data, i));
        }
    }
    assert forall|h: int, i: int|
        1 <= h < tree_height(new_len) && 0 <= i < level_count(new_len, h as nat) implies
        #[trigger] inner_ok(new_nodes, h, i) by {
        let p = path_index(k, h as nat);
        if i != p {
            let hn = h as nat;
            // The node and its children fit in the stored keys.
            assert(level_count(new_len, hn) == level_count((new_len + 1) / 2, (hn - 1) as nat));
            lemma_level_count_nonneg((new_len + 1) / 2, (hn - 1) as nat);
            lemma_two_pow_32();
            lemma_tree_height_bound(new_len, 32);
            assert(in_domain(h, i));
            assert(in_domain(h - 1, 2 * i));
            assert(in_domain(h - 1, 2 * i + 1));
            // The node was above a leaf before the update.
            if new_len == len + 1 {
                lemma_level_count_grow(len, hn);
                lemma_tree_height_grow(len);
                if h >= tree_height(len) {
                    lemma_top_level(new_len);
                    lemma_path_in_level(k, new_len, hn);
                    lemma_path_index_bounds(k, hn);
                    assert(false);
                }
            }
            assert(i < level_count(len, hn));
            assert(inner_ok(old_nodes, h, i));
            // Neither the node nor its children are on the path.
            lemma_path_index_step(k, hn);
            assert(!on_update_path(k, new_len, h, i));
            reveal_with_fuel(path_index, 1);
            assert(path_index(k, 0) == k);
            assert(!on_update_path(k, new_len, h - 1, 2 * i));
            assert(!on_update_path(k, new_len, h - 1, 2 * i + 1));
        }
    }
}

impl MerkleTree {
    /// The hash stored for a node.
    pub open spec fn node(self, h: int, i: int) -> Seq<u8> {
        stored_node(self.hashes@, h, i)
    }

    /// Some account has leaf `i`.
    pub open spec fn index_taken(self, i: int) -> bool {
        exists|id: Seq<char>| #[trigger] self.accounts@.contains_key(id) && self.accounts@[id] == i
    }

    /// The tree's internal consistency: the accounts have the leaves
    /// `0..length` one to one.
    pub open spec fn wf(self) -> bool {
        &&& self.data@.len() == self.length
        &&& forall|id: Seq<char>| #[trigger]
            self.accounts@.contains_key(id) ==> self.accounts@[id] < self.length
        &&& forall|i: int| 0 <= i < self.length ==> #[trigger] self.index_taken(i)
        &&& forall|id1: Seq<char>, id2: Seq<char>|
            #![trigger self.accounts@[id1], self.accounts@[id2]]
            self.accounts@.contains_key(id1) && self.accounts@.contains_key(id2)
                && self.accounts@[id1] == self.accounts@[id2] ==> id1 == id2
        &&& forall|i: int| 0 <= i < self.length ==> #[trigger] encodable(self.data@[i])
        &&& nodes_ok(self.hashes@, self.length as int, self.data@)
        &&& self.length > 0 ==> self.root@ == self.node(tree_height(self.length as int) - 1, 0)
    }

    /// The value stored for an account.
    pub open spec fn spec_get(self, account_id: Seq<char>) -> Option<VAccount> {
        if self.accounts@.contains_key(account_id) {
            Some(self.data@[self.accounts@[account_id] as int])
        } else {
            None
        }
    }

    /// The snapshot of the tree as it stands.
    pub open spec fn current_snapshot(self) -> MerkleTreeSnapshot {
        MerkleTreeSnapshot {
            root: self.root,
            length: self.length,
            block_height: self.last_block_height,
        }
    }

    /// The snapshot returned at block `block_height`: the tree as it stood
    /// before any change made in that block.
    pub open spec fn spec_snapshot(self, block_height: BlockHeight) -> Option<
        (MerkleTreeSnapshot, VGlobalState),
    > {
        if self.last_block_height != block_height {
            Some((self.current_snapshot(), self.global_state))
        } else {
            self.previous_snapshot
        }
    }

    /// The sibling hashes from leaf `index` up to below the root.
    pub open spec fn spec_proof_path(self, index: int) -> Seq<Seq<u8>> {
        Seq::new(
            (tree_height(self.length as int) - 1) as nat,
            |h: int| self.node(h, sibling(path_index(index, h as nat))),
        )
    }

    /// An empty tree with the given global state, last changed at
    /// `block_height`.
    pub fn new(global_state: VGlobalState, block_height: BlockHeight) -> (res: MerkleTree)
        ensures
            res.wf(),
            res.length == 0,
            forall|id: Seq<char>| #[trigger] res.spec_get(id) is None,
            res.global_state == global_state,
            res.previous_snapshot is None,
            res.last_block_height == block_height,
            res.root@ == zero_hash(),
            res.data@.len() == 0,
    {
        let res = MerkleTree {
            root: [0u8; 32],
            length: 0,
            hashes: HashMap::new(),
            data: Vec::new(),
            accounts: StringHashMap::new(),
            global_state,
            previous_snapshot: None,
            last_block_height: block_height,
        };
        assert(res.root@ =~= zero_hash());
        res
    }

    /// Before a change at block `block_height`: when the block is new, keeps
    /// the tree as it stands as the snapshot.
    fn internal_pre_update(&mut self, block_height: BlockHeight)
        ensures
            final(self).last_block_height == block_height,
            final(self).previous_snapshot == old(self).spec_snapshot(block_height),
            final(self).root == old(self).root,
            final(self).length == old(self).length,
            final(self).hashes@ == old(self).hashes@,
            final(self).data@ == old(self).data@,
            final(self).accounts@ == old(self).accounts@,
            final(self).global_state == old(self).global_state,
    {
        if self.last_block_height != block_height {
            self.previous_snapshot = Some(
                (
                    MerkleTreeSnapshot {
                        root: self.root,
                        length: self.length,
                        block_height: self.last_block_height,
                    },
                    self.global_state.duplicate(),
                ),
            );
            self.last_block_height = block_height;
        }
    }

    /// The hash of leaf `index`'s value, or 32 zero bytes past the leaves.
    fn internal_hash_value(&self, index: u32) -> (res: CryptoHash)
        requires
            self.data@.len() == self.length,
            forall|i: int| 0 <= i < self.length ==> #[trigger] encodable(self.data@[i]),
        ensures
            index < self.length ==> res@ == leaf_hash(self.data@[index as int]),
    {
        if (index as usize) < self.data.len() {
            let bytes = self.data[index as usize].leaf_bytes();
            sha256(bytes.as_slice())
        } else {
            [0u8; 32]
        }
    }

    /// The number of levels of the tree.
    fn tree_height(&self) -> (res: u8)
        ensures
            res == tree_height(self.length as int),
            res <= 33,
    {
        compute_tree_height(self.length)
    }

    /// The hash stored for a node.
    fn internal_get_hash(&self, height: u8, index: u32) -> (res: CryptoHash)
        ensures
            res@ == self.node(height as int, index as int),
    {
        let key = HeightAndIndex { height, index }.key();
        match self.hashes.get(&key) {
            Some(h) => *h,
            None => {
                let z = [0u8; 32];
                assert(z@ =~= zero_hash());
                z
            },
        }
    }

    /// Stores a node's hash.
    fn internal_set_hash(&mut self, height: u8, index: u32, hash: CryptoHash)
        ensures
            final(self).hashes@ == old(self).hashes@.insert(
                node_key(height as int, index as int),
                hash,
            ),
            final(self).root == old(self).root,
            final(self).length == old(self).length,
            final(self).data@ == old(self).data@,
            final(self).accounts@ == old(self).accounts@,
            final(self).global_state == old(self).global_state,
            final(self).previous_snapshot == old(self).previous_snapshot,
            final(self).last_block_height == old(self).last_block_height,
    {
        let key = HeightAndIndex { height, index }.key();
        self.hashes.insert(key, hash);
    }

    /// Rehashes leaf `index` and the nodes on its path to the root, and sets
    /// the root.
    fn internal_post_update(&mut self, index: u32)
        requires
            index < old(self).length,
            old(self).data@.len() == old(self).length,
            forall|i: int| 0 <= i < old(self).length ==> #[trigger] encodable(old(self).data@[i]),
        ensures
            final(self).length == old(self).length,
            final(self).data@ == old(self).data@,
            final(self).accounts@ == old(self).accounts@,
            final(self).global_state == old(self).global_state,
            final(self).previous_snapshot == old(self).previous_snapshot,
            final(self).last_block_height == old(self).last_block_height,
            final(self).node(0, index as int) == leaf_hash(old(self).data@[index as int]),
            forall|h: int|
                1 <= h < tree_height(old(self).length as int) ==> #[trigger] inner_ok(
                    final(self).hashes@,
                    h,
                    path_index(index as int, h as nat),
                ),
            forall|h: int, i: int|
                in_domain(h, i) && !on_update_path(index as int, old(self).length as int, h, i)
                    ==> #[trigger] stored_node(final(self).hashes@, h, i) == stored_node(
                    old(self).hashes@,
                    h,
                    i,
                ),
            final(self).root@ == final(self).node(tree_height(old(self).length as int) - 1, 0),
    {
        let ghost start = self.hashes@;
        let ghost len = self.length as int;
        let hash = self.internal_hash_value(index);
        self.internal_set_hash(0, index, hash);
        let th = self.tree_height();
        proof {
            lemma_top_level(len);
            lemma_path_index_bounds(index as int, 1);
            reveal_with_fuel(path_index, 2);
            assert(path_index(index as int, 1) == index / 2);
        }
        let mut height: u8 = 1;
        let mut height_index: u32 = index / 2;
        while height < th
            invariant
                1 <= height <= th,
                th == tree_height(len),
                th <= 33,
                len == self.length,
                index < len,
                len <= u32::MAX,
                height_index == path_index(index as int, height as nat),
                stored_node(self.hashes@, 0, index as int) == leaf_hash(self.data@[index as int]),
                forall|h: int|
                    1 <= h < height ==> #[trigger] inner_ok(
                        self.hashes@,
                        h,
                        path_index(index as int, h as nat),
                    ),
                forall|h: int, i: int|
                    in_domain(h, i) && !(h == 0 && i == index) && !(1 <= h < height && i
                        == path_index(index as int, h as nat)) ==> #[trigger] stored_node(
                        self.hashes@,
                        h,
                        i,
                    ) == stored_node(start, h, i),
                self.length == old(self).length,
                self.data@ == old(self).data@,
                self.accounts@ == old(self).accounts@,
                self.global_state == old(self).global_state,
                self.previous_snapshot == old(self).previous_snapshot,
                self.last_block_height == old(self).last_block_height,
            decreases th - height,
        {
            proof {
                lemma_path_index_bounds(index as int, height as nat);
                lemma_path_index_step(index as int, (height + 1) as nat);
            }
            let left_hash = self.internal_get_hash(height - 1, height_index * 2);
            let right_hash = self.internal_get_hash(height - 1, height_index * 2 + 1);
            let concat = concat_hashes(&left_hash, &right_hash);
            let hash = sha256(concat.as_slice());
            let ghost before = self.hashes@;
            self.internal_set_hash(height, height_index, hash);
            proof {
                let hh = height as int;
                let p = height_index as int;
                assert(in_domain(hh, p));
                assert(stored_node(self.hashes@, hh, p) == hash@);
                assert forall|h: int, i: int| in_domain(h, i) && !(h == hh && i == p) implies
                    #[trigger] stored_node(self.hashes@, h, i) == stored_node(before, h, i) by {
                    lemma_node_key_injective(h, i, hh, p);
                }
                assert(in_domain(hh - 1, 2 * p));
                assert(in_domain(hh - 1, 2 * p + 1));
                assert(stored_node(self.hashes@, hh - 1, 2 * p) == left_hash@);
                assert(stored_node(self.hashes@, hh - 1, 2 * p + 1) == right_hash@);
                assert(inner_ok(self.hashes@, hh, p));
                assert forall|h: int| 1 <= h < hh + 1 implies #[trigger] inner_ok(
                    self.hashes@,
                    h,
                    path_index(index as int, h as nat),
                ) by {
                    if h < hh {
                        let q = path_index(index as int, h as nat);
                        lemma_path_index_bounds(index as int, h as nat);
                        assert(inner_ok(before, h, q));
                        assert(in_domain(h, q));
                        assert(in_domain(h - 1, 2 * q));
                        assert(in_domain(h - 1, 2 * q + 1));
                    }
                }
            }
            height = height + 1;
            height_index = height_index / 2;
        }
        self.root = self.internal_get_hash(th - 1, 0);
        proof {
            assert forall|h: int, i: int|
                in_domain(h, i) && !on_update_path(index as int, len, h, i) implies
                #[trigger] stored_node(self.hashes@, h, i) == stored_node(old(self).hashes@, h, i) by {
                lemma_node_key_injective(h, i, 0, index as int);
            }
        }
    }
    /// Sets the value for an account, adding a leaf when the account is new,
    /// and returns the old value. Changes at a new block height first keep the
    /// tree as it stood as the snapshot.
    pub fn set(&mut self, account_id: String, new_value: VAccount, block_height: BlockHeight) -> (res: Option<VAccount>)
        requires
            old(self).wf(),
            encodable(new_value),
            old(self).accounts@.contains_key(account_id@) || old(self).length < u32::MAX,
        ensures
            final(self).wf(),
            res == old(self).spec_get(account_id@),
            final(self).spec_get(account_id@) == Some(new_value),
            forall|id: Seq<char>| id != account_id@ ==> #[trigger] final(self).spec_get(id) == old(self).spec_get(id),
            final(self).length == if old(self).accounts@.contains_key(account_id@) { old(self).length as int } else { old(self).length + 1 },
            final(self).global_state == old(self).global_state,
            final(self).last_block_height == block_height,
            final(self).spec_snapshot(block_height) == old(self).spec_snapshot(block_height),
            old(self).accounts@.contains_key(account_id@) ==> final(self).data@ == old(self).data@.update(
                old(self).accounts@[account_id@] as int,
                new_value,
            ),
            !old(self).accounts@.contains_key(account_id@) ==> final(self).data@ == old(self).data@.push(new_value),
            old(self).accounts@.contains_key(account_id@) ==> final(self).accounts@ == old(self).accounts@,
            !old(self).accounts@.contains_key(account_id@) ==> final(self).accounts@ == old(self).accounts@.insert(
                account_id@,
                old(self).length,
            ),
    {
        let ghost old_nodes = self.hashes@;
        let ghost old_data = self.data@;
        let ghost id = account_id@;
        let ghost len = self.length as int;
        self.internal_pre_update(block_height);
        let index: u32 = match self.accounts.get(account_id.as_str()) {
            Some(i) => *i,
            None => {
                let i = self.length;
                self.length = self.length + 1;
                self.accounts.insert(account_id, i);
                i
            },
        };
        let old_value = if (index as usize) < self.data.len() {
            let previous = self.data[index as usize].duplicate();
            self.data.set(index as usize, new_value);
            Some(previous)
        } else {
            self.data.push(new_value);
            None
        };
        assert(self.data@.len() == self.length);
        assert forall|i: int| 0 <= i < self.length implies #[trigger] encodable(self.data@[i]) by {
            if i != index {
                assert(self.data@[i] == old_data[i]);
            }
        }
        let ghost mid_nodes = self.hashes@;
        self.internal_post_update(index);
        proof {
            lemma_update_keeps_nodes_ok(
                old_nodes,
                self.hashes@,
                len,
                self.length as int,
                old_data,
                self.data@,
                index as int,
            );
            assert forall|a: Seq<char>| #[trigger] self.accounts@.contains_key(a) implies self.accounts@[a] < self.length by {
                if a != id {
                    assert(old(self).accounts@.contains_key(a));
                }
            }
            assert forall|a: Seq<char>, b: Seq<char>|
                self.accounts@.contains_key(a) && self.accounts@.contains_key(b)
                    && #[trigger] self.accounts@[a] == #[trigger] self.accounts@[b] implies a == b by {
                if a != id && b != id {
                    assert(old(self).accounts@.contains_key(a) && old(self).accounts@.contains_key(b));
                } else if a != id {
                    assert(old(self).accounts@.contains_key(a));
                } else if b != id {
                    assert(old(self).accounts@.contains_key(b));
                }
            }
            assert forall|i: int| 0 <= i < self.length implies #[trigger] self.index_taken(i) by {
                if i < len {
                    assert(old(self).index_taken(i));
                    let w = choose|w: Seq<char>| #[trigger] old(self).accounts@.contains_key(w) && old(self).accounts@[w] == i;
                    assert(self.accounts@.contains_key(w) && self.accounts@[w] == i);
                } else {
                    assert(self.accounts@.contains_key(id) && self.accounts@[id] == i);
                }
            }
            assert forall|a: Seq<char>| a != id implies #[trigger] self.spec_get(a) == old(self).spec_get(a) by {
                if old(self).accounts@.contains_key(a) {
                    assert(old(self).accounts@[a] != index) by {
                        if old(self).accounts@.contains_key(id) {
                            assert(old(self).accounts@[id] == index);
                        }
                    }
                }
            }
        }
        old_value
    }

    /// The value stored for an account.
    pub fn get(&self, account_id: &str) -> (res: Option<&VAccount>)
        requires
            self.wf(),
        ensures
            res is Some <==> self.spec_get(account_id@) is Some,
            res matches Some(v) ==> self.spec_get(account_id@) == Some(*v),
    {
        match self.accounts.get(account_id) {
            Some(i) => Some(&self.data[*i as usize]),
            None => None,
        }
    }

    /// The proof for an account's leaf: its index and the hashes of the
    /// siblings on its path to the root.
    pub fn get_proof(&self, account_id: &str) -> (res: Option<MerkleProof>)
        requires
            self.wf(),
        ensures
            res is Some <==> self.accounts@.contains_key(account_id@),
            res matches Some(p) ==> p.index == self.accounts@[account_id@] && path_view(p.path@)
                == self.spec_proof_path(p.index as int),
    {
        let index = match self.accounts.get(account_id) {
            Some(i) => *i,
            None => return None,
        };
        let th = self.tree_height();
        proof {
            lemma_top_level(self.length as int);
        }
        let mut path: Vec<CryptoHash> = Vec::new();
        let mut height: u8 = 0;
        let mut height_index: u32 = index;
        while height < th - 1
            invariant
                th == tree_height(self.length as int),
                th >= 1,
                th <= 33,
                index < self.length,
                height <= th - 1,
                height_index == path_index(index as int, height as nat),
                path@.len() == height,
                forall|h: int| 0 <= h < height ==> #[trigger] path@[h]@ == self.node(h, sibling(path_index(index as int, h as nat))),
            decreases th - 1 - height,
        {
            proof {
                lemma_path_index_bounds(index as int, height as nat);
                lemma_path_index_step(index as int, (height + 1) as nat);
            }
            let sibling_index = if height_index % 2 == 0 {
                height_index + 1
            } else {
                height_index - 1
            };
            let sibling_hash = self.internal_get_hash(height, sibling_index);
            path.push(sibling_hash);
            height = height + 1;
            height_index = height_index / 2;
        }
        let proof = MerkleProof { index, path };
        assert(path_view(proof.path@) =~= self.spec_proof_path(index as int));
        Some(proof)
    }

    /// The snapshot at block `block_height`: the tree and global state as
    /// they stood before any change made in that block.
    pub fn get_snapshot(&self, block_height: BlockHeight) -> (res: Option<(MerkleTreeSnapshot, VGlobalState)>)
        ensures
            res == self.spec_snapshot(block_height),
    {
        if self.last_block_height != block_height {
            Some(
                (
                    MerkleTreeSnapshot {
                        root: self.root,
                        length: self.length,
                        block_height: self.last_block_height,
                    },
                    self.global_state.duplicate(),
                ),
            )
        } else {
            match &self.previous_snapshot {
                Some((snapshot, state)) => Some((*snapshot, state.duplicate())),
                None => None,
            }
        }
    }

    /// The global state.
    pub fn get_global_state(&self) -> (res: &VGlobalState)
        ensures
            *res == self.global_state,
    {
        &self.global_state
    }

    /// Replaces the global state. Changes at a new block height first keep the
    /// tree as it stood as the snapshot.
    pub fn set_global_state(&mut self, global_state: VGlobalState, block_height: BlockHeight)
        requires
            old(self).wf(),
        ensures
            final(self).wf(),
            final(self).global_state == global_state,
            forall|id: Seq<char>| #[trigger] final(self).spec_get(id) == old(self).spec_get(id),
            final(self).data@ == old(self).data@,
            final(self).accounts@ == old(self).accounts@,
            final(self).length == old(self).length,
            final(self).root == old(self).root,
            final(self).last_block_height == block_height,
            final(self).spec_snapshot(block_height) == old(self).spec_snapshot(block_height),
    {
        self.internal_pre_update(block_height);
        self.global_state = global_state;
        assert forall|i: int| 0 <= i < self.length implies #[trigger] self.index_taken(i) by {
            assert(old(self).index_taken(i));
        }
    }
}

/// A proof built for an account verifies its value against the tree's root
/// and size.
pub proof fn lemma_get_proof_verifies(tree: MerkleTree, account_id: Seq<char>)
    requires
        tree.wf(),
        tree.accounts@.contains_key(account_id),
    ensures
        proof_valid(
            tree.accounts@[account_id] as int,
            tree.spec_proof_path(tree.accounts@[account_id] as int),
            tree.root@,
            tree.length as int,
            tree.data@[tree.accounts@[account_id] as int],
        ),
{
    let idx = tree.accounts@[account_id] as int;
    let len = tree.length as int;
    let th = tree_height(len);
    lemma_top_level(len);
    let path = tree.spec_proof_path(idx);
    lemma_path_hash_is_node(tree, idx, (th - 1) as nat);
    lemma_path_reaches_root(idx, len);
}

/// Combining a leaf's hash with its first `k` siblings gives the hash of the
/// node `k` levels above it.
proof fn lemma_path_hash_is_node(tree: MerkleTree, idx: int, k: nat)
    requires
        tree.wf(),
        0 <= idx < tree.length,
        k < tree_height(tree.length as int),
    ensures
        path_hash(
            leaf_hash(tree.data@[idx]),
            idx,
            tree.spec_proof_path(idx),
            k,
        ) == tree.node(k as int, path_index(idx, k)),
    decreases k,
{
    let len = tree.length as int;
    let path = tree.spec_proof_path(idx);
    if k == 0 {
        assert(leaf_ok(tree.hashes@, tree.data@, idx));
    } else {
        let j = (k - 1) as nat;
        lemma_path_hash_is_node(tree, idx, j);
        lemma_path_index_step(idx, k);
        lemma_path_in_level(idx, len, k);
        let q = path_index(idx, k);
        let p = path_index(idx, j);
        lemma_path_index_bounds(idx, k);
        assert(inner_ok(tree.hashes@, k as int, q));
        lemma_top_level(len);
        assert(path[j as int] == tree.node(j as int, sibling(p)));
    }
}

} // verus!
