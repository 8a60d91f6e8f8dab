//! The Merkle tree of account records.
//!
//! Leaves are at height zero; a new leaf goes at the end. Each node above the
//! leaves is the SHA-256 hash of its two children's hashes concatenated, a
//! missing node counting as 32 zero bytes, and the tree grows a level when the
//! leaves outgrow the top node. A leaf's hash is the SHA-256 hash of the
//! Borsh encoding of the versioned account. Beside the tree sits a global
//! state; the tree and global state as they stood before the first change in
//! the current block are kept as a snapshot.
use vstd::prelude::*;
use std::collections::HashMap;
use vstd::hash_map::StringHashMap;
use crate::account::VAccount;
use crate::crypto::{sha256, sha256_digest, CryptoHash};
use crate::encoding::{borsh_vaccount, encodable};
use crate::global_state::VGlobalState;
use crate::merkle_shape::{
    level_count, lemma_level_count_grow, lemma_level_count_nonneg, lemma_level_count_step,
    lemma_path_in_level, lemma_path_index_bounds, lemma_path_index_step, lemma_path_reaches_root,
    lemma_top_level, lemma_tree_height_bound, lemma_tree_height_grow, path_index, sibling,
    tree_height,
};
use crate::wide::two_pow;

verus! {

broadcast use vstd::std_specs::hash::group_hash_axioms;

/// A block height.
pub type BlockHeight = u64;

/// The position of a node: its height above the leaves and its index.
#[derive(Clone, Copy, Debug, PartialEq, Eq, Structural, PartialOrd, Ord, Hash)]
pub struct HeightAndIndex {
    pub height: u8,
    pub index: u32,
}

/// The key under which the node at height `h` and index `i` is stored.
pub open spec fn node_key(h: int, i: int) -> u64 {
    (h * 0x1_0000_0000 + i) as u64
}

/// A height and index that a node can have.
pub open spec fn in_domain(h: int, i: int) -> bool {
    0 <= h < 256 && 0 <= i < 0x1_0000_0000
}

impl HeightAndIndex {
    /// The key under which this node is stored.
    pub fn key(&self) -> (res: u64)
        ensures
            res == node_key(self.height as int, self.index as int),
    {
        (self.height as u64) * 0x1_0000_0000u64 + (self.index as u64)
    }
}

/// The hash of a missing node: 32 zero bytes.
pub open spec fn zero_hash() -> Seq<u8> {
    Seq::new(32, |_i: int| 0u8)
}

/// The hash stored for a node, or 32 zero bytes when none is.
pub open spec fn stored_node(nodes: Map<u64, CryptoHash>, h: int, i: int) -> Seq<u8> {
    if nodes.contains_key(node_key(h, i)) {
        nodes[node_key(h, i)]@
    } else {
        zero_hash()
    }
}

/// The hash of a node from its children's hashes.
pub open spec fn combine(left: Seq<u8>, right: Seq<u8>) -> Seq<u8> {
    sha256_digest(left + right)
}

/// The hash of a leaf holding `v`.
pub open spec fn leaf_hash(v: VAccount) -> Seq<u8> {
    sha256_digest(borsh_vaccount(v))
}

/// Leaf `i` holds the hash of the `i`-th value.
pub open spec fn leaf_ok(nodes: Map<u64, CryptoHash>, data: Seq<VAccount>, i: int) -> bool {
    stored_node(nodes, 0, i) == leaf_hash(data[i])
}

/// The node at height `h` and index `i` holds the hash of its children.
pub open spec fn inner_ok(nodes: Map<u64, CryptoHash>, h: int, i: int) -> bool {
    stored_node(nodes, h, i) == combine(stored_node(nodes, h - 1, 2 * i), stored_node(nodes, h - 1, 2 * i + 1))
}

/// Every leaf holds its value's hash and every node above a leaf holds its
/// children's hash.
pub open spec fn nodes_ok(nodes: Map<u64, CryptoHash>, len: int, data: Seq<VAccount>) -> bool {
    &&& forall|i: int| 0 <= i < len ==> #[trigger] leaf_ok(nodes, data, i)
    &&& forall|h: int, i: int|
        1 <= h < tree_height(len) && 0 <= i < level_count(len, h as nat) ==> #[trigger] inner_ok(
            nodes,
            h,
            i,
        )
}

/// The hash reached from a leaf hash by combining it with the first `k`
/// siblings of a path, the running hash on the left when the node's index at
/// that height is even.
pub open spec fn path_hash(leaf: Seq<u8>, index: int, path: Seq<Seq<u8>>, k: nat) -> Seq<u8>
    decreases k,
{
    if k == 0 {
        leaf
    } else {
        let prev = path_hash(leaf, index, path, (k - 1) as nat);
        if path_index(index, (k - 1) as nat) % 2 == 0 {
            combine(prev, path[k - 1])
        } else {
            combine(path[k - 1], prev)
        }
    }
}

/// A proof for leaf `index` with siblings `path` shows `value` in the tree
/// of `length` leaves with root `root`.
pub open spec fn proof_valid(
    index: int,
    path: Seq<Seq<u8>>,
    root: Seq<u8>,
    length: int,
    value: VAccount,
) -> bool {
    &&& index < length
    &&& path.len() + 1 == tree_height(length)
    &&& path_hash(leaf_hash(value), index, path, path.len()) == root
}

/// The root, size and block height of the tree at one moment.
#[derive(Clone, Copy, Debug)]
pub struct MerkleTreeSnapshot {
    pub root: CryptoHash,
    pub length: u32,
    pub block_height: BlockHeight,
}

/// A proof that a leaf holds a value: its index and its siblings' hashes from
/// the leaves up.
#[derive(Clone, Debug)]
pub struct MerkleProof {
    pub index: u32,
    pub path: Vec<CryptoHash>,
}

/// The hashes of a path.
pub open spec fn path_view(path: Seq<CryptoHash>) -> Seq<Seq<u8>> {
    path.map_values(|h: CryptoHash| h@)
}

impl MerkleProof {
    /// The proof shows `value` in the tree of `length` leaves with root `root`.
    pub open spec fn spec_verify(self, root: Seq<u8>, length: int, value: VAccount) -> bool {
        proof_valid(self.index as int, path_view(self.path@), root, length, value)
    }

    /// Checks that the proof shows `value` in the tree of `length` leaves with
    /// root `root`.
    pub fn verify(&self, root: CryptoHash, length: u32, value: &VAccount) -> (res: bool)
        requires
            encodable(*value),
        ensures
            res == self.spec_verify(root@, length as int, *value),
    {
        if self.index >= length {
            return false;
        }
        let tree_height = compute_tree_height(length);
        proof {
            lemma_top_level(length as int);
        }
        if self.path.len() != (tree_height - 1) as usize {
            return false;
        }
        let data = value.leaf_bytes();
        let mut hash = sha256(data.as_slice());
        let mut height: usize = 0;
        let mut height_index: u32 = self.index;
        let ghost path = path_view(self.path@);
        while height < self.path.len()
            invariant
                height <= self.path@.len(),
                path == path_view(self.path@),
                path.len() == self.path@.len(),
                height_index == path_index(self.index as int, height as nat),
                hash@ == path_hash(leaf_hash(*value), self.index as int, path, height as nat),
            decreases self.path@.len() - height,
        {
            let sibling_hash = self.path[height];
            let concat = if height_index % 2 == 0 {
                concat_hashes(&hash, &sibling_hash)
            } else {
                concat_hashes(&sibling_hash, &hash)
            };
            hash = sha256(concat.as_slice());
            proof {
                lemma_path_index_step(self.index as int, (height + 1) as nat);
                assert(path[height as int] == sibling_hash@);
            }
            height_index = height_index / 2;
            height = height + 1;
        }
        proof {
            assert(self.path@.len() == path.len());
        }
        let mut equal = true;
        let mut j: usize = 0;
        assert(hash@.subrange(0, 0) =~= root@.subrange(0, 0));
        while j < 32
            invariant
                j <= 32,
                equal <==> hash@.subrange(0, j as int) == root@.subrange(0, j as int),
            decreases 32 - j,
        {
            if hash[j] != root[j] {
                equal = false;
            }
            proof {
                if equal {
                    assert(hash@.subrange(0, j + 1) =~= root@.subrange(0, j + 1));
                } else if hash[j as int] == root[j as int] {
                    assert(hash@.subrange(0, j as int) != root@.subrange(0, j as int));
                    if hash@.subrange(0, j + 1) == root@.subrange(0, j + 1) {
                        assert(hash@.subrange(0, j + 1).subrange(0, j as int) =~= hash@.subrange(0, j as int));
                        assert(root@.subrange(0, j + 1).subrange(0, j as int) =~= root@.subrange(0, j as int));
                    }
                } else {
                    assert(hash@.subrange(0, j + 1)[j as int] != root@.subrange(0, j + 1)[j as int]);
                }
            }
            j = j + 1;
        }
        assert(hash@.subrange(0, 32) =~= hash@);
        assert(root@.subrange(0, 32) =~= root@);
        equal
    }
}

/// The two hashes one after the other.
pub(crate) fn concat_hashes(left: &CryptoHash, right: &CryptoHash) -> (res: Vec<u8>)
    ensures
        res@ == left@ + right@,
{
    let mut out: Vec<u8> = Vec::new();
    let mut j: usize = 0;
    while j < 32
        invariant
            j <= 32,
            out@ == left@.subrange(0, j as int),
        decreases 32 - j,
    {
        out.push(left[j]);
        j = j + 1;
        assert(out@ =~= left@.subrange(0, j as int));
    }
    let mut j: usize = 0;
    while j < 32
        invariant
            j <= 32,
            out@ == left@ + right@.subrange(0, j as int),
        decreases 32 - j,
    {
        out.push(right[j]);
        j = j + 1;
        assert(out@ =~= left@ + right@.subrange(0, j as int));
    }
    assert(right@.subrange(0, 32) =~= right@);
    assert(left@.subrange(0, 32) =~= left@);
    out
}

/// The number of levels of a tree of `length` leaves.
pub(crate) fn compute_tree_height(length: u32) -> (res: u8)
    ensures
        res == tree_height(length as int),
        res <= 33,
{
    if length == 0 {
        return 0;
    }
    proof {
        lemma_two_pow_32();
        lemma_tree_height_bound(length as int, 32);
    }
    let mut n: u32 = length;
    let mut h: u8 = 1;
    while n > 1
        invariant
            1 <= n <= length,
            1 <= h,
            tree_height(length as int) == tree_height(n as int) + h - 1,
            tree_height(length as int) <= 33,
        decreases n,
    {
        proof {
            assert(tree_height(n as int) == tree_height((n + 1) / 2) + 1);
            assert(tree_height((n + 1) / 2) >= 1);
        }
        n = n - (n / 2);
        h = h + 1;
    }
    h
}

pub(crate) proof fn lemma_two_pow_32()
    ensures
        two_pow(32) == 0x1_0000_0000,
{
    reveal_with_fuel(two_pow, 33);
}

} // verus!
