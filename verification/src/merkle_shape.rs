//! The shape of the Merkle tree: how many levels a tree of `len` leaves
//! has, how many nodes each level holds, and which node of each level lies
//! on the path from a leaf to the root.
use vstd::prelude::*;
use crate::wide::two_pow;

verus! {

/// The number of levels of a tree of `len` leaves: none for no leaves, and
/// otherwise one more than the levels above the leaves, each of which halves
/// the level below, rounding up.
pub open spec fn tree_height(len: int) -> nat
    decreases len,
{
    if len <= 0 {
        0
    } else if len == 1 {
        1
    } else {
        tree_height((len + 1) / 2) + 1
    }
}

/// The number of nodes at height `h` that lie above at least one of `len`
/// leaves: `len` halved `h` times, rounding up.
pub open spec fn level_count(len: int, h: nat) -> int
    decreases h,
{
    if h == 0 {
        len
    } else {
        level_count((len + 1) / 2, (h - 1) as nat)
    }
}

/// The index at height `h` of the node above leaf `k`: `k` halved `h` times.
pub open spec fn path_index(k: int, h: nat) -> int
    decreases h,
{
    if h == 0 {
        k
    } else {
        path_index(k / 2, (h - 1) as nat)
    }
}

/// Going up one level halves the path index.
pub proof fn lemma_path_index_step(k: int, h: nat)
    requires
        h >= 1,
        k >= 0,
    ensures
        path_index(k, h) == path_index(k, (h - 1) as nat) / 2,
    decreases h,
{
    reveal_with_fuel(path_index, 2);
    if h > 1 {
        lemma_path_index_step(k / 2, (h - 1) as nat);
        assert(path_index(k, (h - 1) as nat) == path_index(k / 2, (h - 2) as nat));
    }
}

/// Going up one level halves the node count, rounding up.
pub proof fn lemma_level_count_step(len: int, h: nat)
    requires
        h >= 1,
        len >= 0,
    ensures
        level_count(len, h) == (level_count(len, (h - 1) as nat) + 1) / 2,
    decreases h,
{
    reveal_with_fuel(level_count, 2);
    if h > 1 {
        lemma_level_count_step((len + 1) / 2, (h - 1) as nat);
        assert(level_count(len, (h - 1) as nat) == level_count((len + 1) / 2, (h - 2) as nat));
    }
}

pub proof fn lemma_level_count_nonneg(len: int, h: nat)
    requires
        len >= 0,
    ensures
        level_count(len, h) >= 0,
        len >= 1 ==> level_count(len, h) >= 1,
        level_count(len, h) <= len,
    decreases h,
{
    if h > 0 {
        lemma_level_count_nonneg((len + 1) / 2, (h - 1) as nat);
    }
}

pub proof fn lemma_path_index_bounds(k: int, h: nat)
    requires
        k >= 0,
    ensures
        0 <= path_index(k, h) <= k,
        h >= 1 ==> path_index(k, h) <= k / 2,
    decreases h,
{
    if h > 0 {
        lemma_path_index_bounds(k / 2, (h - 1) as nat);
    }
}

/// The path of a leaf stays among the nodes of each level.
pub proof fn lemma_path_in_level(k: int, len: int, h: nat)
    requires
        0 <= k < len,
    ensures
        path_index(k, h) < level_count(len, h),
    decreases h,
{
    if h > 0 {
        lemma_path_in_level(k / 2, (len + 1) / 2, (h - 1) as nat);
    }
}

/// One more leaf adds at most one node to a level, and that node is on the
/// new leaf's path.
pub proof fn lemma_level_count_grow(len: int, h: nat)
    requires
        len >= 0,
    ensures
        level_count(len, h) <= level_count(len + 1, h) <= level_count(len, h) + 1,
        level_count(len + 1, h) == level_count(len, h) + 1 ==> path_index(len, h) == level_count(
            len,
            h,
        ),
    decreases h,
{
    if h > 0 {
        lemma_level_count_grow((len + 1) / 2, (h - 1) as nat);
        if (len + 2) / 2 != (len + 1) / 2 {
            assert((len + 2) / 2 == (len + 1) / 2 + 1);
            assert(len / 2 == (len + 1) / 2);
            lemma_level_count_grow((len + 1) / 2, (h - 1) as nat);
        } else {
            assert(level_count(len + 1, h) == level_count(len, h));
        }
    }
}

/// A tree of at least one leaf narrows to a single node at its top level.
pub proof fn lemma_top_level(len: int)
    requires
        len >= 1,
    ensures
        tree_height(len) >= 1,
        level_count(len, (tree_height(len) - 1) as nat) == 1,
    decreases len,
{
    if len > 1 {
        lemma_top_level((len + 1) / 2);
    }
}

/// One more leaf adds at most one level.
pub proof fn lemma_tree_height_grow(len: int)
    requires
        len >= 0,
    ensures
        tree_height(len) <= tree_height(len + 1) <= tree_height(len) + 1,
    decreases len,
{
    if len >= 2 {
        lemma_tree_height_grow((len + 1) / 2);
        if (len + 2) / 2 != (len + 1) / 2 {
            assert((len + 2) / 2 == (len + 1) / 2 + 1);
        }
    }
}

/// A tree of at most `2^k` leaves has at most `k + 1` levels.
pub proof fn lemma_tree_height_bound(len: int, k: nat)
    requires
        0 <= len <= two_pow(k),
    ensures
        tree_height(len) <= k + 1,
    decreases k,
{
    if len >= 2 && k > 0 {
        assert(two_pow(k) == 2 * two_pow((k - 1) as nat));
        lemma_tree_height_bound((len + 1) / 2, (k - 1) as nat);
    } else if len >= 2 {
        assert(two_pow(0) == 1);
    }
}

/// Halving a leaf index once per level above the leaves reaches the root.
pub proof fn lemma_path_reaches_root(k: int, len: int)
    requires
        0 <= k < len,
    ensures
        path_index(k, (tree_height(len) - 1) as nat) == 0,
{
    lemma_top_level(len);
    lemma_path_in_level(k, len, (tree_height(len) - 1) as nat);
    lemma_path_index_bounds(k, (tree_height(len) - 1) as nat);
}

/// The sibling of a node: the other child of its parent.
pub open spec fn sibling(i: int) -> int {
    if i % 2 == 0 {
        i + 1
    } else {
        i - 1
    }
}

} // verus!
