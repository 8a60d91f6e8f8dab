//! NEAR account IDs: which strings are valid, and the account ID of an
//! owner's lockup contract.
use vstd::prelude::*;
use vstd::utf8::encode_utf8;
use vstd::slice::slice_subrange;
use crate::crypto::{hex_encode, hex_lower, sha256, sha256_digest};

verus! {

/// `-`, `_` or `.`.
pub open spec fn is_separator(b: u8) -> bool {
    b == 45 || b == 95 || b == 46
}

/// A lowercase letter, a digit or a separator.
pub open spec fn is_account_byte(b: u8) -> bool {
    (97 <= b <= 122) || (48 <= b <= 57) || is_separator(b)
}

/// Two separators in a row at `i`.
pub open spec fn separator_pair(b: Seq<u8>, i: int) -> bool {
    is_separator(b[i]) && is_separator(b[i + 1])
}

/// The rules of NEAR account IDs, over the ID's bytes: 2 to 64 bytes, each a
/// lowercase letter, a digit or a separator, with no separator first, last,
/// or next to another.
pub open spec fn valid_account_bytes(b: Seq<u8>) -> bool {
    &&& 2 <= b.len() <= 64
    &&& forall|i: int| 0 <= i < b.len() ==> #[trigger] is_account_byte(b[i])
    &&& !is_separator(b[0])
    &&& !is_separator(b[b.len() - 1])
    &&& forall|i: int| 0 <= i < b.len() - 1 ==> !#[trigger] separator_pair(b, i)
}

/// A valid NEAR account ID.
pub open spec fn valid_account_id(id: Seq<char>) -> bool {
    valid_account_bytes(encode_utf8(id))
}

/// Whether `account_id` is a valid NEAR account ID.
pub fn is_valid_account_id(account_id: &str) -> (res: bool)
    ensures
        res == valid_account_id(account_id@),
{
    let bytes = account_id.as_bytes();
    let n = bytes.len();
    if n < 2 || n > 64 {
        return false;
    }
    let mut prev_sep = true;
    let mut i: usize = 0;
    while i < n
        invariant
            n == bytes@.len(),
            bytes@ == encode_utf8(account_id@),
            2 <= n <= 64,
            i <= n,
            forall|j: int| 0 <= j < i ==> #[trigger] is_account_byte(bytes@[j]),
            i > 0 ==> !is_separator(bytes@[0]),
            forall|j: int| 0 <= j < i - 1 ==> !#[trigger] separator_pair(bytes@, j),
            prev_sep == (i == 0 || is_separator(bytes@[i - 1])),
        decreases n - i,
    {
        let c = bytes[i];
        let sep = c == 45 || c == 95 || c == 46;
        if !((97 <= c && c <= 122) || (48 <= c && c <= 57) || sep) {
            assert(!is_account_byte(bytes@[i as int]));
            return false;
        }
        if sep && prev_sep {
            if i > 0 {
                assert(separator_pair(bytes@, i - 1));
            }
            return false;
        }
        proof {
            if i > 0 {
                assert(!separator_pair(bytes@, i - 1));
            }
        }
        prev_sep = sep;
        i = i + 1;
    }
    !prev_sep
}

/// The account ID that `owner`'s lockup contract gets under `current`: the
/// first 20 bytes of the SHA-256 of the owner's ID in hex, a dot, and
/// `current`.
pub open spec fn lockup_account_id(owner: Seq<char>, current: Seq<char>) -> Seq<char> {
    hex_lower(sha256_digest(encode_utf8(owner)).subrange(0, 20)) + seq!['.'] + current
}

/// The account ID of the owner's lockup contract, or `None` when that
/// string is not a valid account ID (when `current_account_id` is too long).
pub fn internal_map_owner_account_id(owner_account_id: &str, current_account_id: &str) -> (res:
    Option<String>)
    ensures
        res is Some <==> valid_account_id(lockup_account_id(owner_account_id@, current_account_id@)),
        res matches Some(id) ==> id@ == lockup_account_id(owner_account_id@, current_account_id@),
{
    let hash = sha256(owner_account_id.as_bytes());
    let prefix = slice_subrange(hash.as_slice(), 0, 20);
    let mut id = hex_encode(prefix);
    id.append(".");
    id.append(current_account_id);
    proof {
        reveal_strlit(".");
        assert(id@ =~= lockup_account_id(owner_account_id@, current_account_id@));
    }
    if is_valid_account_id(id.as_str()) {
        Some(id)
    } else {
        None
    }
}

} // verus!
