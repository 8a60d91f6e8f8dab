//! The bytes that stand for an account in the Merkle tree: its Borsh
//! encoding, which a leaf's hash is taken over.
use vstd::prelude::*;
use vstd::utf8::encode_utf8;
use crate::account::{Account, VAccount};
use crate::venear::VenearBalance;

verus! {

/// `x` as `n` little-endian bytes.
pub open spec fn le_bytes(x: nat, n: nat) -> Seq<u8>
    decreases n,
{
    if n == 0 {
        Seq::empty()
    } else {
        seq![(x % 256) as u8] + le_bytes(x / 256, (n - 1) as nat)
    }
}

/// A string: its UTF-8 length as four little-endian bytes, then its bytes.
pub open spec fn borsh_string(s: Seq<char>) -> Seq<u8> {
    le_bytes(encode_utf8(s).len(), 4) + encode_utf8(s)
}

/// A balance: its NEAR then its extra veNEAR, 16 little-endian bytes each.
pub open spec fn borsh_balance(b: VenearBalance) -> Seq<u8> {
    le_bytes(b.near_balance.0 as nat, 16) + le_bytes(b.extra_venear_balance.0 as nat, 16)
}

/// An account, field by field.
pub open spec fn borsh_account(a: Account) -> Seq<u8> {
    borsh_string(a.account_id@) + le_bytes(a.update_timestamp as nat, 8) + borsh_balance(
        a.balance,
    ) + borsh_balance(a.delegated_balance) + match a.delegation {
        None => seq![0u8],
        Some(d) => seq![1u8] + borsh_string(d.account_id@),
    }
}

/// A versioned account: the variant's index, then the account.
pub open spec fn borsh_vaccount(v: VAccount) -> Seq<u8> {
    seq![0u8] + borsh_account(v.account())
}

/// The strings of an account are short enough for their lengths to be
/// written in four bytes.
pub open spec fn encodable(v: VAccount) -> bool {
    &&& encode_utf8(v.account().account_id@).len() <= u32::MAX
    &&& v.account().delegation matches Some(d) ==> encode_utf8(d.account_id@).len() <= u32::MAX
}

proof fn lemma_le_bytes_len(x: nat, n: nat)
    ensures
        le_bytes(x, n).len() == n,
    decreases n,
{
    if n > 0 {
        lemma_le_bytes_len(x / 256, (n - 1) as nat);
    }
}

/// Appends `x` as `n` little-endian bytes.
pub fn push_le(buf: &mut Vec<u8>, x: u128, n: usize)
    ensures
        final(buf)@ == old(buf)@ + le_bytes(x as nat, n as nat),
{
    let ghost start = buf@;
    let mut y = x;
    let mut i: usize = 0;
    while i < n
        invariant
            i <= n,
            buf@ + le_bytes(y as nat, (n - i) as nat) == start + le_bytes(x as nat, n as nat),
        decreases n - i,
    {
        let ghost before = buf@;
        proof {
            assert(le_bytes(y as nat, (n - i) as nat) == seq![(y % 256) as u8] + le_bytes(
                (y / 256) as nat,
                (n - i - 1) as nat,
            ));
            assert(before + le_bytes(y as nat, (n - i) as nat) =~= before.push((y % 256) as u8)
                + le_bytes((y / 256) as nat, (n - i - 1) as nat));
        }
        buf.push((y % 256) as u8);
        y = y / 256;
        i = i + 1;
    }
    assert(le_bytes(y as nat, 0) =~= Seq::<u8>::empty());
    assert(buf@ + Seq::<u8>::empty() =~= buf@);
}

/// Appends a string's Borsh encoding; its UTF-8 length must fit in four bytes.
pub fn push_string(buf: &mut Vec<u8>, s: &String)
    requires
        encode_utf8(s@).len() <= u32::MAX,
    ensures
        final(buf)@ == old(buf)@ + borsh_string(s@),
{
    let bytes = s.as_str().as_bytes();
    push_le(buf, bytes.len() as u128, 4);
    let ghost mid = buf@;
    let mut i: usize = 0;
    while i < bytes.len()
        invariant
            i <= bytes@.len(),
            buf@ == mid + bytes@.subrange(0, i as int),
        decreases bytes@.len() - i,
    {
        buf.push(bytes[i]);
        i = i + 1;
        assert(buf@ =~= mid + bytes@.subrange(0, i as int));
    }
    assert(bytes@.subrange(0, i as int) =~= bytes@);
    assert(buf@ =~= old(buf)@ + borsh_string(s@));
}

fn push_balance(buf: &mut Vec<u8>, b: &VenearBalance)
    ensures
        final(buf)@ == old(buf)@ + borsh_balance(*b),
{
    push_le(buf, b.near_balance.0, 16);
    push_le(buf, b.extra_venear_balance.0, 16);
    assert(final(buf)@ =~= old(buf)@ + borsh_balance(*b));
}

impl VAccount {
    /// The Borsh encoding of the versioned account.
    pub fn leaf_bytes(&self) -> (res: Vec<u8>)
        requires
            encodable(*self),
        ensures
            res@ == borsh_vaccount(*self),
    {
        let mut buf: Vec<u8> = Vec::new();
        buf.push(0u8);
        match self {
            VAccount::V0(a) => {
                push_string(&mut buf, &a.account_id);
                push_le(&mut buf, a.update_timestamp as u128, 8);
                push_balance(&mut buf, &a.balance);
                push_balance(&mut buf, &a.delegated_balance);
                match &a.delegation {
                    None => {
                        buf.push(0u8);
                    },
                    Some(d) => {
                        buf.push(1u8);
                        push_string(&mut buf, &d.account_id);
                    },
                }
            },
        }
        assert(buf@ =~= borsh_vaccount(*self));
        buf
    }
}

} // verus!
