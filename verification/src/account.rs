//! Account identifiers and the sub-account scheme that ties a supersig's
//! storage index to the account that represents it on chain.
//!
//! An account is 32 raw bytes (the layout of `sp_core::crypto::AccountId32`).
//! A sub-account of a pallet is laid out as
//! `b"modl" ++ pallet_id ++ little_endian(index) ++ zero padding`.
use frame_support::PalletId;
use sp_core::crypto::AccountId32;
use sp_runtime::traits::AccountIdConversion;
use vstd::arithmetic::div_mod::lemma_mod_breakdown;
use vstd::prelude::*;

verus! {

/// An account identifier: the 32 bytes of an `AccountId32`.
pub type AccountId = [u8; 32];

/// The identifier of a pallet, as held by `frame_support::PalletId`.
pub type PalletIdBytes = [u8; 8];

/// The type tag that `PalletId` puts in front of every account it derives: `b"modl"`.
pub open spec fn pallet_type_id() -> Seq<u8> {
    seq![109u8, 111u8, 100u8, 108u8]
}

/// `256^k`.
pub open spec fn byte_base(k: nat) -> nat
    decreases k,
{
    if k == 0 {
        1
    } else {
        256 * byte_base((k - 1) as nat)
    }
}

/// The `k` low bytes of `n`, least significant first.
pub open spec fn le_bytes(n: nat, k: nat) -> Seq<u8>
    decreases k,
{
    if k == 0 {
        Seq::empty()
    } else {
        seq![(n % 256) as u8] + le_bytes(n / 256, (k - 1) as nat)
    }
}

/// The number whose little-endian bytes are `s`.
pub open spec fn le_value(s: Seq<u8>) -> nat
    decreases s.len(),
{
    if s.len() == 0 {
        0
    } else {
        s[0] as nat + 256 * le_value(s.drop_first())
    }
}

/// The bytes of the sub-account `index` of the pallet `pallet_id`:
/// the type tag, the pallet id, the index in 16 little-endian bytes and 4 zero bytes.
pub open spec fn sub_account_seq(pallet_id: Seq<u8>, index: u128) -> Seq<u8> {
    pallet_type_id() + pallet_id + le_bytes(index as nat, 16) + Seq::new(4, |i: int| 0u8)
}

/// An account that `PalletId` can read back as one of its sub-accounts:
/// it starts with the type tag and ends with 4 zero bytes.
pub open spec fn is_sub_account_shape(s: Seq<u8>) -> bool {
    &&& s.len() == 32
    &&& s.subrange(0, 4) == pallet_type_id()
    &&& forall|i: int| 28 <= i < 32 ==> s[i] == 0u8
}

/// The supersig index that an account stands for, if it is a sub-account of any pallet.
pub open spec fn index_of_account(s: Seq<u8>) -> Option<u128> {
    if is_sub_account_shape(s) {
        Some(le_value(s.subrange(12, 28)) as u128)
    } else {
        None
    }
}

pub proof fn lemma_byte_base_positive(k: nat)
    ensures
        byte_base(k) > 0,
    decreases k,
{
    if k > 0 {
        lemma_byte_base_positive((k - 1) as nat);
    }
}

pub proof fn lemma_byte_base_16()
    ensures
        byte_base(16) == 0x1_0000_0000_0000_0000_0000_0000_0000_0000,
{
    reveal_with_fuel(byte_base, 17);
}

/// `le_bytes` has the length it is asked for.
pub proof fn lemma_le_bytes_len(n: nat, k: nat)
    ensures
        le_bytes(n, k).len() == k,
    decreases k,
{
    if k > 0 {
        lemma_le_bytes_len(n / 256, (k - 1) as nat);
    }
}

/// Reading back the `k` low bytes of `n` gives `n` modulo `256^k`.
pub proof fn lemma_le_value_of_bytes(n: nat, k: nat)
    ensures
        le_value(le_bytes(n, k)) == n % byte_base(k),
    decreases k,
{
    if k > 0 {
        let rest = le_bytes(n / 256, (k - 1) as nat);
        lemma_le_bytes_len(n / 256, (k - 1) as nat);
        assert(le_bytes(n, k).drop_first() =~= rest);
        lemma_le_value_of_bytes(n / 256, (k - 1) as nat);
        lemma_byte_base_positive((k - 1) as nat);
        lemma_mod_breakdown(n as int, 256, byte_base((k - 1) as nat) as int);
    }
}

/// A little-endian number of `s.len()` bytes is below `256^len`.
pub proof fn lemma_le_value_bound(s: Seq<u8>)
    ensures
        le_value(s) < byte_base(s.len()),
    decreases s.len(),
{
    if s.len() > 0 {
        lemma_le_value_bound(s.drop_first());
    }
}

/// Writing a number back in as many little-endian bytes as it was read from
/// gives the same bytes.
pub proof fn lemma_le_bytes_of_value(s: Seq<u8>)
    ensures
        le_bytes(le_value(s), s.len()) == s,
    decreases s.len(),
{
    if s.len() > 0 {
        let rest = s.drop_first();
        lemma_le_bytes_of_value(rest);
        let v: nat = le_value(s);
        let r: nat = le_value(rest);
        assert(v % 256 == s[0] as nat) by (nonlinear_arith)
            requires
                v == s[0] as nat + 256 * r,
                s[0] < 256,
        ;
        assert(v / 256 == r) by (nonlinear_arith)
            requires
                v == s[0] as nat + 256 * r,
                s[0] < 256,
        ;
        assert(le_bytes(v, s.len()) =~= s);
    }
}

/// A `u128` is recovered from its 16 little-endian bytes.
pub proof fn lemma_le_roundtrip_u128(n: u128)
    ensures
        le_value(le_bytes(n as nat, 16)) == n,
        le_bytes(n as nat, 16).len() == 16,
{
    lemma_le_value_of_bytes(n as nat, 16);
    lemma_le_bytes_len(n as nat, 16);
    lemma_byte_base_16();
}

/// The layout of a sub-account: where each part stands.
pub proof fn lemma_sub_account_parts(pallet_id: Seq<u8>, index: u128)
    requires
        pallet_id.len() == 8,
    ensures
        sub_account_seq(pallet_id, index).len() == 32,
        sub_account_seq(pallet_id, index).subrange(0, 4) == pallet_type_id(),
        sub_account_seq(pallet_id, index).subrange(4, 12) == pallet_id,
        sub_account_seq(pallet_id, index).subrange(12, 28) == le_bytes(index as nat, 16),
        forall|i: int| 28 <= i < 32 ==> #[trigger] sub_account_seq(pallet_id, index)[i] == 0u8,
{
    lemma_le_roundtrip_u128(index);
    let s = sub_account_seq(pallet_id, index);
    assert(s.subrange(0, 4) =~= pallet_type_id());
    assert(s.subrange(4, 12) =~= pallet_id);
    assert(s.subrange(12, 28) =~= le_bytes(index as nat, 16));
}

/// Every sub-account reads back as the index it was made from, whatever the pallet id.
pub proof fn lemma_index_of_sub_account(pallet_id: Seq<u8>, index: u128)
    requires
        pallet_id.len() == 8,
    ensures
        index_of_account(sub_account_seq(pallet_id, index)) == Some(index),
{
    lemma_sub_account_parts(pallet_id, index);
    lemma_le_roundtrip_u128(index);
}

/// Calls `frame_support::PalletId::into_sub_account_truncating` (the blanket impl of
/// `sp_runtime::traits::AccountIdConversion`) with a `u128` seed and an `AccountId32` result.
/// Its source encodes `(b"modl", pallet_id, index)` with SCALE (4 + 8 + 16 little-endian
/// bytes) and reads the 32 bytes of the account from that, filling the rest with zeros.
/// The contract states that layout.
#[verifier::external_body]
fn into_sub_account(pallet_id: PalletIdBytes, index: u128) -> (account: AccountId)
    ensures
        account@ == sub_account_seq(pallet_id@, index),
{
    let account: AccountId32 = PalletId(pallet_id).into_sub_account_truncating(index);
    account.into()
}

/// Calls `frame_support::PalletId::try_from_sub_account::<u128>` on an `AccountId32`.
/// Its source returns `None` unless the account starts with `b"modl"`; it then decodes a
/// pallet id (8 bytes) and a `u128` (16 little-endian bytes) and returns them only if the
/// bytes that remain are all zero. The contract states that: a result is one whose
/// sub-account is exactly the given account, and `None` comes exactly when the tag or the
/// zero padding is missing.
#[verifier::external_body]
fn try_from_sub_account(account: &AccountId) -> (found: Option<(PalletIdBytes, u128)>)
    ensures
        match found {
            Some((pallet_id, index)) => account@ == sub_account_seq(pallet_id@, index),
            None => !is_sub_account_shape(account@),
        },
{
    PalletId::try_from_sub_account::<u128>(&AccountId32::new(*account)).map(|found: (PalletId, u128)| (found.0.0, found.1))
}

/// The account of the sub-account `index` of the pallet `pallet_id`.
pub fn sub_account_of(pallet_id: PalletIdBytes, index: u128) -> (account: AccountId)
    ensures
        account@ == sub_account_seq(pallet_id@, index),
        index_of_account(account@) == Some(index),
{
    let account: AccountId = into_sub_account(pallet_id, index);
    proof {
        lemma_index_of_sub_account(pallet_id@, index);
    }
    account
}

/// The index that `account` stands for as a sub-account of any pallet.
pub fn index_from_account(account: &AccountId) -> (index: Option<u128>)
    ensures
        index == index_of_account(account@),
{
    match try_from_sub_account(account) {
        Some((pallet_id, index)) => {
            proof {
                lemma_index_of_sub_account(pallet_id@, index);
            }
            Some(index)
        },
        None => None,
    }
}

/// Whether two accounts are the same.
pub fn account_eq(a: &AccountId, b: &AccountId) -> (same: bool)
    ensures
        same == (a@ == b@),
{
    let mut i: usize = 0;
    while i < 32
        invariant
            0 <= i <= 32,
            a@.len() == 32,
            b@.len() == 32,
            forall|j: int| 0 <= j < i ==> a@[j] == b@[j],
        decreases 32 - i,
    {
        if a[i] != b[i] {
            return false;
        }
        i = i + 1;
    }
    assert(a@ =~= b@);
    true
}

} // verus!
