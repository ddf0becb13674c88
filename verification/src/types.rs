//! The values that the pallet stores, emits and fails with.
use crate::account::AccountId;
use sp_runtime::DispatchError;
use vstd::prelude::*;

verus! {

/// Amounts of the currency that the pallet reserves and transfers.
pub type Balance = u128;

/// Index of a supersig in storage.
pub type SigIndex = u128;

/// Index of a submitted call in storage.
pub type CallIndex = u128;

/// Declares `sp_runtime::DispatchError`, the error a dispatch returns, so that the
/// errors of the currency can be carried through unchanged; nothing inside it is read.
#[verifier::external_type_specification]
#[verifier::external_body]
pub struct ExDispatchError(DispatchError);

/// A multi-signature organisation: who belongs to it and how many approvals it needs.
#[derive(Clone, Debug, PartialEq, Eq)]
pub struct Supersig {
    pub members: Vec<AccountId>,
    pub threshold: u64,
}

/// A call submitted to a supersig, stored as its encoded bytes together with
/// the account that provided it and the deposit reserved from that account.
#[derive(Clone, Debug, PartialEq, Eq)]
pub struct PreimageCall {
    pub data: Vec<u8>,
    pub provider: AccountId,
    pub deposit: Balance,
}

/// A keep-alive transfer of `value` from `source` to `dest` that the pallet asks
/// the runtime's currency to make.
#[derive(Clone, Copy, Debug, PartialEq, Eq)]
pub struct TransferRequest {
    pub source: AccountId,
    pub dest: AccountId,
    pub value: Balance,
}

/// A reservation of `value` from the free balance of `who` that the pallet asks
/// the runtime's currency to make.
#[derive(Clone, Copy, Debug, PartialEq, Eq)]
pub struct ReserveRequest {
    pub who: AccountId,
    pub value: Balance,
}

/// What the pallet reports when an extrinsic succeeds.
#[derive(Clone, Copy, Debug, PartialEq, Eq)]
pub enum Event {
    /// A supersig has been created [supersig]
    SupersigCreated(AccountId),
    /// A call has been submitted [supersig, call_nonce, submitter]
    CallSubmitted(AccountId, u128, AccountId),
    /// A call has been voted [supersig, call_nonce, voter]
    CallVoted(AccountId, u128, AccountId),
    /// A call has been executed [supersig, call_nonce]
    CallExecuted(AccountId, u128),
    /// A call has been removed [supersig, call_nonce]
    CallRemoved(AccountId, u128),
}

/// The pallet's own errors.
#[derive(Clone, Copy, Debug, PartialEq, Eq)]
pub enum Error {
    /// The supersig either has no member or an invalid threshold (0).
    InvalidSupersig,
    /// The supersig doesn't exist.
    SupersigNotFound,
    /// The call already exists.
    CallAlreadyExists,
    /// The call doesn't exist.
    CallNotFound,
    /// The user is not a member of the supersig.
    NotMember,
    /// The user already voted for the call.
    AlreadyVoted,
}

/// Why an extrinsic failed: one of the pallet's errors, or the error that the
/// currency returned for a transfer or a reservation.
#[derive(Debug, PartialEq, Eq)]
pub enum SupersigError {
    Pallet(Error),
    Dispatch(DispatchError),
}

/// The deposit for `len` bytes at `byte_deposit` per byte: the length is taken
/// as a `u32` (so it wraps at `2^32`) and the product saturates at `u128::MAX`.
pub open spec fn preimage_deposit_of(len: nat, byte_deposit: Balance) -> Balance {
    let units: nat = len % 0x1_0000_0000;
    if units * byte_deposit > u128::MAX {
        u128::MAX
    } else {
        (units * byte_deposit) as u128
    }
}

/// The deposit reserved for storing a call of `len` bytes.
pub fn preimage_deposit(len: usize, byte_deposit: Balance) -> (deposit: Balance)
    ensures
        deposit == preimage_deposit_of(len as nat, byte_deposit),
{
    let units: u32 = len as u32;
    let len64: u64 = len as u64;
    assert(units == len64 % 0x1_0000_0000) by (bit_vector)
        requires
            units == len as u32,
            len64 == len as u64,
    ;
    let wide: u128 = units as u128;
    match wide.checked_mul(byte_deposit) {
        Some(deposit) => deposit,
        None => u128::MAX,
    }
}

} // verus!
