//! A multi-signature organisation ("supersig") pallet: supersigs are created
//! with a list of members and a threshold, each gets an account derived from
//! its storage index, and members submit calls to it with a deposit that is
//! reserved per byte of the stored call.
pub mod account;
pub mod types;
pub mod pallet;
pub mod laws;

pub use account::{index_from_account, sub_account_of, AccountId, PalletIdBytes};
pub use pallet::{Config, Pallet};
pub use types::{
    preimage_deposit, Balance, CallIndex, Error, Event, PreimageCall, ReserveRequest, SigIndex,
    Supersig, SupersigError, TransferRequest,
};
