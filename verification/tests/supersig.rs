use pallet_supersig::{
    index_from_account, preimage_deposit, sub_account_of, AccountId, Balance, Config, Error,
    Event, Pallet, ReserveRequest, SupersigError, TransferRequest,
};
use sp_runtime::DispatchError;
use std::collections::HashMap;

const PALLET_ID: [u8; 8] = *b"py/sprsg";

fn alice() -> AccountId {
    [1u8; 32]
}

fn bob() -> AccountId {
    [2u8; 32]
}

fn charlie() -> AccountId {
    [3u8; 32]
}

/// A ledger of free and reserved balances that performs what the pallet asks.
struct Ledger {
    minimum: Balance,
    free: HashMap<AccountId, Balance>,
    reserved: HashMap<AccountId, Balance>,
}

impl Ledger {
    fn new() -> Self {
        let mut free = HashMap::new();
        free.insert(alice(), 10_000);
        free.insert(bob(), 10_000);
        free.insert(charlie(), 10_000);
        Ledger { minimum: 500, free, reserved: HashMap::new() }
    }

    fn free(&self, who: &AccountId) -> Balance {
        *self.free.get(who).unwrap_or(&0)
    }

    fn reserved(&self, who: &AccountId) -> Balance {
        *self.reserved.get(who).unwrap_or(&0)
    }

    fn transfer(&mut self, request: &TransferRequest) -> Result<(), DispatchError> {
        let source = self.free(&request.source);
        if source < request.value + self.minimum {
            return Err(DispatchError::Other("insufficient balance"));
        }
        self.free.insert(request.source, source - request.value);
        let dest = self.free(&request.dest);
        self.free.insert(request.dest, dest + request.value);
        Ok(())
    }

    fn reserve(&mut self, request: &ReserveRequest) -> Result<(), DispatchError> {
        let free = self.free(&request.who);
        if free < request.value {
            return Err(DispatchError::Other("cannot reserve"));
        }
        self.free.insert(request.who, free - request.value);
        let reserved = self.reserved(&request.who);
        self.reserved.insert(request.who, reserved + request.value);
        Ok(())
    }
}

/// Runs both steps of creating a supersig against the ledger.
fn create(
    pallet: &mut Pallet,
    ledger: &mut Ledger,
    who: AccountId,
    members: Vec<AccountId>,
    threshold: u64,
) -> Result<Event, SupersigError> {
    let request = pallet.create_supersig(who, &members, threshold, ledger.minimum)?;
    let outcome = ledger.transfer(&request);
    pallet.complete_create_supersig(members, threshold, outcome)
}

/// Runs both steps of submitting a call against the ledger.
fn submit(
    pallet: &mut Pallet,
    ledger: &mut Ledger,
    who: AccountId,
    supersig_id: AccountId,
    call: Vec<u8>,
) -> Result<Event, SupersigError> {
    let request = pallet.submit_encoded_call(who, &supersig_id, &call)?;
    let outcome = ledger.reserve(&request);
    pallet.complete_submit_call(who, supersig_id, call, outcome)
}

fn new_pallet() -> Pallet {
    Pallet::new(Config { pallet_id: PALLET_ID, preimage_byte_deposit: 10 })
}

fn expected_account(pallet_id: [u8; 8], index: u128) -> AccountId {
    let mut bytes = [0u8; 32];
    bytes[0..4].copy_from_slice(b"modl");
    bytes[4..12].copy_from_slice(&pallet_id);
    bytes[12..28].copy_from_slice(&index.to_le_bytes());
    bytes
}

#[test]
fn sub_account_layout() {
    assert_eq!(sub_account_of(PALLET_ID, 0), expected_account(PALLET_ID, 0));
    assert_eq!(sub_account_of(PALLET_ID, 258), expected_account(PALLET_ID, 258));
    assert_eq!(
        sub_account_of(PALLET_ID, u128::MAX),
        expected_account(PALLET_ID, u128::MAX)
    );
}

#[test]
fn sub_account_roundtrip() {
    for index in [0u128, 1, 7, 1 << 64, u128::MAX] {
        let account = sub_account_of(PALLET_ID, index);
        assert_eq!(Pallet::get_index_from_id(&account), Some(index));
        assert_eq!(Pallet::get_idx_from_id(&account), Some(index));
    }
}

#[test]
fn sub_accounts_are_distinct() {
    assert_ne!(sub_account_of(PALLET_ID, 0), sub_account_of(PALLET_ID, 1));
    assert_ne!(sub_account_of(PALLET_ID, 1), sub_account_of(PALLET_ID, 256));
}

#[test]
fn index_ignores_pallet_id() {
    let other = sub_account_of(*b"otherpid", 42);
    assert_eq!(Pallet::get_index_from_id(&other), Some(42));
}

#[test]
fn index_of_plain_account_is_none() {
    assert_eq!(Pallet::get_index_from_id(&alice()), None);
    assert_eq!(Pallet::get_idx_from_id(&[0u8; 32]), None);
    let mut tail = expected_account(PALLET_ID, 3);
    tail[31] = 1;
    assert_eq!(index_from_account(&tail), None);
    let mut tag = expected_account(PALLET_ID, 3);
    tag[0] = b'n';
    assert_eq!(index_from_account(&tag), None);
}

#[test]
fn create_supersig_asks_for_the_funding_transfer() {
    let pallet = new_pallet();
    let request = pallet.create_supersig(alice(), &vec![alice(), bob()], 2, 500);
    assert_eq!(
        request,
        Ok(TransferRequest { source: alice(), dest: sub_account_of(PALLET_ID, 0), value: 500 })
    );
    assert_eq!(pallet.nonce_supersig(), 0);
}

#[test]
fn create_supersig_stores_it() {
    let mut pallet = new_pallet();
    let mut ledger = Ledger::new();
    let result = create(&mut pallet, &mut ledger, alice(), vec![alice(), bob(), charlie()], 2);
    let id = sub_account_of(PALLET_ID, 0);
    assert_eq!(result, Ok(Event::SupersigCreated(id)));
    assert_eq!(pallet.nonce_supersig(), 1);
    let sig = pallet.supersigs(0).unwrap();
    assert_eq!(sig.members, vec![alice(), bob(), charlie()]);
    assert_eq!(sig.threshold, 2);
    assert_eq!(ledger.free(&alice()), 9_500);
    assert_eq!(ledger.free(&id), 500);
}

#[test]
fn create_two_supersigs() {
    let mut pallet = new_pallet();
    let mut ledger = Ledger::new();
    assert!(create(&mut pallet, &mut ledger, alice(), vec![alice()], 1).is_ok());
    let second = create(&mut pallet, &mut ledger, bob(), vec![bob(), charlie()], 1);
    assert_eq!(second, Ok(Event::SupersigCreated(sub_account_of(PALLET_ID, 1))));
    assert_eq!(pallet.nonce_supersig(), 2);
    assert_eq!(pallet.supersigs(0).unwrap().members, vec![alice()]);
    assert_eq!(pallet.supersigs(1).unwrap().members, vec![bob(), charlie()]);
    assert_eq!(ledger.free(&sub_account_of(PALLET_ID, 0)), 500);
    assert_eq!(ledger.free(&sub_account_of(PALLET_ID, 1)), 500);
}

#[test]
fn create_supersig_without_members() {
    let pallet = new_pallet();
    let request = pallet.create_supersig(alice(), &vec![], 1, 500);
    assert_eq!(request, Err(SupersigError::Pallet(Error::InvalidSupersig)));
    assert_eq!(pallet.nonce_supersig(), 0);
    assert!(pallet.supersigs(0).is_none());
}

#[test]
fn create_supersig_with_zero_threshold() {
    let mut pallet = new_pallet();
    let mut ledger = Ledger::new();
    let result = create(&mut pallet, &mut ledger, alice(), vec![alice()], 0);
    assert_eq!(result, Err(SupersigError::Pallet(Error::InvalidSupersig)));
    assert_eq!(pallet.nonce_supersig(), 0);
    assert_eq!(ledger.free(&alice()), 10_000);
}

#[test]
fn create_supersig_transfer_refused() {
    let mut pallet = new_pallet();
    let mut ledger = Ledger::new();
    ledger.free.insert(alice(), 700);
    let result = create(&mut pallet, &mut ledger, alice(), vec![alice()], 1);
    assert_eq!(
        result,
        Err(SupersigError::Dispatch(DispatchError::Other("insufficient balance")))
    );
    assert_eq!(pallet.nonce_supersig(), 0);
    assert!(pallet.supersigs(0).is_none());
    assert_eq!(ledger.free(&alice()), 700);
}

#[test]
fn complete_create_supersig_follows_transfer() {
    let mut pallet = new_pallet();
    let refused = pallet.complete_create_supersig(vec![bob()], 1, Err(DispatchError::BadOrigin));
    assert_eq!(refused, Err(SupersigError::Dispatch(DispatchError::BadOrigin)));
    assert_eq!(pallet.nonce_supersig(), 0);
    let accepted = pallet.complete_create_supersig(vec![bob()], 1, Ok(()));
    assert_eq!(accepted, Ok(Event::SupersigCreated(sub_account_of(PALLET_ID, 0))));
    assert_eq!(pallet.nonce_supersig(), 1);
}

#[test]
fn membership() {
    let mut pallet = new_pallet();
    let mut ledger = Ledger::new();
    create(&mut pallet, &mut ledger, alice(), vec![alice(), bob()], 1).unwrap();
    assert!(pallet.is_user_in_supersig(0, &alice()));
    assert!(pallet.is_user_in_supersig(0, &bob()));
    assert!(!pallet.is_user_in_supersig(0, &charlie()));
    assert!(!pallet.is_user_in_supersig(1, &alice()));
}

#[test]
fn submit_call_asks_for_the_deposit() {
    let mut pallet = new_pallet();
    let mut ledger = Ledger::new();
    create(&mut pallet, &mut ledger, alice(), vec![alice(), bob()], 1).unwrap();
    let id = sub_account_of(PALLET_ID, 0);
    let request = pallet.submit_encoded_call(bob(), &id, &vec![1, 2, 3]);
    assert_eq!(request, Ok(ReserveRequest { who: bob(), value: 30 }));
    let empty = pallet.submit_encoded_call(bob(), &id, &vec![]);
    assert_eq!(empty, Ok(ReserveRequest { who: bob(), value: 0 }));
    assert_eq!(pallet.nonce_call(), 0);
}

#[test]
fn submit_call_stores_preimage() {
    let mut pallet = new_pallet();
    let mut ledger = Ledger::new();
    create(&mut pallet, &mut ledger, alice(), vec![alice(), bob()], 1).unwrap();
    let id = sub_account_of(PALLET_ID, 0);
    let call = vec![7u8, 8, 9, 10];
    let result = submit(&mut pallet, &mut ledger, bob(), id, call.clone());
    assert_eq!(result, Ok(Event::CallSubmitted(id, 0, bob())));
    assert_eq!(pallet.nonce_call(), 1);
    let stored = pallet.calls(0).unwrap();
    assert_eq!(stored.data, call);
    assert_eq!(stored.provider, bob());
    assert_eq!(stored.deposit, 40);
    assert_eq!(ledger.reserved(&bob()), 40);
    assert_eq!(ledger.free(&bob()), 9_960);
    assert_eq!(ledger.free(&id), 500);
}

#[test]
fn submit_call_unknown_supersig() {
    let mut pallet = new_pallet();
    let mut ledger = Ledger::new();
    create(&mut pallet, &mut ledger, alice(), vec![alice()], 1).unwrap();
    let result = submit(&mut pallet, &mut ledger, alice(), bob(), vec![1]);
    assert_eq!(result, Err(SupersigError::Pallet(Error::SupersigNotFound)));
    assert_eq!(pallet.nonce_call(), 0);
    assert_eq!(ledger.reserved(&alice()), 0);
}

#[test]
fn submit_call_to_missing_index_is_not_found() {
    let mut pallet = new_pallet();
    let mut ledger = Ledger::new();
    create(&mut pallet, &mut ledger, alice(), vec![alice()], 1).unwrap();
    let id = sub_account_of(PALLET_ID, 3);
    let result = submit(&mut pallet, &mut ledger, alice(), id, vec![1]);
    assert_eq!(result, Err(SupersigError::Pallet(Error::SupersigNotFound)));
    assert_eq!(pallet.nonce_call(), 0);
    assert_eq!(ledger.reserved(&alice()), 0);
}

#[test]
fn submit_call_not_member() {
    let mut pallet = new_pallet();
    let mut ledger = Ledger::new();
    create(&mut pallet, &mut ledger, alice(), vec![alice(), bob()], 1).unwrap();
    create(&mut pallet, &mut ledger, alice(), vec![charlie()], 1).unwrap();
    let id = sub_account_of(PALLET_ID, 0);
    let result = submit(&mut pallet, &mut ledger, charlie(), id, vec![1, 2]);
    assert_eq!(result, Err(SupersigError::Pallet(Error::NotMember)));
    assert!(pallet.calls(0).is_none());
    assert_eq!(pallet.nonce_call(), 0);
    assert_eq!(ledger.reserved(&charlie()), 0);
    assert_eq!(ledger.free(&charlie()), 10_000);
}

#[test]
fn submit_call_reserve_refused() {
    let mut pallet = new_pallet();
    let mut ledger = Ledger::new();
    create(&mut pallet, &mut ledger, alice(), vec![alice()], 1).unwrap();
    ledger.free.insert(alice(), 15);
    let id = sub_account_of(PALLET_ID, 0);
    let result = submit(&mut pallet, &mut ledger, alice(), id, vec![1, 2]);
    assert_eq!(
        result,
        Err(SupersigError::Dispatch(DispatchError::Other("cannot reserve")))
    );
    assert_eq!(pallet.nonce_call(), 0);
    assert!(pallet.calls(0).is_none());
    assert_eq!(ledger.free(&alice()), 15);
    assert_eq!(ledger.reserved(&alice()), 0);
}

#[test]
fn complete_submit_call_follows_reserve() {
    let mut pallet = new_pallet();
    pallet.complete_create_supersig(vec![alice()], 1, Ok(())).unwrap();
    let id = sub_account_of(PALLET_ID, 0);
    let refused = pallet.complete_submit_call(alice(), id, vec![5, 5], Err(DispatchError::BadOrigin));
    assert_eq!(refused, Err(SupersigError::Dispatch(DispatchError::BadOrigin)));
    assert_eq!(pallet.nonce_call(), 0);
    let accepted = pallet.complete_submit_call(alice(), id, vec![5, 5], Ok(()));
    assert_eq!(accepted, Ok(Event::CallSubmitted(id, 0, alice())));
    assert_eq!(pallet.calls(0).unwrap().deposit, 20);
    assert_eq!(pallet.nonce_call(), 1);
}

#[test]
fn submit_with_any_pallet_id_reaches_the_index() {
    let mut pallet = new_pallet();
    let mut ledger = Ledger::new();
    create(&mut pallet, &mut ledger, alice(), vec![alice()], 1).unwrap();
    let foreign = sub_account_of(*b"otherpid", 0);
    let result = submit(&mut pallet, &mut ledger, alice(), foreign, vec![1]);
    assert_eq!(result, Ok(Event::CallSubmitted(foreign, 0, alice())));
}

#[test]
fn deposit_is_per_byte() {
    assert_eq!(preimage_deposit(0, 10), 0);
    assert_eq!(preimage_deposit(3, 10), 30);
    assert_eq!(preimage_deposit(1000, 7), 7000);
}

#[test]
fn deposit_saturates() {
    assert_eq!(preimage_deposit(2, u128::MAX), u128::MAX);
    assert_eq!(preimage_deposit(1, u128::MAX), u128::MAX);
}

#[test]
fn saturated_deposit_is_requested() {
    let mut pallet = Pallet::new(Config { pallet_id: PALLET_ID, preimage_byte_deposit: u128::MAX });
    pallet.complete_create_supersig(vec![alice()], 1, Ok(())).unwrap();
    let id = sub_account_of(PALLET_ID, 0);
    let request = pallet.submit_encoded_call(alice(), &id, &vec![1, 2]);
    assert_eq!(request, Ok(ReserveRequest { who: alice(), value: u128::MAX }));
}

#[test]
fn deposit_counts_length_as_u32() {
    if usize::BITS > 32 {
        let len = ((1u64 << 32) + 3) as usize;
        assert_eq!(preimage_deposit(len, 2), 6);
    }
}

#[test]
fn votes_start_empty() {
    let pallet = new_pallet();
    assert_eq!(pallet.votes(0, 0), 0);
    assert!(!pallet.users_votes((0, 0), &alice()));
}

#[test]
fn config_is_kept() {
    let pallet = new_pallet();
    assert_eq!(pallet.config(), Config { pallet_id: PALLET_ID, preimage_byte_deposit: 10 });
    assert_eq!(pallet.nonce_supersig(), 0);
    assert_eq!(pallet.nonce_call(), 0);
}
