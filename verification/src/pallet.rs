//! The supersig pallet: its storage, its configuration, and the extrinsics
//! that create supersigs and submit calls to them.
use crate::account::{
    account_eq, index_from_account, index_of_account, sub_account_of, sub_account_seq, AccountId,
    PalletIdBytes,
};
use crate::types::{
    preimage_deposit, preimage_deposit_of, Balance, CallIndex, Error, Event, PreimageCall,
    ReserveRequest, SigIndex, Supersig, SupersigError, TransferRequest,
};
use sp_runtime::DispatchError;
use std::collections::HashMap;
use vstd::prelude::*;

verus! {

broadcast use {vstd::std_specs::hash::group_hash_axioms, vstd::array::group_array_axioms};

/// The constants the pallet is configured with.
#[derive(Clone, Copy, Debug, PartialEq, Eq)]
pub struct Config {
    /// The base id from which every supersig's account is derived.
    pub pallet_id: PalletIdBytes,
    /// The amount reserved per byte of a stored call.
    pub preimage_byte_deposit: Balance,
}

/// The pallet's storage as a mathematical value.
pub struct PalletState {
    pub pallet_id: Seq<u8>,
    pub preimage_byte_deposit: Balance,
    pub nonce_supersig: SigIndex,
    pub supersigs: Map<SigIndex, Supersig>,
    pub nonce_call: CallIndex,
    pub calls: Map<CallIndex, PreimageCall>,
    pub votes: Map<SigIndex, HashMap<CallIndex, u128>>,
    pub users_votes: Map<SigIndex, HashMap<CallIndex, Vec<AccountId>>>,
}

/// The pallet with its storage.
pub struct Pallet {
    config: Config,
    nonce_supersig: SigIndex,
    supersigs: HashMap<SigIndex, Supersig>,
    nonce_call: CallIndex,
    calls: HashMap<CallIndex, PreimageCall>,
    votes: HashMap<SigIndex, HashMap<CallIndex, u128>>,
    users_votes: HashMap<SigIndex, HashMap<CallIndex, Vec<AccountId>>>,
}

impl View for Pallet {
    type V = PalletState;

    closed spec fn view(&self) -> PalletState {
        PalletState {
            pallet_id: self.config.pallet_id@,
            preimage_byte_deposit: self.config.preimage_byte_deposit,
            nonce_supersig: self.nonce_supersig,
            supersigs: self.supersigs@,
            nonce_call: self.nonce_call,
            calls: self.calls@,
            votes: self.votes@,
            users_votes: self.users_votes@,
        }
    }
}

/// A supersig that the pallet accepts: it has a member and a non-zero threshold.
pub open spec fn valid_supersig(sig: Supersig) -> bool {
    sig.members@.len() > 0 && sig.threshold > 0
}

/// What every reachable storage satisfies: the pallet id has its 8 bytes, every
/// stored supersig is valid, and every stored index was handed out by its nonce.
pub open spec fn state_valid(s: PalletState) -> bool {
    &&& s.pallet_id.len() == 8
    &&& forall|i: SigIndex| #[trigger]
        s.supersigs.contains_key(i) ==> i < s.nonce_supersig && valid_supersig(s.supersigs[i])
    &&& forall|i: CallIndex| #[trigger] s.calls.contains_key(i) ==> i < s.nonce_call
}

/// Whether `user` is a member of the supersig stored at `index`.
pub open spec fn is_member(s: PalletState, index: SigIndex, user: AccountId) -> bool {
    s.supersigs.contains_key(index) && s.supersigs[index].members@.contains(user)
}

/// The account of the supersig stored at `index`.
pub open spec fn supersig_account(s: PalletState, index: SigIndex) -> Seq<u8> {
    sub_account_seq(s.pallet_id, index)
}

/// The number of approvals recorded for the call `call` of the supersig `sig` (0 where none is).
pub open spec fn vote_count(s: PalletState, sig: SigIndex, call: CallIndex) -> u128 {
    if s.votes.contains_key(sig) && s.votes[sig]@.contains_key(call) {
        s.votes[sig]@[call]
    } else {
        0
    }
}

/// Whether `user` is recorded as having approved the call `call` of the supersig `sig`.
pub open spec fn has_voted(s: PalletState, sig: SigIndex, call: CallIndex, user: AccountId) -> bool {
    &&& s.users_votes.contains_key(sig)
    &&& s.users_votes[sig]@.contains_key(call)
    &&& s.users_votes[sig]@[call]@.contains(user)
}

/// The index of the supersig that `account` stands for, where one is stored there.
pub open spec fn stored_supersig_of(s: PalletState, account: Seq<u8>) -> Option<SigIndex> {
    match index_of_account(account) {
        Some(index) => if s.supersigs.contains_key(index) {
            Some(index)
        } else {
            None
        },
        None => None,
    }
}

/// Whether the pallet accepts a call from `who` to the supersig whose account is
/// `account`: the account stands for a stored supersig and `who` is one of its members.
pub open spec fn submission_admitted(s: PalletState, account: Seq<u8>, who: AccountId) -> bool {
    index_of_account(account) matches Some(index) && is_member(s, index, who)
}

/// The storage after a supersig has been created at the next index.
pub open spec fn with_supersig(s: PalletState, sig: Supersig) -> PalletState {
    PalletState {
        nonce_supersig: (s.nonce_supersig + 1) as SigIndex,
        supersigs: s.supersigs.insert(s.nonce_supersig, sig),
        ..s
    }
}

/// The call that `who` stores when submitting `data`.
pub open spec fn preimage_of(s: PalletState, who: AccountId, data: Vec<u8>) -> PreimageCall {
    PreimageCall {
        data: data,
        provider: who,
        deposit: preimage_deposit_of(data@.len(), s.preimage_byte_deposit),
    }
}

/// The storage after `who` has submitted `data` at the next call index.
pub open spec fn with_call(s: PalletState, who: AccountId, data: Vec<u8>) -> PalletState {
    PalletState {
        nonce_call: (s.nonce_call + 1) as CallIndex,
        calls: s.calls.insert(s.nonce_call, preimage_of(s, who, data)),
        ..s
    }
}

impl Pallet {
    /// The pallet as it starts: no supersig, no call, both nonces at zero.
    pub fn new(config: Config) -> (pallet: Self)
        ensures
            pallet@.pallet_id == config.pallet_id@,
            pallet@.preimage_byte_deposit == config.preimage_byte_deposit,
            pallet@.nonce_supersig == 0,
            pallet@.supersigs == Map::<SigIndex, Supersig>::empty(),
            pallet@.nonce_call == 0,
            pallet@.calls == Map::<CallIndex, PreimageCall>::empty(),
            pallet@.votes == Map::<SigIndex, HashMap<CallIndex, u128>>::empty(),
            pallet@.users_votes == Map::<SigIndex, HashMap<CallIndex, Vec<AccountId>>>::empty(),
            state_valid(pallet@),
    {
        Pallet {
            config,
            nonce_supersig: 0,
            supersigs: HashMap::new(),
            nonce_call: 0,
            calls: HashMap::new(),
            votes: HashMap::new(),
            users_votes: HashMap::new(),
        }
    }

    /// The constants the pallet was configured with.
    pub fn config(&self) -> (config: Config)
        ensures
            config.pallet_id@ == self@.pallet_id,
            config.preimage_byte_deposit == self@.preimage_byte_deposit,
    {
        self.config
    }

    /// The index the next supersig will be stored at.
    pub fn nonce_supersig(&self) -> (nonce: SigIndex)
        ensures
            nonce == self@.nonce_supersig,
    {
        self.nonce_supersig
    }

    /// The supersig stored at `index`, if any.
    pub fn supersigs(&self, index: SigIndex) -> (sig: Option<&Supersig>)
        ensures
            match sig {
                Some(sig) => self@.supersigs.contains_key(index) && *sig == self@.supersigs[index],
                None => !self@.supersigs.contains_key(index),
            },
    {
        self.supersigs.get(&index)
    }

    /// The index the next submitted call will be stored at.
    pub fn nonce_call(&self) -> (nonce: CallIndex)
        ensures
            nonce == self@.nonce_call,
    {
        self.nonce_call
    }

    /// The call stored at `index`, if any.
    pub fn calls(&self, index: CallIndex) -> (call: Option<&PreimageCall>)
        ensures
            match call {
                Some(call) => self@.calls.contains_key(index) && *call == self@.calls[index],
                None => !self@.calls.contains_key(index),
            },
    {
        self.calls.get(&index)
    }

    /// The number of approvals recorded for the call `call` of the supersig `sig`.
    pub fn votes(&self, sig: SigIndex, call: CallIndex) -> (count: u128)
        ensures
            count == vote_count(self@, sig, call),
    {
        match self.votes.get(&sig) {
            None => 0,
            Some(per_call) => match per_call.get(&call) {
                None => 0,
                Some(count) => *count,
            },
        }
    }

    /// Whether `user` is recorded as having approved the call `call` of the supersig `sig`.
    pub fn users_votes(&self, sig_call: (SigIndex, CallIndex), user: &AccountId) -> (voted: bool)
        ensures
            voted == has_voted(self@, sig_call.0, sig_call.1, *user),
    {
        let (sig, call) = sig_call;
        match self.users_votes.get(&sig) {
            None => false,
            Some(per_call) => match per_call.get(&call) {
                None => false,
                Some(voters) => {
                    let mut j: usize = 0;
                    while j < voters.len()
                        invariant
                            0 <= j <= voters@.len(),
                            sig == sig_call.0,
                            call == sig_call.1,
                            self@.users_votes.contains_key(sig),
                            self@.users_votes[sig]@.contains_key(call),
                            self@.users_votes[sig]@[call]@ == voters@,
                            forall|k: int| 0 <= k < j ==> voters@[k] != *user,
                        decreases voters@.len() - j,
                    {
                        if account_eq(&voters[j], user) {
                            assert(voters@[j as int] =~= *user);
                            assert(self@.users_votes[sig]@[call]@[j as int] == *user);
                            return true;
                        }
                        j = j + 1;
                    }
                    false
                },
            },
        }
    }

    /// The index of the supersig whose account is `id`, if `id` is a sub-account.
    pub fn get_index_from_id(id: &AccountId) -> (index: Option<u128>)
        ensures
            index == index_of_account(id@),
    {
        index_from_account(id)
    }

    /// The index of the supersig whose account is `id`, if `id` is a sub-account.
    pub fn get_idx_from_id(id: &AccountId) -> (index: Option<u128>)
        ensures
            index == index_of_account(id@),
    {
        index_from_account(id)
    }

    /// Whether `user` is a member of the supersig stored at `supersig_id`;
    /// `false` where no supersig is stored there.
    pub fn is_user_in_supersig(&self, supersig_id: u128, user: &AccountId) -> (member: bool)
        ensures
            member == is_member(self@, supersig_id, *user),
    {
        match self.supersigs.get(&supersig_id) {
            None => false,
            Some(sig) => {
                let members: &Vec<AccountId> = &sig.members;
                let mut j: usize = 0;
                while j < members.len()
                    invariant
                        0 <= j <= members@.len(),
                        self@.supersigs.contains_key(supersig_id),
                        self@.supersigs[supersig_id].members@ == members@,
                        forall|k: int| 0 <= k < j ==> members@[k] != *user,
                    decreases members@.len() - j,
                {
                    if account_eq(&members[j], user) {
                        assert(members@[j as int] =~= *user);
                        return true;
                    }
                    j = j + 1;
                }
                false
            },
        }
    }

    /// The first step of creating a supersig from `members` and `threshold`, funded
    /// by `who`: decides whether the pallet accepts it and, where it does, which
    /// transfer the runtime's currency must make before `complete_create_supersig`.
    ///
    /// Fails with `InvalidSupersig` where `members` is empty or `threshold` is 0, and
    /// asks for nothing then. Otherwise it asks for a keep-alive transfer of
    /// `minimum_balance` (the currency's minimum balance) from `who` to the account of
    /// the supersig that will be stored at the next index. Storage is left as it is.
    pub fn create_supersig(
        &self,
        who: AccountId,
        members: &Vec<AccountId>,
        threshold: u64,
        minimum_balance: Balance,
    ) -> (request: Result<TransferRequest, SupersigError>)
        ensures
            members@.len() == 0 || threshold == 0 ==> request == Err::<TransferRequest, SupersigError>(
                SupersigError::Pallet(Error::InvalidSupersig),
            ),
            members@.len() > 0 && threshold > 0 ==> (request matches Ok(transfer) && {
                &&& transfer.source == who
                &&& transfer.dest@ == supersig_account(self@, self@.nonce_supersig)
                &&& transfer.value == minimum_balance
            }),
    {
        if members.len() == 0 || threshold == 0 {
            return Err(SupersigError::Pallet(Error::InvalidSupersig));
        }
        let dest: AccountId = sub_account_of(self.config.pallet_id, self.nonce_supersig);
        Ok(TransferRequest { source: who, dest, value: minimum_balance })
    }

    /// The second step of creating a supersig: what the pallet does once the
    /// currency has answered the transfer that `create_supersig` asked for.
    /// A refused transfer is returned as it came, with storage unchanged; an
    /// accepted one stores the supersig at the next index and moves the nonce on.
    /// Either way the currency is asked for nothing more.
    pub fn complete_create_supersig(
        &mut self,
        members: Vec<AccountId>,
        threshold: u64,
        transfer: Result<(), DispatchError>,
    ) -> (result: Result<Event, SupersigError>)
        requires
            state_valid(old(self)@),
            transfer is Ok ==> old(self)@.nonce_supersig < u128::MAX,
            members@.len() > 0,
            threshold > 0,
        ensures
            state_valid(final(self)@),
            match transfer {
                Ok(()) => {
                    &&& final(self)@ == with_supersig(old(self)@, (Supersig { members, threshold }))
                    &&& result matches Ok(Event::SupersigCreated(id)) && id@ == supersig_account(old(self)@, old(self)@.nonce_supersig)
                },
                Err(error) => {
                    &&& result == Err::<Event, SupersigError>(SupersigError::Dispatch(error))
                    &&& final(self)@ == old(self)@
                },
            },
    {
        match transfer {
            Err(error) => Err(SupersigError::Dispatch(error)),
            Ok(()) => {
                let index: SigIndex = self.nonce_supersig;
                let supersig_id: AccountId = sub_account_of(self.config.pallet_id, index);
                self.supersigs.insert(index, Supersig { members, threshold });
                self.nonce_supersig = index + 1;
                proof {
                    assert forall|i: SigIndex| #[trigger] self@.supersigs.contains_key(i) implies i
                        < self@.nonce_supersig && valid_supersig(self@.supersigs[i]) by {
                        if i != index {
                            assert(old(self)@.supersigs.contains_key(i));
                        }
                    }
                    assert forall|i: CallIndex| #[trigger] self@.calls.contains_key(i) implies i
                        < self@.nonce_call by {
                        assert(old(self)@.calls.contains_key(i));
                    }
                }
                Ok(Event::SupersigCreated(supersig_id))
            },
        }
    }

    /// The first step of submitting the encoded call `encoded_call` from `who` to the
    /// supersig whose account is `supersig_id`: decides whether the pallet accepts it
    /// and, where it does, which reservation the runtime's currency must make before
    /// `complete_submit_call`.
    ///
    /// Fails with `SupersigNotFound` where `supersig_id` is no sub-account or no
    /// supersig is stored at its index, and with `NotMember` where `who` is not a
    /// member of that supersig; it asks for nothing then. Otherwise it asks to reserve
    /// the call's deposit (its length as a `u32` times the per-byte deposit, saturating)
    /// from `who`. Storage is left as it is.
    pub fn submit_encoded_call(
        &self,
        who: AccountId,
        supersig_id: &AccountId,
        encoded_call: &Vec<u8>,
    ) -> (request: Result<ReserveRequest, SupersigError>)
        ensures
            stored_supersig_of(self@, supersig_id@) is None ==> request == Err::<ReserveRequest, SupersigError>(
                SupersigError::Pallet(Error::SupersigNotFound),
            ),
            stored_supersig_of(self@, supersig_id@) matches Some(index) && !is_member(self@, index, who)
                ==> request == Err::<ReserveRequest, SupersigError>(SupersigError::Pallet(Error::NotMember)),
            submission_admitted(self@, supersig_id@, who) ==> request == Ok::<ReserveRequest, SupersigError>(
                ReserveRequest {
                    who: who,
                    value: preimage_deposit_of(encoded_call@.len(), self@.preimage_byte_deposit),
                },
            ),
    {
        let id: SigIndex = match Self::get_index_from_id(supersig_id) {
            None => {
                return Err(SupersigError::Pallet(Error::SupersigNotFound));
            },
            Some(id) => id,
        };
        if !self.supersigs.contains_key(&id) {
            return Err(SupersigError::Pallet(Error::SupersigNotFound));
        }
        if !self.is_user_in_supersig(id, &who) {
            return Err(SupersigError::Pallet(Error::NotMember));
        }
        let deposit: Balance = preimage_deposit(encoded_call.len(), self.config.preimage_byte_deposit);
        Ok(ReserveRequest { who, value: deposit })
    }

    /// The second step of submitting a call: what the pallet does once the currency
    /// has answered the reservation that `submit_encoded_call` asked for. A refused
    /// reservation is returned as it came, with storage unchanged; an accepted one
    /// stores the call with its provider and deposit at the next call index and moves
    /// the call nonce on. Either way the currency is asked for nothing more.
    pub fn complete_submit_call(
        &mut self,
        who: AccountId,
        supersig_id: AccountId,
        encoded_call: Vec<u8>,
        reserve: Result<(), DispatchError>,
    ) -> (result: Result<Event, SupersigError>)
        requires
            state_valid(old(self)@),
            submission_admitted(old(self)@, supersig_id@, who),
            reserve is Ok ==> old(self)@.nonce_call < u128::MAX,
        ensures
            state_valid(final(self)@),
            match reserve {
                Ok(()) => {
                    &&& final(self)@ == with_call(old(self)@, who, encoded_call)
                    &&& result == Ok::<Event, SupersigError>(Event::CallSubmitted(supersig_id, old(self)@.nonce_call, who))
                },
                Err(error) => {
                    &&& result == Err::<Event, SupersigError>(SupersigError::Dispatch(error))
                    &&& final(self)@ == old(self)@
                },
            },
    {
        match reserve {
            Err(error) => Err(SupersigError::Dispatch(error)),
            Ok(()) => {
                let nonce: CallIndex = self.nonce_call;
                let deposit: Balance = preimage_deposit(encoded_call.len(), self.config.preimage_byte_deposit);
                let preimage: PreimageCall = PreimageCall { data: encoded_call, provider: who, deposit };
                self.calls.insert(nonce, preimage);
                self.nonce_call = nonce + 1;
                proof {
                    assert forall|i: CallIndex| #[trigger] self@.calls.contains_key(i) implies i
                        < self@.nonce_call by {
                        if i != nonce {
                            assert(old(self)@.calls.contains_key(i));
                        }
                    }
                    assert forall|i: SigIndex| #[trigger] self@.supersigs.contains_key(i) implies i
                        < self@.nonce_supersig && valid_supersig(self@.supersigs[i]) by {
                        assert(old(self)@.supersigs.contains_key(i));
                    }
                }
                Ok(Event::CallSubmitted(supersig_id, nonce, who))
            },
        }
    }
}

} // verus!
