//! Properties of the pallet that span several operations.
use crate::account::{
    index_of_account, le_bytes, le_value, lemma_byte_base_16, lemma_index_of_sub_account,
    lemma_le_bytes_of_value, lemma_le_roundtrip_u128, lemma_le_value_bound,
    is_sub_account_shape, lemma_sub_account_parts, sub_account_seq,
};
use std::collections::HashMap;
use crate::pallet::{
    has_voted, is_member, state_valid, stored_supersig_of, submission_admitted, supersig_account,
    valid_supersig, vote_count, with_call, with_supersig, PalletState,
};
use crate::types::{preimage_deposit_of, PreimageCall, SigIndex, Supersig};
use vstd::prelude::*;

verus! {

/// The account of a supersig is read back as the index it was derived from,
/// whatever the pallet id: looking up a supersig by its account finds it again.
pub proof fn law_supersig_account_roundtrip(pallet_id: Seq<u8>, index: u128)
    requires
        pallet_id.len() == 8,
    ensures
        index_of_account(sub_account_seq(pallet_id, index)) == Some(index),
{
    lemma_index_of_sub_account(pallet_id, index);
}

/// Two supersigs of one pallet never share an account.
pub proof fn law_supersig_accounts_distinct(pallet_id: Seq<u8>, i: u128, j: u128)
    requires
        pallet_id.len() == 8,
        i != j,
    ensures
        sub_account_seq(pallet_id, i) != sub_account_seq(pallet_id, j),
{
    lemma_index_of_sub_account(pallet_id, i);
    lemma_index_of_sub_account(pallet_id, j);
}

/// An account that reads back as an index is the account of the supersig at that
/// index, for the pallet id that stands in its bytes.
pub proof fn law_index_determines_account(account: Seq<u8>, index: u128)
    requires
        index_of_account(account) == Some(index),
    ensures
        account == sub_account_seq(account.subrange(4, 12), index),
{
    let pallet_id = account.subrange(4, 12);
    lemma_sub_account_parts(pallet_id, index);
    lemma_le_roundtrip_u128(index);
    let s = sub_account_seq(pallet_id, index);
    let v: nat = le_value(account.subrange(12, 28));
    lemma_le_value_bound(account.subrange(12, 28));
    lemma_byte_base_16();
    assert(v == index);
    lemma_le_bytes_of_value(account.subrange(12, 28));
    assert(account.subrange(12, 28) =~= le_bytes(v, 16));
    assert forall|k: int| 0 <= k < 32 implies account[k] == s[k] by {
        if k < 4 {
            assert(account.subrange(0, 4)[k] == s.subrange(0, 4)[k]);
        } else if k < 12 {
            assert(account.subrange(4, 12)[k - 4] == s.subrange(4, 12)[k - 4]);
        } else if k < 28 {
            assert(account.subrange(12, 28)[k - 12] == s.subrange(12, 28)[k - 12]);
        }
    }
    assert(account =~= s);
}

/// Once a supersig is created, it is stored exactly as given at the index whose
/// account was funded, and a submission to that account is admitted exactly from
/// the members it lists: the account reads back as the index, and nobody outside
/// the list is a member.
pub proof fn law_created_supersig_admits_its_members(s: PalletState, sig: Supersig, user: [u8; 32])
    requires
        state_valid(s),
    ensures
        index_of_account(supersig_account(s, s.nonce_supersig)) == Some(s.nonce_supersig),
        with_supersig(s, sig).supersigs[s.nonce_supersig] == sig,
        stored_supersig_of(with_supersig(s, sig), supersig_account(s, s.nonce_supersig)) == Some(
            s.nonce_supersig,
        ),
        is_member(with_supersig(s, sig), s.nonce_supersig, user) <==> sig.members@.contains(user),
        submission_admitted(with_supersig(s, sig), supersig_account(s, s.nonce_supersig), user)
            <==> sig.members@.contains(user),
{
    lemma_index_of_sub_account(s.pallet_id, s.nonce_supersig);
}

/// Two creations in a row take consecutive indices, store each supersig as given,
/// and fund two different accounts.
pub proof fn law_consecutive_creations(s: PalletState, first: Supersig, second: Supersig)
    requires
        state_valid(s),
        s.nonce_supersig + 1 < u128::MAX,
    ensures
        ({
            let t = with_supersig(with_supersig(s, first), second);
            &&& t.nonce_supersig == s.nonce_supersig + 2
            &&& t.supersigs[s.nonce_supersig] == first
            &&& t.supersigs[(s.nonce_supersig + 1) as u128] == second
            &&& supersig_account(s, s.nonce_supersig) != supersig_account(
                with_supersig(s, first),
                with_supersig(s, first).nonce_supersig,
            )
        }),
{
    law_supersig_accounts_distinct(s.pallet_id, s.nonce_supersig, (s.nonce_supersig + 1) as u128);
}

/// Creating a supersig uses an index that nothing occupies, leaves every stored
/// supersig and every membership in it as it was, and keeps the storage valid
/// when the new supersig is valid.
pub proof fn law_create_keeps_existing(s: PalletState, sig: Supersig)
    requires
        state_valid(s),
        valid_supersig(sig),
        s.nonce_supersig < u128::MAX,
    ensures
        !s.supersigs.contains_key(s.nonce_supersig),
        forall|i: SigIndex| #[trigger]
            s.supersigs.contains_key(i) ==> with_supersig(s, sig).supersigs[i] == s.supersigs[i],
        forall|i: SigIndex, user: [u8; 32]| #[trigger]
            is_member(s, i, user) ==> is_member(with_supersig(s, sig), i, user),
        state_valid(with_supersig(s, sig)),
{
    let t = with_supersig(s, sig);
    assert forall|i: SigIndex| #[trigger] t.supersigs.contains_key(i) implies i < t.nonce_supersig
        && valid_supersig(t.supersigs[i]) by {
        if i != s.nonce_supersig {
            assert(s.supersigs.contains_key(i));
        }
    }
    assert forall|i: SigIndex, user: [u8; 32]| #[trigger]
        is_member(s, i, user) implies is_member(t, i, user) by {
        assert(s.supersigs.contains_key(i));
    }
    assert forall|i: u128| #[trigger] t.calls.contains_key(i) implies i < t.nonce_call by {
        assert(s.calls.contains_key(i));
    }
}

/// Submitting a call uses a call index that nothing occupies, leaves every
/// stored call and every supersig as it was, and keeps the storage valid.
pub proof fn law_submit_keeps_existing(s: PalletState, who: [u8; 32], data: Vec<u8>)
    requires
        state_valid(s),
        s.nonce_call < u128::MAX,
    ensures
        !s.calls.contains_key(s.nonce_call),
        forall|i: u128| #[trigger]
            s.calls.contains_key(i) ==> with_call(s, who, data).calls[i] == s.calls[i],
        with_call(s, who, data).supersigs == s.supersigs,
        with_call(s, who, data).calls[s.nonce_call] == (PreimageCall {
            data: data,
            provider: who,
            deposit: preimage_deposit_of(data@.len(), s.preimage_byte_deposit),
        }),
        state_valid(with_call(s, who, data)),
{
    let t = with_call(s, who, data);
    assert forall|i: u128| #[trigger] t.calls.contains_key(i) implies i < t.nonce_call by {
        if i != s.nonce_call {
            assert(s.calls.contains_key(i));
        }
    }
    assert forall|i: SigIndex| #[trigger] t.supersigs.contains_key(i) implies i < t.nonce_supersig
        && valid_supersig(t.supersigs[i]) by {
        assert(s.supersigs.contains_key(i));
    }
}

/// A submission is admitted exactly when the account reads back as an index at
/// which a supersig is stored and whose member list contains the submitter. Which
/// supersig was created last, or how many there are, plays no part.
pub proof fn law_submission_admitted_iff_listed(s: PalletState, account: Seq<u8>, who: [u8; 32])
    ensures
        submission_admitted(s, account, who) <==> match index_of_account(account) {
            Some(i) => s.supersigs.contains_key(i) && s.supersigs[i].members@.contains(who),
            None => false,
        },
        stored_supersig_of(s, account) == match index_of_account(account) {
            Some(i) => if s.supersigs.contains_key(i) {
                Some(i)
            } else {
                None::<u128>
            },
            None => None::<u128>,
        },
{
}

/// Every member of every stored supersig is admitted when submitting to that
/// supersig's account, and a user listed in none of them is refused there.
pub proof fn law_every_stored_supersig_admits_its_members(
    s: PalletState,
    index: u128,
    user: [u8; 32],
)
    requires
        state_valid(s),
        s.supersigs.contains_key(index),
    ensures
        stored_supersig_of(s, sub_account_seq(s.pallet_id, index)) == Some(index),
        submission_admitted(s, sub_account_seq(s.pallet_id, index), user)
            <==> s.supersigs[index].members@.contains(user),
        is_member(s, index, user) <==> s.supersigs[index].members@.contains(user),
{
    lemma_index_of_sub_account(s.pallet_id, index);
}

/// An accepted submission stores the call, with its submitter as provider and the
/// per-byte deposit, at the current call index, moves the call nonce on by exactly
/// one, and touches nothing else.
pub proof fn law_submission_moves_call_nonce_by_one(s: PalletState, who: [u8; 32], data: Vec<u8>)
    requires
        s.nonce_call < u128::MAX,
    ensures
        with_call(s, who, data).nonce_call == s.nonce_call + 1,
        with_call(s, who, data).calls.dom() == s.calls.dom().insert(s.nonce_call),
        with_call(s, who, data).calls[s.nonce_call].data == data,
        with_call(s, who, data).calls[s.nonce_call].provider == who,
        with_call(s, who, data).calls[s.nonce_call].deposit == preimage_deposit_of(
            data@.len(),
            s.preimage_byte_deposit,
        ),
        forall|i: u128| #[trigger]
            s.calls.contains_key(i) && i != s.nonce_call ==> with_call(s, who, data).calls[i]
                == s.calls[i],
        with_call(s, who, data).supersigs == s.supersigs,
        with_call(s, who, data).nonce_supersig == s.nonce_supersig,
        with_call(s, who, data).votes == s.votes,
        with_call(s, who, data).users_votes == s.users_votes,
        with_call(s, who, data).pallet_id == s.pallet_id,
        with_call(s, who, data).preimage_byte_deposit == s.preimage_byte_deposit,
{
    assert(with_call(s, who, data).calls.dom() =~= s.calls.dom().insert(s.nonce_call));
}

/// Two accepted submissions in a row use consecutive call indices.
pub proof fn law_consecutive_submissions(
    s: PalletState,
    first_who: [u8; 32],
    first: Vec<u8>,
    second_who: [u8; 32],
    second: Vec<u8>,
)
    requires
        s.nonce_call + 1 < u128::MAX,
    ensures
        ({
            let t = with_call(with_call(s, first_who, first), second_who, second);
            &&& t.nonce_call == s.nonce_call + 2
            &&& t.calls.contains_key(s.nonce_call)
            &&& t.calls.contains_key((s.nonce_call + 1) as u128)
            &&& t.calls[s.nonce_call].data == first
            &&& t.calls[s.nonce_call].provider == first_who
            &&& t.calls[(s.nonce_call + 1) as u128].data == second
            &&& t.calls[(s.nonce_call + 1) as u128].provider == second_who
        }),
{
    law_submission_moves_call_nonce_by_one(s, first_who, first);
    law_submission_moves_call_nonce_by_one(with_call(s, first_who, first), second_who, second);
}

/// An accepted creation stores the supersig as given at the current index, moves
/// the supersig nonce on by exactly one, and touches nothing else.
pub proof fn law_creation_moves_nonce_by_one(s: PalletState, sig: Supersig)
    requires
        s.nonce_supersig < u128::MAX,
    ensures
        with_supersig(s, sig).nonce_supersig == s.nonce_supersig + 1,
        with_supersig(s, sig).supersigs.dom() == s.supersigs.dom().insert(s.nonce_supersig),
        with_supersig(s, sig).supersigs[s.nonce_supersig] == sig,
        forall|i: u128| #[trigger]
            s.supersigs.contains_key(i) && i != s.nonce_supersig ==> with_supersig(s, sig).supersigs[i]
                == s.supersigs[i],
        with_supersig(s, sig).calls == s.calls,
        with_supersig(s, sig).nonce_call == s.nonce_call,
        with_supersig(s, sig).votes == s.votes,
        with_supersig(s, sig).users_votes == s.users_votes,
        with_supersig(s, sig).pallet_id == s.pallet_id,
{
    assert(with_supersig(s, sig).supersigs.dom() =~= s.supersigs.dom().insert(s.nonce_supersig));
}

/// The approval count of a call is the one recorded for it, and 0 where none is.
pub proof fn law_vote_count_reads_the_record(s: PalletState, sig: u128, call: u128)
    ensures
        s.votes.contains_key(sig) && s.votes[sig]@.contains_key(call) ==> vote_count(s, sig, call)
            == s.votes[sig]@[call],
        !(s.votes.contains_key(sig) && s.votes[sig]@.contains_key(call)) ==> vote_count(
            s,
            sig,
            call,
        ) == 0,
{
}

/// A user has approved a call exactly when the voter list recorded for that call
/// lists them; where no list is recorded nobody has.
pub proof fn law_has_voted_reads_the_record(s: PalletState, sig: u128, call: u128, user: [u8; 32])
    ensures
        has_voted(s, sig, call, user) <==> {
            &&& s.users_votes.contains_key(sig)
            &&& s.users_votes[sig]@.contains_key(call)
            &&& s.users_votes[sig]@[call]@.contains(user)
        },
{
}

/// Where no approval is recorded at all (as in a new pallet, and after any number of
/// creations and submissions from there), every count is 0 and nobody has voted.
pub proof fn law_no_record_no_votes(s: PalletState, sig: u128, call: u128, user: [u8; 32])
    requires
        s.votes == Map::<u128, HashMap<u128, u128>>::empty(),
        s.users_votes == Map::<u128, HashMap<u128, Vec<[u8; 32]>>>::empty(),
    ensures
        vote_count(s, sig, call) == 0,
        !has_voted(s, sig, call, user),
{
}

/// An account without the `modl` tag, or with a non-zero byte in its last four,
/// stands for no supersig.
pub proof fn law_foreign_account_has_no_index(account: Seq<u8>)
    requires
        account.len() == 32,
        !(account[0] == 109u8 && account[1] == 111u8 && account[2] == 100u8 && account[3] == 108u8)
            || account[28] != 0u8 || account[29] != 0u8 || account[30] != 0u8 || account[31] != 0u8,
    ensures
        index_of_account(account) is None,
{
    if is_sub_account_shape(account) {
        assert(account.subrange(0, 4)[0] == account[0]);
        assert(account.subrange(0, 4)[1] == account[1]);
        assert(account.subrange(0, 4)[2] == account[2]);
        assert(account.subrange(0, 4)[3] == account[3]);
    }
}

/// The deposit is the length times the per-byte amount, capped at `u128::MAX`, for
/// every length that fits in a `u32`; a longer length counts modulo `2^32`.
pub proof fn law_deposit_is_per_byte(len: nat, byte_deposit: u128)
    ensures
        len < 0x1_0000_0000 && len * byte_deposit <= u128::MAX ==> preimage_deposit_of(
            len,
            byte_deposit,
        ) == len * byte_deposit,
        len < 0x1_0000_0000 && len * byte_deposit > u128::MAX ==> preimage_deposit_of(
            len,
            byte_deposit,
        ) == u128::MAX,
        preimage_deposit_of(len, byte_deposit) == preimage_deposit_of(
            len % 0x1_0000_0000,
            byte_deposit,
        ),
{
    assert((len % 0x1_0000_0000) % 0x1_0000_0000 == len % 0x1_0000_0000) by (nonlinear_arith);
}

/// Each index has its own supersig account: the account carries the pallet's tag
/// and id, reads back as that index, and no other index shares it.
pub proof fn law_supersig_account_of_every_index(s: PalletState, i: u128, j: u128)
    requires
        state_valid(s),
    ensures
        index_of_account(supersig_account(s, i)) == Some(i),
        supersig_account(s, i).len() == 32,
        supersig_account(s, i).subrange(0, 4) == seq![109u8, 111u8, 100u8, 108u8],
        supersig_account(s, i).subrange(4, 12) == s.pallet_id,
        i != j ==> supersig_account(s, i) != supersig_account(s, j),
{
    lemma_index_of_sub_account(s.pallet_id, i);
    lemma_index_of_sub_account(s.pallet_id, j);
    lemma_sub_account_parts(s.pallet_id, i);
}

} // verus!
