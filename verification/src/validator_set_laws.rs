//! What the validator-set pallet's operations keep, undo and guarantee.

use vstd::prelude::*;
use crate::account_list::{
    lemma_filter_no_duplicates, lemma_filter_subset, lemma_remove_all_absent,
    lemma_remove_all_len, not_listed, other_than, remove_all,
};
use crate::origin::AccountId;
use crate::validator_set::{
    offender_accounts, removal_allowed, spec_add_profile, spec_add_validator,
    spec_mark_for_removal, spec_remove_offline_validators, spec_remove_validator, Event,
    PalletView, ProfileView,
};

verus! {

broadcast use vstd::seq_lib::group_seq_properties;

/// Adding a validator that is not in the set and then removing it, when the
/// removal is allowed, gives the validator list back as it was; the two
/// changes are reported in order.
pub proof fn law_add_then_remove_restores(s: PalletView, id: AccountId)
    requires
        !s.validators.contains(id),
        removal_allowed(spec_add_validator(s, id).0, id),
    ensures
        ({
            let (added, r1) = spec_add_validator(s, id);
            let (removed, r2) = spec_remove_validator(added, id);
            &&& r1 is Ok
            &&& r2 is Ok
            &&& removed.validators == s.validators
            &&& removed.events == s.events.push(Event::ValidatorAdditionInitiated(id)).push(
                Event::ValidatorRemovalInitiated(id),
            )
        }),
{
    s.validators.lemma_filter_push(id, other_than(id));
    lemma_remove_all_absent(s.validators, id);
}

/// Adding, removing, marking and purging validators, and adding profiles,
/// keep a validator set that holds no account twice free of duplicates.
pub proof fn law_validators_stay_distinct(
    s: PalletView,
    id: AccountId,
    member: AccountId,
    note: Seq<u8>,
    key: [u8; 16],
)
    requires
        s.validators.no_duplicates(),
    ensures
        spec_add_validator(s, id).0.validators.no_duplicates(),
        spec_remove_validator(s, id).0.validators.no_duplicates(),
        spec_mark_for_removal(s, id).validators.no_duplicates(),
        spec_remove_offline_validators(s).validators.no_duplicates(),
        spec_add_profile(s, member, note, key).validators.no_duplicates(),
{
    lemma_filter_no_duplicates(s.validators, other_than(id));
    lemma_filter_no_duplicates(s.validators, not_listed(s.offline_validators));
    if !s.validators.contains(id) {
        let t = s.validators.push(id);
        assert forall|i: int, j: int| 0 <= i < t.len() && 0 <= j < t.len() && i != j implies t[i] != t[j] by {
            if i == s.validators.len() {
                assert(s.validators.contains(t[j]));
            } else if j == s.validators.len() {
                assert(s.validators.contains(t[i]));
            }
        }
    }
}

/// A removal that succeeds takes every occurrence of the validator out, and
/// keeps every other validator.
pub proof fn law_remove_takes_out_only_the_validator(s: PalletView, id: AccountId, other: AccountId)
    requires
        spec_remove_validator(s, id).1 is Ok,
    ensures
        !spec_remove_validator(s, id).0.validators.contains(id),
        other != id ==> (spec_remove_validator(s, id).0.validators.contains(other)
            <==> s.validators.contains(other)),
{
    lemma_filter_subset(s.validators, other_than(id), id);
    lemma_filter_subset(s.validators, other_than(id), other);
}

/// A removal never leaves fewer validators than the minimum, and is refused
/// exactly when it would.
pub proof fn law_removal_keeps_minimum(s: PalletView, id: AccountId)
    ensures
        spec_remove_validator(s, id).1 is Ok <==> remove_all(s.validators, id).len()
            >= s.min_authorities,
        spec_remove_validator(s, id).1 is Ok ==> spec_remove_validator(s, id).0.validators.len()
            >= s.min_authorities,
{
}

/// Removing an account that is not a validator succeeds exactly when the
/// set already has at least the minimum, and leaves the set as it is.
pub proof fn law_removing_a_non_validator(s: PalletView, id: AccountId)
    requires
        !s.validators.contains(id),
    ensures
        spec_remove_validator(s, id).1 is Ok <==> s.validators.len() >= s.min_authorities,
        spec_remove_validator(s, id).0.validators == s.validators,
{
    lemma_remove_all_absent(s.validators, id);
}

/// In a validator set that holds no account twice, removing a validator
/// succeeds exactly when the set has more validators than the minimum.
pub proof fn law_removing_a_validator(s: PalletView, id: AccountId)
    requires
        s.validators.no_duplicates(),
        s.validators.contains(id),
    ensures
        spec_remove_validator(s, id).1 is Ok <==> s.validators.len() > s.min_authorities,
{
    lemma_remove_all_len(s.validators, id);
}

/// Purging the offline validators removes exactly the validators marked for
/// removal, and clears the marks.
pub proof fn law_purge_removes_exactly_the_marked(s: PalletView, v: AccountId)
    ensures
        spec_remove_offline_validators(s).offline_validators.len() == 0,
        spec_remove_offline_validators(s).validators.contains(v) <==> (s.validators.contains(v)
            && !s.offline_validators.contains(v)),
{
    lemma_filter_subset(s.validators, not_listed(s.offline_validators), v);
}

/// A validator marked for removal is no longer a validator after the purge.
pub proof fn law_marked_validator_is_purged(s: PalletView, id: AccountId)
    ensures
        !spec_remove_offline_validators(spec_mark_for_removal(s, id)).validators.contains(id),
{
    let marked = spec_mark_for_removal(s, id);
    assert(marked.offline_validators.last() == id);
    lemma_filter_subset(s.validators, not_listed(marked.offline_validators), id);
}

/// Every offender that an offence report names is no longer a validator
/// after the purge.
pub proof fn law_reported_offenders_are_purged(
    s: PalletView,
    offenders: Seq<(AccountId, AccountId)>,
    i: int,
)
    requires
        0 <= i < offenders.len(),
    ensures
        !spec_remove_offline_validators(
            PalletView {
                offline_validators: s.offline_validators + offender_accounts(offenders),
                ..s
            },
        ).validators.contains(offenders[i].0),
{
    let gone = s.offline_validators + offender_accounts(offenders);
    assert(gone[s.offline_validators.len() + i] == offenders[i].0);
    lemma_filter_subset(s.validators, not_listed(gone), offenders[i].0);
}

/// A stored profile reads back: the member's note and the profile under its
/// identifier are what was stored, and the validator set is untouched.
pub proof fn law_profile_reads_back(s: PalletView, member: AccountId, note: Seq<u8>, id: [u8; 16])
    ensures
        ({
            let t = spec_add_profile(s, member, note, id);
            &&& t.notes.contains_key(member)
            &&& t.notes[member] == note
            &&& t.candidates.contains_key(id)
            &&& t.candidates[id] == (ProfileView { id, reputation: 0, addr: member, note })
            &&& t.validators == s.validators
            &&& t.offline_validators == s.offline_validators
        }),
{
}

/// Storing a profile stores it under its identifier with no reputation,
/// records the member's note, and reports both; every other member's note,
/// every profile under another identifier, and the validator lists stay as
/// they were.
pub proof fn law_profile_keeps_other_notes_and_profiles(
    s: PalletView,
    member: AccountId,
    note: Seq<u8>,
    id: [u8; 16],
    other_member: AccountId,
    other_id: [u8; 16],
)
    ensures
        ({
            let t = spec_add_profile(s, member, note, id);
            &&& t.notes.contains_key(member) && t.notes[member] == note
            &&& other_member != member ==> (t.notes.contains_key(other_member)
                <==> s.notes.contains_key(other_member))
            &&& other_member != member && s.notes.contains_key(other_member) ==> t.notes[other_member]
                == s.notes[other_member]
            &&& t.notes.dom() == s.notes.dom().insert(member)
            &&& t.candidates.contains_key(id)
            &&& t.candidates[id] == (ProfileView { id, reputation: 0, addr: member, note })
            &&& other_id != id ==> (t.candidates.contains_key(other_id) <==> s.candidates.contains_key(
                other_id,
            ))
            &&& other_id != id && s.candidates.contains_key(other_id) ==> t.candidates[other_id]
                == s.candidates[other_id]
            &&& t.validators == s.validators
            &&& t.offline_validators == s.offline_validators
            &&& t.events.len() == s.events.len() + 1
            &&& t.events.last() == Event::NewProfile(member, id)
            &&& t.events.take(s.events.len() as int) == s.events
        }),
{
    let t = spec_add_profile(s, member, note, id);
    assert(t.notes.dom() =~= s.notes.dom().insert(member));
    assert(t.events.take(s.events.len() as int) =~= s.events);
}

/// Adding a validator succeeds exactly when it is not in the set; a
/// successful addition appends it after the validators there were, so the
/// set grows by one and holds it; a refused one changes nothing.
pub proof fn law_addition_appends_the_validator(s: PalletView, id: AccountId, other: AccountId)
    ensures
        ({
            let (t, r) = spec_add_validator(s, id);
            &&& r is Ok <==> !s.validators.contains(id)
            &&& r is Ok ==> {
                &&& t.validators.contains(id)
                &&& t.validators.len() == s.validators.len() + 1
                &&& t.validators.last() == id
                &&& t.validators.take(s.validators.len() as int) == s.validators
                &&& (t.validators.contains(other) <==> (s.validators.contains(other) || other == id))
                &&& t.events.last() == Event::ValidatorAdditionInitiated(id)
                &&& t.events.len() == s.events.len() + 1
            }
            &&& r is Err ==> t == s && r == Err::<(), crate::validator_set::Error>(
                crate::validator_set::Error::Duplicate,
            )
        }),
{
    let (t, r) = spec_add_validator(s, id);
    if r is Ok {
        assert(t.validators.take(s.validators.len() as int) =~= s.validators);
        assert(t.validators[s.validators.len() as int] == id);
        if s.validators.contains(other) {
            let i = choose|i: int| 0 <= i < s.validators.len() && s.validators[i] == other;
            assert(t.validators[i] == other);
        }
        if t.validators.contains(other) && other != id {
            let i = choose|i: int| 0 <= i < t.validators.len() && t.validators[i] == other;
            assert(s.validators[i] == other);
        }
    }
}

} // verus!
