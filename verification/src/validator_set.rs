//! The validator-set pallet: the list of validators (added, removed, and
//! purged of those reported offline), member profiles and notes, and the
//! session hooks that read them.

use std::collections::HashMap;
use vstd::prelude::*;
use crate::account_list::{
    copy_accounts, holds, remove_all, remove_listed, without, without_listed,
};
use crate::encoding::{copy_bytes, payload_id, spec_payload_key};
use crate::id_map::IdMap;
use crate::origin::{
    ensure_origin, ensure_signed, origin_permits, AccountId, DispatchError, Origin, OriginCheck,
};

verus! {

broadcast use vstd::std_specs::hash::group_hash_axioms;

/// The longest note a profile may carry.
pub const MAX_NOTE_LEN: usize = 1000;

/// A candidate's profile, stored under the hash of its account and note.
#[derive(Clone, Debug, PartialEq, Eq)]
pub struct Profile {
    pub id: [u8; 16],
    pub reputation: u32,
    pub addr: AccountId,
    pub note: Vec<u8>,
}

/// A profile seen as mathematical values.
pub struct ProfileView {
    pub id: [u8; 16],
    pub reputation: u32,
    pub addr: AccountId,
    pub note: Seq<u8>,
}

impl View for Profile {
    type V = ProfileView;

    open spec fn view(&self) -> ProfileView {
        ProfileView { id: self.id, reputation: self.reputation, addr: self.addr, note: self.note@ }
    }
}

/// What the pallet reports of its changes.
#[derive(Clone, Copy, Debug, PartialEq, Eq)]
pub enum Event {
    /// A validator was added; effective in about two sessions.
    ValidatorAdditionInitiated(AccountId),
    /// A validator was removed; effective in about two sessions.
    ValidatorRemovalInitiated(AccountId),
    /// A profile was stored under the given identifier.
    NewProfile(AccountId, [u8; 16]),
}

/// The errors of the pallet.
#[derive(Clone, Copy, Debug, PartialEq, Eq)]
pub enum Error {
    /// The validator count after a removal would be below the minimum.
    TooLowValidatorCount,
    /// The validator is already in the validator set.
    Duplicate,
    /// The note is longer than `MAX_NOTE_LEN` bytes.
    TooLong,
}

/// An error in reporting an offence.
#[derive(Clone, Copy, Debug, PartialEq, Eq)]
pub enum OffenceError {
    DuplicateReport,
    Other(u8),
}

/// The runtime's constants for the pallet.
#[derive(Clone, Copy, Debug, PartialEq, Eq)]
pub struct Config {
    /// The fewest validators that a removal may leave.
    pub min_authorities: u32,
    /// The origins that may add and remove validators.
    pub add_remove_origin: OriginCheck,
}

/// A fraction in parts per million.
#[derive(Clone, Copy, Debug, PartialEq, Eq)]
pub struct Permill(pub u32);

/// The weight of a computation: time and proof size.
#[derive(Clone, Copy, Debug, PartialEq, Eq)]
pub struct Weight {
    pub ref_time: u64,
    pub proof_size: u64,
}

/// The pallet's storage, seen as mathematical values.
pub struct PalletView {
    pub min_authorities: u32,
    pub add_remove_origin: OriginCheck,
    pub committee: Seq<(AccountId, u64)>,
    pub notes: Map<AccountId, Seq<u8>>,
    pub candidates: Map<[u8; 16], ProfileView>,
    pub validators: Seq<AccountId>,
    pub approved_validators: Seq<AccountId>,
    pub offline_validators: Seq<AccountId>,
    pub events: Seq<Event>,
}

/// The pallet and its storage.
pub struct Pallet {
    min_authorities: u32,
    add_remove_origin: OriginCheck,
    committee: Vec<(AccountId, u64)>,
    notes: HashMap<AccountId, Vec<u8>>,
    candidates: IdMap<Profile>,
    validators: Vec<AccountId>,
    approved_validators: Vec<AccountId>,
    offline_validators: Vec<AccountId>,
    events: Vec<Event>,
}

impl View for Pallet {
    type V = PalletView;

    closed spec fn view(&self) -> PalletView {
        PalletView {
            min_authorities: self.min_authorities,
            add_remove_origin: self.add_remove_origin,
            committee: self.committee@,
            notes: self.notes@.map_values(|n: Vec<u8>| n@),
            candidates: self.candidates@.map_values(|p: Profile| p@),
            validators: self.validators@,
            approved_validators: self.approved_validators@,
            offline_validators: self.offline_validators@,
            events: self.events@,
        }
    }
}

/// The storage at genesis, before any validator is set.
pub open spec fn spec_genesis(config: Config) -> PalletView {
    PalletView {
        min_authorities: config.min_authorities,
        add_remove_origin: config.add_remove_origin,
        committee: Seq::empty(),
        notes: Map::empty(),
        candidates: Map::empty(),
        validators: Seq::empty(),
        approved_validators: Seq::empty(),
        offline_validators: Seq::empty(),
        events: Seq::empty(),
    }
}

/// Whether the validator set may be initialised with `vs`: the count, cut to
/// 32 bits, is at least the minimum, and no validator is set yet.
pub open spec fn initialization_allowed(s: PalletView, vs: Seq<AccountId>) -> bool {
    &&& (vs.len() as u32) >= s.min_authorities
    &&& s.validators.len() == 0
}

/// Adding `id`: refused when it is a validator already, else appended.
pub open spec fn spec_add_validator(s: PalletView, id: AccountId) -> (PalletView, Result<(), Error>) {
    if s.validators.contains(id) {
        (s, Err(Error::Duplicate))
    } else {
        (
            PalletView {
                validators: s.validators.push(id),
                events: s.events.push(Event::ValidatorAdditionInitiated(id)),
                ..s
            },
            Ok(()),
        )
    }
}

/// Whether removing `id` is allowed: the validators that remain after the
/// removal are at least the minimum.
pub open spec fn removal_allowed(s: PalletView, id: AccountId) -> bool {
    remove_all(s.validators, id).len() >= s.min_authorities
}

/// Removing `id`: refused when fewer validators than the minimum would
/// remain, else every occurrence of `id` leaves the list.
pub open spec fn spec_remove_validator(s: PalletView, id: AccountId) -> (PalletView, Result<(), Error>) {
    if !removal_allowed(s, id) {
        (s, Err(Error::TooLowValidatorCount))
    } else {
        (
            PalletView {
                validators: remove_all(s.validators, id),
                events: s.events.push(Event::ValidatorRemovalInitiated(id)),
                ..s
            },
            Ok(()),
        )
    }
}

/// Marking `id` for removal at the next session.
pub open spec fn spec_mark_for_removal(s: PalletView, id: AccountId) -> PalletView {
    PalletView { offline_validators: s.offline_validators.push(id), ..s }
}

/// Removing every validator marked offline, and clearing the marks.
pub open spec fn spec_remove_offline_validators(s: PalletView) -> PalletView {
    PalletView {
        validators: remove_listed(s.validators, s.offline_validators),
        offline_validators: Seq::empty(),
        ..s
    }
}

/// Storing the profile of `member` with `note` under `id`.
pub open spec fn spec_add_profile(s: PalletView, member: AccountId, note: Seq<u8>, id: [u8; 16]) -> PalletView {
    PalletView {
        candidates: s.candidates.insert(id, ProfileView { id, reputation: 0, addr: member, note }),
        notes: s.notes.insert(member, note),
        events: s.events.push(Event::NewProfile(member, id)),
        ..s
    }
}

/// The offenders' accounts, in order.
pub open spec fn offender_accounts(offenders: Seq<(AccountId, AccountId)>) -> Seq<AccountId> {
    offenders.map_values(|o: (AccountId, AccountId)| o.0)
}

impl Pallet {
    /// The storage is consistent.
    pub closed spec fn wf(&self) -> bool {
        self.candidates.wf()
    }

    /// The pallet at genesis, with the runtime's constants.
    pub fn new(config: Config) -> (p: Self)
        ensures
            p.wf(),
            p@ == spec_genesis(config),
    {
        let p = Pallet {
            min_authorities: config.min_authorities,
            add_remove_origin: config.add_remove_origin,
            committee: Vec::new(),
            notes: HashMap::new(),
            candidates: IdMap::new(),
            validators: Vec::new(),
            approved_validators: Vec::new(),
            offline_validators: Vec::new(),
            events: Vec::new(),
        };
        proof {
            assert(p@.notes =~= Map::<AccountId, Seq<u8>>::empty());
            assert(p@.candidates =~= Map::<[u8; 16], ProfileView>::empty());
        }
        p
    }

    /// Sets the initial validators. The caller guarantees what the runtime
    /// asserts: enough validators, and none set before.
    pub fn initialize_validators(&mut self, validators: &[AccountId])
        requires
            old(self).wf(),
            initialization_allowed(old(self)@, validators@),
        ensures
            final(self).wf(),
            final(self)@ == (PalletView { validators: validators@, ..old(self)@ }),
    {
        let mut v: Vec<AccountId> = Vec::new();
        let mut i: usize = 0;
        while i < validators.len()
            invariant
                i <= validators@.len(),
                v@ == validators@.take(i as int),
            decreases validators@.len() - i,
        {
            v.push(validators[i]);
            i = i + 1;
            proof {
                assert(v@ =~= validators@.take(i as int));
            }
        }
        proof {
            assert(validators@.take(validators@.len() as int) =~= validators@);
        }
        self.validators = v;
    }

    /// Adds a validator, refusing one that is already in the set.
    pub fn do_add_validator(&mut self, validator_id: AccountId) -> (res: Result<(), Error>)
        requires
            old(self).wf(),
        ensures
            final(self).wf(),
            (final(self)@, res) == spec_add_validator(old(self)@, validator_id),
    {
        if holds(&self.validators, validator_id) {
            return Err(Error::Duplicate);
        }
        self.validators.push(validator_id);
        self.events.push(Event::ValidatorAdditionInitiated(validator_id));
        Ok(())
    }

    /// Removes every occurrence of a validator, unless fewer validators than
    /// the minimum would remain.
    pub fn do_remove_validator(&mut self, validator_id: AccountId) -> (res: Result<(), Error>)
        requires
            old(self).wf(),
        ensures
            final(self).wf(),
            (final(self)@, res) == spec_remove_validator(old(self)@, validator_id),
    {
        let remaining = without(&self.validators, validator_id);
        let min: usize = self.min_authorities as usize;
        if remaining.len() < min {
            return Err(Error::TooLowValidatorCount);
        }
        self.validators = remaining;
        self.events.push(Event::ValidatorRemovalInitiated(validator_id));
        Ok(())
    }

    /// Marks an offline validator for removal at the next session.
    pub fn mark_for_removal(&mut self, validator_id: AccountId)
        requires
            old(self).wf(),
        ensures
            final(self).wf(),
            final(self)@ == spec_mark_for_removal(old(self)@, validator_id),
    {
        self.offline_validators.push(validator_id);
    }

    /// Removes the validators marked offline and clears the marks.
    pub fn remove_offline_validators(&mut self)
        requires
            old(self).wf(),
        ensures
            final(self).wf(),
            final(self)@ == spec_remove_offline_validators(old(self)@),
    {
        let remaining = without_listed(&self.validators, &self.offline_validators);
        self.validators = remaining;
        self.offline_validators = Vec::new();
    }

    /// Stores the profile of `member` under `id`, records `note` as the
    /// member's note, and reports the new profile.
    pub fn add_profile_with_id(&mut self, member: AccountId, note: Vec<u8>, id: [u8; 16])
        requires
            old(self).wf(),
        ensures
            final(self).wf(),
            final(self)@ == spec_add_profile(old(self)@, member, note@, id),
    {
        let stored = copy_bytes(&note);
        let profile = Profile { id, reputation: 0, addr: member, note: stored };
        self.candidates.insert(id, profile);
        self.notes.insert(member, note);
        self.events.push(Event::NewProfile(member, id));
        proof {
            let ghost old_view = old(self)@;
            assert(self@.notes =~= old_view.notes.insert(member, note@));
            assert(self@.candidates =~= old_view.candidates.insert(
                id,
                ProfileView { id, reputation: 0, addr: member, note: note@ },
            ));
        }
    }

    /// Stores the profile of `member` under the hash of the member and its
    /// note, records the note, and reports the new profile.
    pub fn do_add_profile(&mut self, member: AccountId, note: Vec<u8>) -> (res: Result<(), Error>)
        requires
            old(self).wf(),
            note@.len() <= MAX_NOTE_LEN,
        ensures
            final(self).wf(),
            res is Ok,
            final(self)@ == spec_add_profile(old(self)@, member, note@, spec_payload_key(member, note@)),
    {
        let id = payload_id(member, note.as_slice());
        self.add_profile_with_id(member, note, id);
        Ok(())
    }

    /// Dispatchable: a signed account registers as a validator; nothing is
    /// stored.
    pub fn register_validator(&mut self, origin: Origin) -> (res: Result<(), DispatchError<Error>>)
        requires
            old(self).wf(),
        ensures
            final(self)@ == old(self)@,
            final(self).wf(),
            res is Ok <==> origin is Signed,
            res is Err ==> res == Err::<(), DispatchError<Error>>(DispatchError::BadOrigin),
    {
        match ensure_signed(origin) {
            Ok(_) => Ok(()),
            Err(_) => Err(DispatchError::BadOrigin),
        }
    }

    /// Dispatchable: an origin that the runtime's add-remove check accepts
    /// adds a validator, refusing one that is already in the set.
    pub fn add_validator(&mut self, origin: Origin, validator_id: AccountId) -> (res: Result<(), DispatchError<Error>>)
        requires
            old(self).wf(),
        ensures
            final(self).wf(),
            !origin_permits(old(self)@.add_remove_origin, origin) ==> final(self)@ == old(self)@
                && res == Err::<(), DispatchError<Error>>(DispatchError::BadOrigin),
            origin_permits(old(self)@.add_remove_origin, origin) ==> {
                let (next, r) = spec_add_validator(old(self)@, validator_id);
                &&& final(self)@ == next
                &&& match r {
                    Ok(()) => res is Ok,
                    Err(e) => res == Err::<(), DispatchError<Error>>(DispatchError::Module(e)),
                }
            },
    {
        match ensure_origin(self.add_remove_origin, origin) {
            Ok(()) => {},
            Err(_) => return Err(DispatchError::BadOrigin),
        }
        match self.do_add_validator(validator_id) {
            Ok(()) => Ok(()),
            Err(e) => Err(DispatchError::Module(e)),
        }
    }

    /// Dispatchable: an origin that the runtime's add-remove check accepts
    /// removes a validator.
    pub fn remove_validator(&mut self, origin: Origin, validator_id: AccountId) -> (res: Result<(), DispatchError<Error>>)
        requires
            old(self).wf(),
        ensures
            final(self).wf(),
            !origin_permits(old(self)@.add_remove_origin, origin) ==> final(self)@ == old(self)@
                && res == Err::<(), DispatchError<Error>>(DispatchError::BadOrigin),
            origin_permits(old(self)@.add_remove_origin, origin) ==> {
                let (next, r) = spec_remove_validator(old(self)@, validator_id);
                &&& final(self)@ == next
                &&& match r {
                    Ok(()) => res is Ok,
                    Err(e) => res == Err::<(), DispatchError<Error>>(DispatchError::Module(e)),
                }
            },
    {
        match ensure_origin(self.add_remove_origin, origin) {
            Ok(()) => {},
            Err(_) => return Err(DispatchError::BadOrigin),
        }
        match self.do_remove_validator(validator_id) {
            Ok(()) => Ok(()),
            Err(e) => Err(DispatchError::Module(e)),
        }
    }

    /// Dispatchable: a signed account creates its profile with a note of at
    /// most `MAX_NOTE_LEN` bytes.
    pub fn create_profile(&mut self, origin: Origin, note: Vec<u8>) -> (res: Result<(), DispatchError<Error>>)
        requires
            old(self).wf(),
        ensures
            final(self).wf(),
            match origin {
                Origin::Signed(who) => if note@.len() <= MAX_NOTE_LEN {
                    &&& res is Ok
                    &&& final(self)@ == spec_add_profile(old(self)@, who, note@, spec_payload_key(who, note@))
                } else {
                    &&& res == Err::<(), DispatchError<Error>>(DispatchError::Module(Error::TooLong))
                    &&& final(self)@ == old(self)@
                },
                _ => res == Err::<(), DispatchError<Error>>(DispatchError::BadOrigin) && final(self)@ == old(self)@,
            },
    {
        let sender = match ensure_signed(origin) {
            Ok(who) => who,
            Err(_) => return Err(DispatchError::BadOrigin),
        };
        if note.len() > MAX_NOTE_LEN {
            return Err(DispatchError::Module(Error::TooLong));
        }
        match self.do_add_profile(sender, note) {
            Ok(()) => Ok(()),
            Err(e) => Err(DispatchError::Module(e)),
        }
    }

    /// Session hook: plans a new session. The validators reported offline
    /// are removed and their marks cleared, and the remaining validators
    /// are the new set.
    pub fn new_session(&mut self, new_index: u32) -> (res: Option<Vec<AccountId>>)
        requires
            old(self).wf(),
        ensures
            final(self).wf(),
            final(self)@ == spec_remove_offline_validators(old(self)@),
            res is Some,
            res.unwrap()@ == final(self)@.validators,
    {
        self.remove_offline_validators();
        Some(copy_accounts(&self.validators))
    }

    /// Offence hook: every offender is marked for removal, in order.
    pub fn report_offence(
        &mut self,
        reporters: Vec<AccountId>,
        offenders: Vec<(AccountId, AccountId)>,
    ) -> (res: Result<(), OffenceError>)
        requires
            old(self).wf(),
        ensures
            final(self).wf(),
            res is Ok,
            final(self)@ == (PalletView {
                offline_validators: old(self)@.offline_validators + offender_accounts(offenders@),
                ..old(self)@
            }),
    {
        let mut i: usize = 0;
        while i < offenders.len()
            invariant
                self.wf(),
                i <= offenders@.len(),
                self@ == (PalletView {
                    offline_validators: old(self)@.offline_validators + offender_accounts(offenders@.take(i as int)),
                    ..old(self)@
                }),
            decreases offenders@.len() - i,
        {
            let (v, _) = offenders[i];
            self.mark_for_removal(v);
            i = i + 1;
            proof {
                assert(offender_accounts(offenders@.take(i as int)) =~= offender_accounts(offenders@.take(i - 1)).push(v));
                assert(old(self)@.offline_validators + offender_accounts(offenders@.take(i as int))
                    =~= (old(self)@.offline_validators + offender_accounts(offenders@.take(i - 1))).push(v));
            }
        }
        proof {
            assert(offenders@.take(offenders@.len() as int) =~= offenders@);
        }
        Ok(())
    }

    /// Offence hook: no offence is known beforehand.
    pub fn is_known_offence(offenders: &[(AccountId, AccountId)], time_slot: u64) -> (res: bool)
        ensures
            !res,
    {
        false
    }

    /// Committee hook: the committee as stored.
    pub fn get_new_committee(&self) -> (res: Vec<(AccountId, u64)>)
        ensures
            res@ == self@.committee,
    {
        copy_pairs(&self.committee)
    }

    /// Session estimate: sessions have no average length.
    pub fn average_session_length() -> (res: u64)
        ensures
            res == 0,
    {
        0
    }

    /// Session estimate: the progress of the current session is unknown, at
    /// no cost.
    pub fn estimate_current_session_progress(now: u64) -> (res: (Option<Permill>, Weight))
        ensures
            res.0 is None,
            res.1 == (Weight { ref_time: 0, proof_size: 0 }),
    {
        (None, Weight { ref_time: 0, proof_size: 0 })
    }

    /// Session estimate: the next rotation is unknown, at no cost.
    pub fn estimate_next_session_rotation(now: u64) -> (res: (Option<u64>, Weight))
        ensures
            res.0 is None,
            res.1 == (Weight { ref_time: 0, proof_size: 0 }),
    {
        (None, Weight { ref_time: 0, proof_size: 0 })
    }

    /// The committee as stored.
    pub fn committee(&self) -> (res: Vec<(AccountId, u64)>)
        ensures
            res@ == self@.committee,
    {
        copy_pairs(&self.committee)
    }

    /// The note of `member`.
    pub fn notes(&self, member: AccountId) -> (res: Option<Vec<u8>>)
        ensures
            match res {
                Some(n) => self@.notes.contains_key(member) && self@.notes[member] == n@,
                None => !self@.notes.contains_key(member),
            },
    {
        match self.notes.get(&member) {
            Some(n) => Some(copy_bytes(n)),
            None => None,
        }
    }

    /// The profile stored under `id`.
    pub fn candidates(&self, id: [u8; 16]) -> (res: Option<Profile>)
        requires
            self.wf(),
        ensures
            match res {
                Some(p) => self@.candidates.contains_key(id) && self@.candidates[id] == p@,
                None => !self@.candidates.contains_key(id),
            },
    {
        match self.candidates.get(&id) {
            Some(p) => Some(Profile {
                id: p.id,
                reputation: p.reputation,
                addr: p.addr,
                note: copy_bytes(&p.note),
            }),
            None => None,
        }
    }

    /// The validators, in order.
    pub fn validators(&self) -> (res: Vec<AccountId>)
        ensures
            res@ == self@.validators,
    {
        copy_accounts(&self.validators)
    }

    /// The approved validators, in order.
    pub fn approved_validators(&self) -> (res: Vec<AccountId>)
        ensures
            res@ == self@.approved_validators,
    {
        copy_accounts(&self.approved_validators)
    }

    /// The validators marked for removal, in the order they were marked.
    pub fn validators_to_remove(&self) -> (res: Vec<AccountId>)
        ensures
            res@ == self@.offline_validators,
    {
        copy_accounts(&self.offline_validators)
    }

    /// The events reported so far, oldest first.
    pub fn events(&self) -> (res: &Vec<Event>)
        ensures
            res@ == self@.events,
    {
        &self.events
    }
}

/// The pallet's state at genesis.
pub struct GenesisConfig {
    pub initial_validators: Vec<AccountId>,
    pub initial_committee: Vec<AccountId>,
}

impl GenesisConfig {
    /// No validators and no committee.
    pub fn default() -> (g: Self)
        ensures
            g.initial_validators@.len() == 0,
            g.initial_committee@.len() == 0,
    {
        GenesisConfig { initial_validators: Vec::new(), initial_committee: Vec::new() }
    }

    /// Builds the genesis storage: the initial validators become the
    /// validator set. The initial committee is not stored.
    pub fn build(&self, pallet: &mut Pallet)
        requires
            old(pallet).wf(),
            initialization_allowed(old(pallet)@, self.initial_validators@),
        ensures
            final(pallet).wf(),
            final(pallet)@ == (PalletView { validators: self.initial_validators@, ..old(pallet)@ }),
    {
        pallet.initialize_validators(self.initial_validators.as_slice());
    }
}

/// A copy of a list of pairs.
fn copy_pairs(v: &Vec<(AccountId, u64)>) -> (res: Vec<(AccountId, u64)>)
    ensures
        res@ == v@,
{
    let mut res: Vec<(AccountId, u64)> = Vec::new();
    let mut i: usize = 0;
    while i < v.len()
        invariant
            i <= v@.len(),
            res@ == v@.take(i as int),
        decreases v@.len() - i,
    {
        res.push(v[i]);
        i = i + 1;
        proof {
            assert(res@ =~= v@.take(i as int));
        }
    }
    proof {
        assert(v@.take(v@.len() as int) =~= v@);
    }
    res
}

/// Converts a validator's account into its identification: itself.
pub struct ValidatorOf;

impl ValidatorOf {
    pub fn convert(account: AccountId) -> (res: Option<AccountId>)
        ensures
            res == Some(account),
    {
        Some(account)
    }
}

} // verus!
