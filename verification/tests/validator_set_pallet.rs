use potw_pallets::encoding::payload_id;
use potw_pallets::origin::{DispatchError, Origin, OriginCheck};
use potw_pallets::validator_set::{
    Config, Error, Event, GenesisConfig, Pallet, Permill, Profile, ValidatorOf, Weight,
};

fn config(min_authorities: u32) -> Config {
    Config { min_authorities, add_remove_origin: OriginCheck::Root }
}

fn pallet_with(min: u32, validators: &[u64]) -> Pallet {
    let mut p = Pallet::new(config(min));
    p.initialize_validators(validators);
    p
}

#[test]
fn genesis_sets_validators() {
    let mut g = GenesisConfig::default();
    assert!(g.initial_validators.is_empty() && g.initial_committee.is_empty());
    g.initial_validators = vec![1, 2, 3];
    g.initial_committee = vec![9];
    let mut p = Pallet::new(config(2));
    g.build(&mut p);
    assert_eq!(p.validators(), vec![1, 2, 3]);
    assert!(p.committee().is_empty());
}

#[test]
fn add_validator_appends_and_refuses_duplicates() {
    let mut p = pallet_with(1, &[1, 2]);
    assert_eq!(p.do_add_validator(3), Ok(()));
    assert_eq!(p.validators(), vec![1, 2, 3]);
    assert_eq!(p.do_add_validator(2), Err(Error::Duplicate));
    assert_eq!(p.validators(), vec![1, 2, 3]);
    assert_eq!(p.events(), &vec![Event::ValidatorAdditionInitiated(3)]);
}

#[test]
fn remove_validator_by_root() {
    let mut p = pallet_with(2, &[1, 2, 3]);
    assert_eq!(p.remove_validator(Origin::Root, 2), Ok(()));
    assert_eq!(p.validators(), vec![1, 3]);
    assert_eq!(p.events(), &vec![Event::ValidatorRemovalInitiated(2)]);
}

#[test]
fn remove_validator_needs_root() {
    let mut p = pallet_with(1, &[1, 2, 3]);
    assert_eq!(p.remove_validator(Origin::Signed(1), 2), Err(DispatchError::BadOrigin));
    assert_eq!(p.remove_validator(Origin::Unsigned, 2), Err(DispatchError::BadOrigin));
    assert_eq!(p.validators(), vec![1, 2, 3]);
}

#[test]
fn remove_validator_refused_below_minimum() {
    let mut p = pallet_with(2, &[1, 2]);
    assert_eq!(
        p.remove_validator(Origin::Root, 1),
        Err(DispatchError::Module(Error::TooLowValidatorCount))
    );
    assert_eq!(p.validators(), vec![1, 2]);
    assert!(p.events().is_empty());
}

#[test]
fn remove_of_unknown_validator_is_reported() {
    let mut p = pallet_with(1, &[1, 2]);
    assert_eq!(p.do_remove_validator(9), Ok(()));
    assert_eq!(p.validators(), vec![1, 2]);
    assert_eq!(p.events(), &vec![Event::ValidatorRemovalInitiated(9)]);
}

#[test]
fn remove_takes_out_every_occurrence() {
    let mut p = pallet_with(0, &[1, 2, 1, 3]);
    assert_eq!(p.do_remove_validator(1), Ok(()));
    assert_eq!(p.validators(), vec![2, 3]);
}

#[test]
fn remove_from_empty_set_with_no_minimum() {
    let mut p = Pallet::new(config(0));
    assert_eq!(p.do_remove_validator(1), Ok(()));
    assert!(p.validators().is_empty());
}

#[test]
fn add_then_remove_restores_validators() {
    let mut p = pallet_with(3, &[1, 2, 3]);
    p.do_add_validator(4).unwrap();
    p.do_remove_validator(4).unwrap();
    assert_eq!(p.validators(), vec![1, 2, 3]);
    assert_eq!(
        p.events(),
        &vec![Event::ValidatorAdditionInitiated(4), Event::ValidatorRemovalInitiated(4)]
    );
}

#[test]
fn removal_keeps_minimum() {
    let mut p = pallet_with(2, &[1, 2, 3]);
    assert_eq!(p.do_remove_validator(1), Ok(()));
    assert_eq!(p.do_remove_validator(2), Err(Error::TooLowValidatorCount));
    assert_eq!(p.validators().len(), 2);
}

#[test]
fn offline_validators_are_purged() {
    let mut p = pallet_with(1, &[1, 2, 3, 4]);
    p.mark_for_removal(2);
    p.mark_for_removal(4);
    assert_eq!(p.validators_to_remove(), vec![2, 4]);
    p.remove_offline_validators();
    assert_eq!(p.validators(), vec![1, 3]);
    assert!(p.validators_to_remove().is_empty());
}

#[test]
fn reported_offenders_are_marked_then_purged() {
    let mut p = pallet_with(1, &[1, 2, 3]);
    assert_eq!(p.report_offence(vec![7], vec![(3, 3), (1, 1)]), Ok(()));
    assert_eq!(p.validators_to_remove(), vec![3, 1]);
    p.remove_offline_validators();
    assert_eq!(p.validators(), vec![2]);
    assert!(!Pallet::is_known_offence(&[(3, 3)], 0));
}

#[test]
fn create_profile_stores_profile_and_note() {
    let mut p = Pallet::new(config(0));
    assert_eq!(p.create_profile(Origin::Signed(7), b"hello".to_vec()), Ok(()));
    let id = [152, 73, 1, 184, 160, 84, 246, 136, 25, 154, 103, 186, 50, 224, 11, 61];
    assert_eq!(payload_id(7, b"hello"), id);
    assert_eq!(
        p.candidates(id),
        Some(Profile { id, reputation: 0, addr: 7, note: b"hello".to_vec() })
    );
    assert_eq!(p.notes(7), Some(b"hello".to_vec()));
    assert_eq!(p.notes(8), None);
    assert_eq!(p.events(), &vec![Event::NewProfile(7, id)]);
}

#[test]
fn create_profile_with_longest_note() {
    let mut p = Pallet::new(config(0));
    let note = vec![b'x'; 1000];
    assert_eq!(p.create_profile(Origin::Signed(3), note.clone()), Ok(()));
    let id = [203, 233, 116, 183, 187, 33, 174, 221, 47, 233, 4, 47, 70, 54, 206, 219];
    assert_eq!(p.candidates(id).unwrap().note, note);
}

#[test]
fn create_profile_refuses_long_note() {
    let mut p = Pallet::new(config(0));
    assert_eq!(
        p.create_profile(Origin::Signed(3), vec![0u8; 1001]),
        Err(DispatchError::Module(Error::TooLong))
    );
    assert_eq!(p.notes(3), None);
    assert!(p.events().is_empty());
}

#[test]
fn create_profile_needs_signed_origin() {
    let mut p = Pallet::new(config(0));
    assert_eq!(p.create_profile(Origin::Root, vec![1]), Err(DispatchError::BadOrigin));
    assert_eq!(p.notes(0), None);
}

#[test]
fn new_note_replaces_old_note() {
    let mut p = Pallet::new(config(0));
    p.create_profile(Origin::Signed(1), b"a".to_vec()).unwrap();
    p.create_profile(Origin::Signed(1), b"b".to_vec()).unwrap();
    assert_eq!(p.notes(1), Some(b"b".to_vec()));
    assert!(p.candidates(payload_id(1, b"a")).is_some());
    assert!(p.candidates(payload_id(1, b"b")).is_some());
}

#[test]
fn register_validator_needs_signed_origin() {
    let mut p = pallet_with(0, &[1]);
    assert_eq!(p.register_validator(Origin::Signed(2)), Ok(()));
    assert_eq!(p.register_validator(Origin::Root), Err(DispatchError::BadOrigin));
    assert_eq!(p.validators(), vec![1]);
}

#[test]
fn session_hooks() {
    let p = pallet_with(0, &[1, 2]);
    assert!(p.get_new_committee().is_empty());
    assert!(p.approved_validators().is_empty());
    assert_eq!(Pallet::average_session_length(), 0);
    assert_eq!(
        Pallet::estimate_current_session_progress(5),
        (None::<Permill>, Weight { ref_time: 0, proof_size: 0 })
    );
    assert_eq!(
        Pallet::estimate_next_session_rotation(5),
        (None, Weight { ref_time: 0, proof_size: 0 })
    );
    assert_eq!(ValidatorOf::convert(4), Some(4));
}

#[test]
fn new_session_purges_offline_and_hands_over_the_set() {
    let mut p = pallet_with(0, &[1, 2, 3]);
    assert_eq!(p.new_session(1), Some(vec![1, 2, 3]));
    p.mark_for_removal(2);
    assert_eq!(p.new_session(2), Some(vec![1, 3]));
    assert!(p.validators_to_remove().is_empty());
    assert_eq!(p.validators(), vec![1, 3]);
}

#[test]
fn remove_non_validator_at_minimum_succeeds() {
    let mut p = pallet_with(2, &[1, 2]);
    assert_eq!(p.remove_validator(Origin::Root, 3), Ok(()));
    assert_eq!(p.validators(), vec![1, 2]);
    assert_eq!(p.events(), &vec![Event::ValidatorRemovalInitiated(3)]);
}

#[test]
fn remove_non_validator_below_minimum_is_refused() {
    let mut p = pallet_with(3, &[1, 2]);
    assert_eq!(p.do_remove_validator(3), Err(Error::TooLowValidatorCount));
    assert_eq!(p.validators(), vec![1, 2]);
}

#[test]
fn add_validator_by_configured_origin() {
    let mut p = pallet_with(0, &[1]);
    assert_eq!(p.add_validator(Origin::Signed(1), 2), Err(DispatchError::BadOrigin));
    assert_eq!(p.add_validator(Origin::Root, 2), Ok(()));
    assert_eq!(p.add_validator(Origin::Root, 2), Err(DispatchError::Module(Error::Duplicate)));
    assert_eq!(p.validators(), vec![1, 2]);
    assert_eq!(p.events(), &vec![Event::ValidatorAdditionInitiated(2)]);
}

#[test]
fn add_and_remove_by_a_signing_account() {
    let mut p = Pallet::new(Config { min_authorities: 0, add_remove_origin: OriginCheck::SignedBy(9) });
    assert_eq!(p.add_validator(Origin::Root, 5), Err(DispatchError::BadOrigin));
    assert_eq!(p.add_validator(Origin::Signed(8), 5), Err(DispatchError::BadOrigin));
    assert_eq!(p.add_validator(Origin::Signed(9), 5), Ok(()));
    assert_eq!(p.remove_validator(Origin::Root, 5), Err(DispatchError::BadOrigin));
    assert_eq!(p.remove_validator(Origin::Signed(9), 5), Ok(()));
    assert!(p.validators().is_empty());
}

#[test]
fn add_by_any_signed_origin() {
    let mut p = Pallet::new(Config { min_authorities: 0, add_remove_origin: OriginCheck::Signed });
    assert_eq!(p.add_validator(Origin::Unsigned, 5), Err(DispatchError::BadOrigin));
    assert_eq!(p.add_validator(Origin::Signed(3), 5), Ok(()));
}
