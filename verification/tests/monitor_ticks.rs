use admin_core::errors::CardError;
use admin_core::monitor::{initial_presence_state, tick, TickObservation};

#[test]
fn empty_reader_list_notifies_once_then_stays_silent() {
    let mut state = initial_presence_state();
    let first = tick(&mut state, TickObservation::NoReaders).expect("a state change");
    assert_eq!(first.uid, None);
    assert_eq!(first.error, Some(String::from("reader not found")));
    assert!(tick(&mut state, TickObservation::NoReaders).is_none());
    assert!(tick(&mut state, TickObservation::NoReaders).is_none());
}

#[test]
fn card_appearance_notifies_once_with_the_hex_uid() {
    let mut state = initial_presence_state();
    let uid = vec![0x04, 0xa2, 0x2b, 0x1c];
    let first = tick(&mut state, TickObservation::CardUid(uid.clone())).expect("a state change");
    assert_eq!(first.uid, Some(String::from("04a22b1c")));
    assert_eq!(first.error, None);
    assert!(tick(&mut state, TickObservation::CardUid(uid.clone())).is_none());
    assert!(tick(&mut state, TickObservation::CardUid(uid)).is_none());
}

#[test]
fn a_different_card_notifies_again() {
    let mut state = initial_presence_state();
    assert!(tick(&mut state, TickObservation::CardUid(vec![0x01])).is_some());
    let second = tick(&mut state, TickObservation::CardUid(vec![0x02])).expect("a new card");
    assert_eq!(second.uid, Some(String::from("02")));
}

#[test]
fn card_removal_folds_into_an_idle_reader() {
    let mut state = initial_presence_state();
    assert!(tick(&mut state, TickObservation::CardUid(vec![0x01])).is_some());
    let removed = tick(
        &mut state,
        TickObservation::Failed(CardError::NoCardPresent),
    )
    .expect("a state change");
    assert_eq!(removed.uid, None);
    assert_eq!(removed.error, None);
    assert!(tick(&mut state, TickObservation::Failed(CardError::CardRemoved)).is_none());
    assert!(tick(&mut state, TickObservation::Failed(CardError::NoCardPresent)).is_none());
}

#[test]
fn vanished_reader_folds_into_no_reader() {
    let mut state = initial_presence_state();
    assert!(tick(&mut state, TickObservation::CardUid(vec![0x01])).is_some());
    let gone = tick(
        &mut state,
        TickObservation::Failed(CardError::ReaderUnavailable),
    )
    .expect("a state change");
    assert_eq!(gone.uid, None);
    assert_eq!(gone.error, Some(String::from("reader not found")));
    assert!(tick(&mut state, TickObservation::NoReaders).is_none());
}

#[test]
fn sharing_violation_is_ignored_and_keeps_the_state() {
    let mut state = initial_presence_state();
    assert!(tick(&mut state, TickObservation::CardUid(vec![0x01])).is_some());
    assert!(tick(
        &mut state,
        TickObservation::Failed(CardError::SharingViolation)
    )
    .is_none());
    // The held state survived the conflict: the same card is no news.
    assert!(tick(&mut state, TickObservation::CardUid(vec![0x01])).is_none());
}

#[test]
fn unexpected_failure_notifies_with_its_message_once() {
    let mut state = initial_presence_state();
    let boom = tick(
        &mut state,
        TickObservation::Failed(CardError::HardwareError(String::from("boom"))),
    )
    .expect("a state change");
    assert_eq!(boom.uid, None);
    assert_eq!(boom.error, Some(String::from("hardware error: boom")));
    assert!(tick(
        &mut state,
        TickObservation::Failed(CardError::HardwareError(String::from("boom")))
    )
    .is_none());
}

#[test]
fn uid_query_failure_is_an_error_state() {
    let mut state = initial_presence_state();
    let e = tick(
        &mut state,
        TickObservation::Failed(CardError::UidReadFailed(vec![0x63, 0x00])),
    )
    .expect("a state change");
    assert_eq!(e.uid, None);
    assert_eq!(e.error, Some(String::from("failed to read card uid: 6300")));
}

#[test]
fn recovery_after_error_notifies() {
    let mut state = initial_presence_state();
    assert!(tick(
        &mut state,
        TickObservation::Failed(CardError::HardwareError(String::from("boom")))
    )
    .is_some());
    let back = tick(&mut state, TickObservation::CardUid(vec![0xaa])).expect("a state change");
    assert_eq!(back.uid, Some(String::from("aa")));
    assert_eq!(back.error, None);
}
