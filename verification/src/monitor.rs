//! Presence monitor: the state machine behind the polling loop.
//!
//! Each tick the polling loop observes the world (readers enumerated,
//! UID queried) and feeds the observation to the pure transition function
//! here. A notification is produced only when the observed state differs
//! from the one last emitted, so duplicate ticks are suppressed; the loop
//! itself — the enumeration, the query, the cadence and the delivery of
//! notifications — lives with the caller.

use vstd::prelude::*;

use crate::errors::{is_transient, spec_message, CardError};
use crate::hex_codec::{encode_hex, hex_encode};

verus! {

/// Last-observed state of the reader slot, kept across polling ticks.
#[derive(Debug)]
pub enum PresenceState {
    /// No reader is attached.
    NoReader,
    /// A reader is attached, no card is seated. Also the initial state,
    /// so the first tick reports whatever it observes.
    ReaderIdle,
    /// A card with this UID is seated.
    CardPresent(Vec<u8>),
    /// The last tick failed with an unexpected condition.
    Error(String),
}

/// Mathematical image of a presence state.
pub enum PresenceView {
    NoReader,
    ReaderIdle,
    CardPresent(Seq<u8>),
    Error(Seq<char>),
}

impl View for PresenceState {
    type V = PresenceView;

    open spec fn view(&self) -> PresenceView {
        match self {
            PresenceState::NoReader => PresenceView::NoReader,
            PresenceState::ReaderIdle => PresenceView::ReaderIdle,
            PresenceState::CardPresent(uid) => PresenceView::CardPresent(uid@),
            PresenceState::Error(m) => PresenceView::Error(m@),
        }
    }
}

/// What one polling tick observed.
pub enum TickObservation {
    /// The reader list came back empty (or could not be had at all).
    NoReaders,
    /// A card answered the UID query with these bytes.
    CardUid(Vec<u8>),
    /// The connect or the query failed with this condition.
    Failed(CardError),
}

/// The notification shape handed to the collaborator layer: the card UID
/// as hexadecimal text, or an error text, or neither.
pub struct CardStatusPayload {
    pub uid: Option<String>,
    pub error: Option<String>,
}

/// Mathematical image of a notification.
pub struct PayloadView {
    pub uid: Option<Seq<char>>,
    pub error: Option<Seq<char>>,
}

impl View for CardStatusPayload {
    type V = PayloadView;

    open spec fn view(&self) -> PayloadView {
        PayloadView {
            uid: match self.uid {
                Some(s) => Some(s@),
                None => None,
            },
            error: match self.error {
                Some(s) => Some(s@),
                None => None,
            },
        }
    }
}

/// Transition rule of the monitor: an empty reader list means no reader;
/// a UID means a card is present; a missing or removed card folds into an
/// idle reader; a vanished reader folds into no reader; a sharing
/// conflict is ignored and the state kept; anything else is an error
/// state carrying the message.
pub open spec fn spec_step(s: PresenceView, obs: TickObservation) -> PresenceView {
    match obs {
        TickObservation::NoReaders => PresenceView::NoReader,
        TickObservation::CardUid(uid) => PresenceView::CardPresent(uid@),
        TickObservation::Failed(e) => if e is NoCardPresent || e is CardRemoved {
            PresenceView::ReaderIdle
        } else if e is ReaderUnavailable {
            PresenceView::NoReader
        } else if e is SharingViolation {
            s
        } else {
            PresenceView::Error(spec_message(e))
        },
    }
}

/// The notification each state is announced with.
pub open spec fn spec_payload_of(s: PresenceView) -> PayloadView {
    match s {
        PresenceView::NoReader => PayloadView { uid: None, error: Some("reader not found"@) },
        PresenceView::ReaderIdle => PayloadView { uid: None, error: None },
        PresenceView::CardPresent(uid) => PayloadView { uid: Some(hex_encode(uid)), error: None },
        PresenceView::Error(m) => PayloadView { uid: None, error: Some(m) },
    }
}

/// What a tick emits: a notification exactly when the state changed.
pub open spec fn spec_emission(s: PresenceView, obs: TickObservation) -> Option<PayloadView> {
    if spec_step(s, obs) == s {
        None
    } else {
        Some(spec_payload_of(spec_step(s, obs)))
    }
}

/// The state the monitor starts in: a reader presumed idle, so the first
/// tick reports whatever it actually observes.
pub fn initial_presence_state() -> (s: PresenceState)
    ensures
        s@ == PresenceView::ReaderIdle,
{
    PresenceState::ReaderIdle
}

/// The same observation fed twice settles: the state no longer moves and
/// the second tick emits nothing.
pub proof fn lemma_step_idempotent(s: PresenceView, obs: TickObservation)
    ensures
        spec_step(spec_step(s, obs), obs) == spec_step(s, obs),
        spec_emission(spec_step(s, obs), obs) is None,
{
}

/// The classification rule, as the monitor consumes it: from any healthy
/// state, a transient condition — missing card, removed card, vanished
/// reader, sharing conflict — never puts the monitor into the error
/// state; any other failure does, carrying exactly the failure's message.
pub proof fn lemma_transient_conditions_are_benign(s: PresenceView, e: CardError)
    requires
        !(s is Error),
    ensures
        is_transient(e) ==> !(spec_step(s, TickObservation::Failed(e)) is Error),
        !is_transient(e) ==> spec_step(s, TickObservation::Failed(e)) == PresenceView::Error(
            spec_message(e),
        ),
{
}

/// Duplicate suppression: when a tick's observation produces the state
/// already held — whatever earlier tick produced it — nothing is emitted,
/// so consecutive ticks observing the same state notify at most once.
pub proof fn lemma_duplicate_state_suppressed(s: PresenceView, obs: TickObservation)
    requires
        spec_step(s, obs) == s,
    ensures
        spec_emission(s, obs) is None,
{
}

fn bytes_eq(a: &Vec<u8>, b: &Vec<u8>) -> (r: bool)
    ensures
        r == (a@ == b@),
{
    if a.len() != b.len() {
        return false;
    }
    let mut i: usize = 0;
    while i < a.len()
        invariant
            a@.len() == b@.len(),
            i <= a@.len(),
            forall|j: int| 0 <= j < i ==> a@[j] == b@[j],
        decreases a@.len() - i,
    {
        if a[i] != b[i] {
            return false;
        }
        i = i + 1;
    }
    proof {
        assert(a@ =~= b@);
    }
    true
}

fn state_eq(a: &PresenceState, b: &PresenceState) -> (r: bool)
    ensures
        r == (a@ == b@),
{
    match (a, b) {
        (PresenceState::NoReader, PresenceState::NoReader) => true,
        (PresenceState::ReaderIdle, PresenceState::ReaderIdle) => true,
        (PresenceState::CardPresent(u1), PresenceState::CardPresent(u2)) => bytes_eq(u1, u2),
        (PresenceState::Error(m1), PresenceState::Error(m2)) => m1.eq(m2),
        _ => false,
    }
}

/// The notification announcing a state.
fn payload_of_state(s: &PresenceState) -> (p: CardStatusPayload)
    ensures
        p@ == spec_payload_of(s@),
{
    match s {
        PresenceState::NoReader => CardStatusPayload {
            uid: None,
            error: Some(String::from_str("reader not found")),
        },
        PresenceState::ReaderIdle => CardStatusPayload { uid: None, error: None },
        PresenceState::CardPresent(uid) => CardStatusPayload {
            uid: Some(encode_hex(uid.as_slice())),
            error: None,
        },
        PresenceState::Error(m) => CardStatusPayload { uid: None, error: Some(m.clone()) },
    }
}

/// One step of the monitor: moves the held state along the transition
/// rule and hands back a notification exactly when the state changed.
pub fn tick(state: &mut PresenceState, obs: TickObservation) -> (emit: Option<CardStatusPayload>)
    ensures
        final(state)@ == spec_step(old(state)@, obs),
        match emit {
            Some(p) => spec_emission(old(state)@, obs) == Some(p@),
            None => spec_emission(old(state)@, obs) is None,
        },
{
    let next: PresenceState = match obs {
        TickObservation::NoReaders => PresenceState::NoReader,
        TickObservation::CardUid(uid) => PresenceState::CardPresent(uid),
        TickObservation::Failed(e) => match e {
            CardError::NoCardPresent | CardError::CardRemoved => PresenceState::ReaderIdle,
            CardError::ReaderUnavailable => PresenceState::NoReader,
            CardError::SharingViolation => {
                return None;
            },
            _ => PresenceState::Error(e.message()),
        },
    };
    if state_eq(state, &next) {
        None
    } else {
        let payload = payload_of_state(&next);
        *state = next;
        Some(payload)
    }
}

} // verus!
