//! Card operation sessions: the protocol sequencing as a state machine.
//!
//! One session carries one operation from validated request to outcome.
//! The machine decides every move — which APDU to send next, what each
//! response means, when the session is over — while its driver performs
//! the requested connect and transmit calls against the hardware and
//! hands back what happened. The ordering guarantee of the composite
//! operation (validate, then connect, load key, authenticate, operate,
//! strictly sequential, short-circuiting on the first failure) is thereby
//! part of the machine's contract, not of unverified plumbing.

use vstd::prelude::*;

use crate::apdu::{
    build_auth_apdu, build_get_uid_apdu, build_load_key_apdu, build_read_apdu,
    build_trailer_image, build_write_apdu, is_success_pair, spec_auth_apdu, spec_get_uid_apdu,
    spec_load_key_apdu, spec_read_apdu, spec_trailer_image, spec_write_apdu, status_ok,
    trailer_block_addr,
};
use crate::errors::{is_invalid_input, CardError, KeySlot};
use crate::hex_codec::{encode_hex, hex_decode, hex_encode, is_hex_str, lemma_hex_decode_len};
use crate::nfc_handler::{
    parse_key_hex, parse_key_slot, spec_auth_request_error, spec_key_error, spec_slot_of,
};

verus! {

/// Block data text that decodes to exactly 16 bytes: 32 hexadecimal
/// characters.
pub open spec fn valid_data_hex(s: Seq<char>) -> bool {
    is_hex_str(s) && s.len() == 32
}

/// The rejection a block-data text earns, if any: malformed hexadecimal
/// first, then a decoded length other than 16 bytes.
pub open spec fn spec_data_error(s: Seq<char>) -> Option<CardError> {
    if !is_hex_str(s) {
        Some(CardError::InvalidHex)
    } else if s.len() != 32 {
        Some(CardError::InvalidDataLength)
    } else {
        None
    }
}

/// The rejection a write request earns before any hardware access: the
/// key material and key type first, then the data text.
pub open spec fn spec_write_request_error(
    key_type: Seq<char>,
    key_hex: Seq<char>,
    data_hex: Seq<char>,
) -> Option<CardError> {
    if spec_auth_request_error(key_type, key_hex) is Some {
        spec_auth_request_error(key_type, key_hex)
    } else {
        spec_data_error(data_hex)
    }
}

/// The rejection a key-change request earns before any hardware access:
/// the current key and key type first, then each new key, then the
/// sector range.
pub open spec fn spec_change_keys_request_error(
    key_type: Seq<char>,
    current_key_hex: Seq<char>,
    new_key_a: Seq<char>,
    new_key_b: Seq<char>,
    sector: u8,
) -> Option<CardError> {
    if spec_auth_request_error(key_type, current_key_hex) is Some {
        spec_auth_request_error(key_type, current_key_hex)
    } else if spec_key_error(new_key_a) is Some {
        spec_key_error(new_key_a)
    } else if spec_key_error(new_key_b) is Some {
        spec_key_error(new_key_b)
    } else if sector > 39 {
        Some(CardError::InvalidSector)
    } else {
        None
    }
}

/// Decodes the block-data text and holds it to exactly 16 bytes, before
/// any transmission.
pub fn parse_data_hex(data_hex: &str) -> (r: Result<Vec<u8>, CardError>)
    ensures
        match r {
            Ok(d) => valid_data_hex(data_hex@) && d@ == hex_decode(data_hex@) && d@.len() == 16,
            Err(e) => Some(e) == spec_data_error(data_hex@),
        },
{
    match crate::hex_codec::decode_hex(data_hex) {
        Some(d) => {
            proof {
                lemma_hex_decode_len(data_hex@);
            }
            if d.len() == 16 {
                Ok(d)
            } else {
                Err(CardError::InvalidDataLength)
            }
        },
        None => Err(CardError::InvalidHex),
    }
}

/// What the read command hands the collaborator layer for each possible
/// response: on a success status word, the hexadecimal text of everything
/// before it; otherwise the raw bytes inside the failure.
pub fn read_block_result(resp: &Vec<u8>) -> (r: Result<String, CardError>)
    ensures
        status_ok(resp@) ==> (r matches Ok(s) && s@ == hex_encode(resp@.take(resp@.len() - 2))),
        !status_ok(resp@) ==> (r matches Err(e) && e matches CardError::BlockReadFailed(raw)
            && raw@ == resp@),
{
    match crate::apdu::interpret_read_response(resp) {
        Ok(data) => Ok(encode_hex(data.as_slice())),
        Err(e) => Err(e),
    }
}

/// Round trip of the data path: for a 16-byte payload `data`, the write
/// command carries exactly `data` after its header; a subsequent read
/// whose response carries those same bytes before a success status word
/// is accepted, yields `data` back, and its hexadecimal rendering decodes
/// to `data` again. That the card answers the read of a block with what
/// was last written there, given successful authentication with the
/// correct key and slot, is the card's own behaviour and is not provable
/// here.
pub proof fn lemma_write_read_round_trip(block: u8, data: Seq<u8>)
    requires
        data.len() == 16,
    ensures
        spec_write_apdu(block, data).skip(5) == data,
        status_ok(data + seq![0x90u8, 0x00u8]),
        (data + seq![0x90u8, 0x00u8]).take(data.len() as int) == data,
        hex_decode(hex_encode(data)) == data,
{
    crate::apdu::lemma_write_apdu_carries_data(block, data);
    let resp = data + seq![0x90u8, 0x00u8];
    assert(resp[resp.len() - 2] == 0x90u8 && resp[resp.len() - 1] == 0x00u8);
    assert(resp.take(data.len() as int) =~= data);
    crate::hex_codec::lemma_hex_round_trip(data);
}

/// Request validation rejects with the invalid-input class alone: what a
/// session refuses to begin with is never mistaken for a hardware
/// condition or a protocol failure.
pub proof fn lemma_validation_rejects_only_invalid_input(
    key_type: Seq<char>,
    key_hex: Seq<char>,
    data_hex: Seq<char>,
    new_key_a: Seq<char>,
    new_key_b: Seq<char>,
    sector: u8,
)
    ensures
        spec_auth_request_error(key_type, key_hex) matches Some(e) ==> is_invalid_input(e),
        spec_write_request_error(key_type, key_hex, data_hex) matches Some(e) ==> is_invalid_input(
            e,
        ),
        spec_change_keys_request_error(key_type, key_hex, new_key_a, new_key_b, sector)
            matches Some(e) ==> is_invalid_input(e),
{
}

/// What a session does once it is authenticated.
#[derive(Debug)]
pub enum OpRequest {
    /// Read one 16-byte block.
    ReadBlock { block: u8 },
    /// Write these 16 bytes to the block.
    WriteBlock { block: u8, data: Vec<u8> },
    /// Replace the sector's trailer: both keys and the fixed access bits.
    RewriteTrailer { sector: u8, key_a: Vec<u8>, key_b: Vec<u8> },
    /// Query the card's UID; the one operation that needs no key.
    QueryUid,
}

/// A request whose payload already passed validation.
pub open spec fn valid_request(r: OpRequest) -> bool {
    match r {
        OpRequest::ReadBlock { .. } => true,
        OpRequest::WriteBlock { data, .. } => data@.len() == 16,
        OpRequest::RewriteTrailer { sector, key_a, key_b } => sector <= 39 && key_a@.len() == 6
            && key_b@.len() == 6,
        OpRequest::QueryUid => true,
    }
}

/// The block an operation authenticates: the addressed block, or the
/// sector's trailer block for a key change.
pub open spec fn spec_auth_block(r: OpRequest) -> u8 {
    match r {
        OpRequest::ReadBlock { block } => block,
        OpRequest::WriteBlock { block, .. } => block,
        OpRequest::RewriteTrailer { sector, .. } => (sector * 4 + 3) as u8,
        OpRequest::QueryUid => 0,
    }
}

/// The one data exchange of an operation.
pub open spec fn spec_op_apdu(r: OpRequest) -> Seq<u8> {
    match r {
        OpRequest::ReadBlock { block } => spec_read_apdu(block),
        OpRequest::WriteBlock { block, data } => spec_write_apdu(block, data@),
        OpRequest::RewriteTrailer { sector, key_a, key_b } => spec_write_apdu(
            (sector * 4 + 3) as u8,
            spec_trailer_image(key_a@, key_b@),
        ),
        OpRequest::QueryUid => spec_get_uid_apdu(),
    }
}

/// How far the exchange sequence has come.
#[derive(Clone, Copy, Debug, PartialEq, Eq, Structural)]
pub enum Stage {
    /// Waiting for the connect call's outcome.
    Connecting,
    /// The load-key command is in flight.
    LoadingKey,
    /// The authenticate command is in flight.
    Authenticating,
    /// The operation's own command is in flight.
    Operating,
    /// The session is over; no further step is taken.
    Complete,
}

/// How a finished session ended well.
#[derive(Debug)]
pub enum OpOutcome {
    /// The block's bytes, as 32 hexadecimal characters.
    BlockData(String),
    /// The block was written.
    Written,
    /// The sector's keys and access bits were replaced.
    KeysChanged,
    /// The card's UID bytes.
    Uid(Vec<u8>),
}

/// What the session asks its driver to do next.
#[derive(Debug)]
pub enum Action {
    /// Open a shared-mode session on the chosen reader.
    Connect,
    /// Send this APDU and hand back the raw response.
    Transmit(Vec<u8>),
    /// The operation succeeded; the session is over.
    Succeed(OpOutcome),
    /// The operation failed; the session is over.
    Fail(CardError),
}

/// What the driver observed for the last requested action.
#[derive(Debug)]
pub enum Event {
    /// The connect call opened a session.
    Connected,
    /// The transmit call answered with these raw bytes.
    Response(Vec<u8>),
    /// The connect or transmit call failed with this condition.
    Failed(CardError),
}

/// One card operation in flight: the loaded key material, the slot it
/// authenticates with, the validated request, and how far the fixed
/// exchange sequence has come.
#[derive(Debug)]
pub struct CardOperation {
    pub key: Vec<u8>,
    pub slot: KeySlot,
    pub request: OpRequest,
    pub stage: Stage,
}

impl CardOperation {
    /// What the constructors establish and every step preserves: the
    /// request is validated, and any operation that authenticates holds a
    /// 6-byte key.
    pub open spec fn wf(self) -> bool {
        &&& valid_request(self.request)
        &&& (self.request is QueryUid || self.key@.len() == 6)
    }

    /// The block this operation authenticates.
    fn auth_block(&self) -> (b: u8)
        requires
            self.wf(),
        ensures
            b == spec_auth_block(self.request),
    {
        match &self.request {
            OpRequest::ReadBlock { block } => *block,
            OpRequest::WriteBlock { block, .. } => *block,
            OpRequest::RewriteTrailer { sector, .. } => trailer_block_addr(*sector),
            OpRequest::QueryUid => 0,
        }
    }

    /// The operation's own APDU.
    fn op_apdu(&self) -> (apdu: Vec<u8>)
        requires
            self.wf(),
        ensures
            apdu@ == spec_op_apdu(self.request),
    {
        match &self.request {
            OpRequest::ReadBlock { block } => build_read_apdu(*block),
            OpRequest::WriteBlock { block, data } => build_write_apdu(*block, data),
            OpRequest::RewriteTrailer { sector, key_a, key_b } => {
                let image = build_trailer_image(key_a, key_b);
                build_write_apdu(trailer_block_addr(*sector), &image)
            },
            OpRequest::QueryUid => build_get_uid_apdu(),
        }
    }

    /// One move of the machine. A failure of the driver's call ends the
    /// session with that condition, wherever it strikes; a response moves
    /// the fixed sequence along: a loaded key is followed by the
    /// authenticate command, a successful authentication by the
    /// operation's own command, whose response settles the outcome. Any
    /// non-success status word short-circuits with the failure that names
    /// the exchange it came from.
    pub fn step(&mut self, event: Event) -> (a: Action)
        requires
            old(self).wf(),
            !(old(self).stage is Complete),
            old(self).stage is Connecting ==> !(event is Response),
            !(old(self).stage is Connecting) ==> !(event is Connected),
        ensures
            final(self).wf(),
            final(self).request == old(self).request,
            final(self).key == old(self).key,
            final(self).slot == old(self).slot,
            event matches Event::Failed(e) ==> final(self).stage is Complete && a
                == Action::Fail(e),
            old(self).stage is Connecting && event is Connected ==> {
                if old(self).request is QueryUid {
                    &&& final(self).stage is Operating
                    &&& (a matches Action::Transmit(apdu) && apdu@ == spec_get_uid_apdu())
                } else {
                    &&& final(self).stage is LoadingKey
                    &&& (a matches Action::Transmit(apdu) && apdu@ == spec_load_key_apdu(
                        old(self).key@,
                    ))
                }
            },
            old(self).stage is LoadingKey ==> (event matches Event::Response(resp) ==> {
                if is_success_pair(resp@) {
                    &&& final(self).stage is Authenticating
                    &&& (a matches Action::Transmit(apdu) && apdu@ == spec_auth_apdu(
                        spec_auth_block(old(self).request),
                        old(self).slot,
                    ))
                } else {
                    &&& final(self).stage is Complete
                    &&& (a matches Action::Fail(e) && e matches CardError::KeyLoadFailed(raw)
                        && raw@ == resp@)
                }
            }),
            old(self).stage is Authenticating ==> (event matches Event::Response(resp) ==> {
                if is_success_pair(resp@) {
                    &&& final(self).stage is Operating
                    &&& (a matches Action::Transmit(apdu) && apdu@ == spec_op_apdu(
                        old(self).request,
                    ))
                } else {
                    &&& final(self).stage is Complete
                    &&& a == Action::Fail(CardError::AuthenticationFailed {
                        block: spec_auth_block(old(self).request),
                        slot: old(self).slot,
                    })
                }
            }),
            old(self).stage is Operating ==> (event matches Event::Response(resp) ==> {
                &&& final(self).stage is Complete
                &&& match old(self).request {
                    OpRequest::ReadBlock { .. } => if status_ok(resp@) {
                        a matches Action::Succeed(OpOutcome::BlockData(s)) && s@ == hex_encode(
                            resp@.take(resp@.len() - 2),
                        )
                    } else {
                        a matches Action::Fail(e) && e matches CardError::BlockReadFailed(raw)
                            && raw@ == resp@
                    },
                    OpRequest::WriteBlock { .. } => if is_success_pair(resp@) {
                        a == Action::Succeed(OpOutcome::Written)
                    } else {
                        a matches Action::Fail(e) && e matches CardError::BlockWriteFailed(raw)
                            && raw@ == resp@
                    },
                    OpRequest::RewriteTrailer { .. } => if is_success_pair(resp@) {
                        a == Action::Succeed(OpOutcome::KeysChanged)
                    } else {
                        a matches Action::Fail(e) && e matches CardError::BlockWriteFailed(raw)
                            && raw@ == resp@
                    },
                    OpRequest::QueryUid => if status_ok(resp@) {
                        a matches Action::Succeed(OpOutcome::Uid(uid)) && uid@ == resp@.take(
                            resp@.len() - 2,
                        )
                    } else {
                        a matches Action::Fail(e) && e matches CardError::UidReadFailed(raw)
                            && raw@ == resp@
                    },
                }
            }),
    {
        match event {
            Event::Failed(e) => {
                self.stage = Stage::Complete;
                Action::Fail(e)
            },
            Event::Connected => {
                match &self.request {
                    OpRequest::QueryUid => {
                        self.stage = Stage::Operating;
                        Action::Transmit(build_get_uid_apdu())
                    },
                    _ => {
                        let apdu = build_load_key_apdu(&self.key);
                        self.stage = Stage::LoadingKey;
                        Action::Transmit(apdu)
                    },
                }
            },
            Event::Response(resp) => {
                match self.stage {
                    Stage::LoadingKey => {
                        if crate::apdu::response_is_success_pair(&resp) {
                            let apdu = build_auth_apdu(self.auth_block(), self.slot);
                            self.stage = Stage::Authenticating;
                            Action::Transmit(apdu)
                        } else {
                            self.stage = Stage::Complete;
                            Action::Fail(CardError::KeyLoadFailed(resp))
                        }
                    },
                    Stage::Authenticating => {
                        if crate::apdu::response_is_success_pair(&resp) {
                            let apdu = self.op_apdu();
                            self.stage = Stage::Operating;
                            Action::Transmit(apdu)
                        } else {
                            let failure = CardError::AuthenticationFailed {
                                block: self.auth_block(),
                                slot: self.slot,
                            };
                            self.stage = Stage::Complete;
                            Action::Fail(failure)
                        }
                    },
                    Stage::Operating => {
                        self.stage = Stage::Complete;
                        match &self.request {
                            OpRequest::ReadBlock { .. } => match read_block_result(&resp) {
                                Ok(s) => Action::Succeed(OpOutcome::BlockData(s)),
                                Err(e) => Action::Fail(e),
                            },
                            OpRequest::WriteBlock { .. } => match crate::apdu::check_write_response(
                                &resp,
                            ) {
                                Ok(()) => Action::Succeed(OpOutcome::Written),
                                Err(e) => Action::Fail(e),
                            },
                            OpRequest::RewriteTrailer { .. } => match crate::apdu::check_write_response(
                                &resp,
                            ) {
                                Ok(()) => Action::Succeed(OpOutcome::KeysChanged),
                                Err(e) => Action::Fail(e),
                            },
                            OpRequest::QueryUid => match crate::apdu::interpret_uid_response(
                                &resp,
                            ) {
                                Ok(uid) => Action::Succeed(OpOutcome::Uid(uid)),
                                Err(e) => Action::Fail(e),
                            },
                        }
                    },
                    _ => vstd::pervasive::unreached(),
                }
            },
        }
    }
}

/// Begins a block read: the key material is validated before any hardware
/// access — exactly the stated rejection comes back for a bad request —
/// and the first action of a valid one is the connect.
pub fn begin_read(block_addr: u8, key_type: &str, key_hex: &str) -> (r: Result<
    (CardOperation, Action),
    CardError,
>)
    ensures
        spec_auth_request_error(key_type@, key_hex@) matches Some(err) ==> r == Err::<
            (CardOperation, Action),
            CardError,
        >(err),
        spec_auth_request_error(key_type@, key_hex@) is None ==> (r matches Ok((op, a)) && {
            &&& op.wf()
            &&& op.stage is Connecting
            &&& op.key@ == hex_decode(key_hex@)
            &&& op.slot == spec_slot_of(key_type@)
            &&& (op.request matches OpRequest::ReadBlock { block } && block == block_addr)
            &&& a is Connect
        }),
{
    let key = match parse_key_hex(key_hex) {
        Ok(k) => k,
        Err(e) => {
            return Err(e);
        },
    };
    let slot = match parse_key_slot(key_type) {
        Ok(s) => s,
        Err(e) => {
            return Err(e);
        },
    };
    let op = CardOperation {
        key,
        slot,
        request: OpRequest::ReadBlock { block: block_addr },
        stage: Stage::Connecting,
    };
    Ok((op, Action::Connect))
}

/// Begins a block write: key material and data text are validated before
/// any hardware access, in that order.
pub fn begin_write(block_addr: u8, key_type: &str, key_hex: &str, data_hex: &str) -> (r: Result<
    (CardOperation, Action),
    CardError,
>)
    ensures
        spec_write_request_error(key_type@, key_hex@, data_hex@) matches Some(err) ==> r == Err::<
            (CardOperation, Action),
            CardError,
        >(err),
        spec_write_request_error(key_type@, key_hex@, data_hex@) is None ==> (r matches Ok(
            (op, a),
        ) && {
            &&& op.wf()
            &&& op.stage is Connecting
            &&& op.key@ == hex_decode(key_hex@)
            &&& op.slot == spec_slot_of(key_type@)
            &&& (op.request matches OpRequest::WriteBlock { block, data } && block == block_addr
                && data@ == hex_decode(data_hex@))
            &&& a is Connect
        }),
{
    let key = match parse_key_hex(key_hex) {
        Ok(k) => k,
        Err(e) => {
            return Err(e);
        },
    };
    let slot = match parse_key_slot(key_type) {
        Ok(s) => s,
        Err(e) => {
            return Err(e);
        },
    };
    let data = match parse_data_hex(data_hex) {
        Ok(d) => d,
        Err(e) => {
            return Err(e);
        },
    };
    let op = CardOperation {
        key,
        slot,
        request: OpRequest::WriteBlock { block: block_addr, data },
        stage: Stage::Connecting,
    };
    Ok((op, Action::Connect))
}

/// Begins a sector key change: the current key, the key type, both new
/// keys and the sector range are validated before any hardware access, in
/// that order; the session authenticates the sector's trailer block and
/// replaces it in one write.
pub fn begin_change_keys(
    sector: u8,
    key_type: &str,
    current_key_hex: &str,
    new_key_a: &str,
    new_key_b: &str,
) -> (r: Result<(CardOperation, Action), CardError>)
    ensures
        spec_change_keys_request_error(key_type@, current_key_hex@, new_key_a@, new_key_b@, sector)
            matches Some(err) ==> r == Err::<(CardOperation, Action), CardError>(err),
        spec_change_keys_request_error(key_type@, current_key_hex@, new_key_a@, new_key_b@, sector)
            is None ==> (r matches Ok((op, a)) && {
            &&& op.wf()
            &&& op.stage is Connecting
            &&& op.key@ == hex_decode(current_key_hex@)
            &&& op.slot == spec_slot_of(key_type@)
            &&& (op.request matches OpRequest::RewriteTrailer { sector: s, key_a, key_b } && s
                == sector && key_a@ == hex_decode(new_key_a@) && key_b@ == hex_decode(new_key_b@))
            &&& a is Connect
        }),
{
    let current_key = match parse_key_hex(current_key_hex) {
        Ok(k) => k,
        Err(e) => {
            return Err(e);
        },
    };
    let slot = match parse_key_slot(key_type) {
        Ok(s) => s,
        Err(e) => {
            return Err(e);
        },
    };
    let key_a = match parse_key_hex(new_key_a) {
        Ok(k) => k,
        Err(e) => {
            return Err(e);
        },
    };
    let key_b = match parse_key_hex(new_key_b) {
        Ok(k) => k,
        Err(e) => {
            return Err(e);
        },
    };
    if sector > 39 {
        return Err(CardError::InvalidSector);
    }
    let op = CardOperation {
        key: current_key,
        slot,
        request: OpRequest::RewriteTrailer { sector, key_a, key_b },
        stage: Stage::Connecting,
    };
    Ok((op, Action::Connect))
}

/// Begins a UID query: no key, no validation, no authentication — connect
/// and ask.
pub fn begin_uid_query() -> (r: (CardOperation, Action))
    ensures
        ({
            let (op, a) = r;
            &&& op.wf()
            &&& op.stage is Connecting
            &&& op.request is QueryUid
            &&& a is Connect
        }),
{
    let op = CardOperation {
        key: Vec::new(),
        slot: KeySlot::A,
        request: OpRequest::QueryUid,
        stage: Stage::Connecting,
    };
    (op, Action::Connect)
}

} // verus!
