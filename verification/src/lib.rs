//! Verified core of a desktop companion application for MIFARE card
//! administration: APDU construction and interpretation, hexadecimal text
//! encoding at the command boundary, a typed error taxonomy, the card
//! operation sessions and the presence-monitor state machine. The PC/SC
//! calls themselves — connect, transmit, reader enumeration — are actions
//! these machines request of the embedding process.

pub mod api_client;
pub mod apdu;
pub mod errors;
pub mod hex_codec;
pub mod monitor;
pub mod nfc_handler;
pub mod session;
