//! APDU construction and response interpretation for MIFARE operations.
//!
//! Commands are fixed byte sequences with the block address, key material
//! or block data spliced in; a response is a byte sequence whose last two
//! bytes are the status word, `90 00` meaning success. Any other status
//! word is surfaced with the raw bytes for diagnosis.

use vstd::prelude::*;
use vstd::slice::slice_to_vec;

use crate::errors::{CardError, KeySlot};

verus! {

/// Address of the sector trailer block: the last of the four blocks
/// of a MIFARE Classic sector.
pub fn trailer_block_addr(sector: u8) -> (addr: u8)
    requires
        sector <= 39,
    ensures
        addr == sector * 4 + 3,
{
    sector * 4 + 3
}

/// Load-key command: class `FF 82`, then the 6-byte key.
pub open spec fn spec_load_key_apdu(key: Seq<u8>) -> Seq<u8> {
    seq![0xFFu8, 0x82u8, 0x00u8, 0x00u8, 0x06u8] + key
}

/// Authenticate command: class `FF 86`, referencing the loaded key and
/// naming the block and the key slot.
pub open spec fn spec_auth_apdu(block: u8, slot: KeySlot) -> Seq<u8> {
    seq![0xFFu8, 0x86u8, 0x00u8, 0x00u8, 0x05u8, 0x01u8, 0x00u8, block, slot.spec_code(), 0x00u8]
}

/// Read-block command: `FF B0 00 <block> 10`.
pub open spec fn spec_read_apdu(block: u8) -> Seq<u8> {
    seq![0xFFu8, 0xB0u8, 0x00u8, block, 0x10u8]
}

/// Write-block command: `FF D6 00 <block> 10`, then the 16 data bytes.
pub open spec fn spec_write_apdu(block: u8, data: Seq<u8>) -> Seq<u8> {
    seq![0xFFu8, 0xD6u8, 0x00u8, block, 0x10u8] + data
}

/// UID query: `FF CA 00 00 00`.
pub open spec fn spec_get_uid_apdu() -> Seq<u8> {
    seq![0xFFu8, 0xCAu8, 0x00u8, 0x00u8, 0x00u8]
}

/// Sector-trailer image: key A, the fixed access bits `FF 07 80 69`,
/// key B — 16 bytes replaced atomically by one write.
pub open spec fn spec_trailer_image(key_a: Seq<u8>, key_b: Seq<u8>) -> Seq<u8> {
    key_a + seq![0xFFu8, 0x07u8, 0x80u8, 0x69u8] + key_b
}

/// The response carries a success status word in its last two bytes.
pub open spec fn status_ok(resp: Seq<u8>) -> bool {
    resp.len() >= 2 && resp[resp.len() - 2] == 0x90u8 && resp[resp.len() - 1] == 0x00u8
}

/// The response is exactly the success status word and nothing else.
pub open spec fn is_success_pair(resp: Seq<u8>) -> bool {
    resp.len() == 2 && resp[0] == 0x90u8 && resp[1] == 0x00u8
}

/// Layout of the rewritten trailer: one 16-byte write replaces key A,
/// the access bits and key B atomically — the new key A is the first six
/// bytes of the image, the fixed access bits `FF 07 80 69` the next four,
/// the new key B the last six. Whether the card then accepts the new key
/// and refuses the old is the card's own behaviour and is not provable
/// here.
pub proof fn lemma_trailer_layout(key_a: Seq<u8>, key_b: Seq<u8>)
    requires
        key_a.len() == 6,
        key_b.len() == 6,
    ensures
        spec_trailer_image(key_a, key_b).len() == 16,
        spec_trailer_image(key_a, key_b).take(6) == key_a,
        spec_trailer_image(key_a, key_b).subrange(6, 10) == seq![0xFFu8, 0x07u8, 0x80u8, 0x69u8],
        spec_trailer_image(key_a, key_b).skip(10) == key_b,
{
    let image = spec_trailer_image(key_a, key_b);
    assert(image.take(6) =~= key_a);
    assert(image.subrange(6, 10) =~= seq![0xFFu8, 0x07u8, 0x80u8, 0x69u8]);
    assert(image.skip(10) =~= key_b);
}

/// The data bytes of a write command stand unchanged after the 5-byte
/// header: what is written is exactly the payload handed in.
pub proof fn lemma_write_apdu_carries_data(block: u8, data: Seq<u8>)
    ensures
        spec_write_apdu(block, data).skip(5) == data,
        spec_write_apdu(block, data).len() == 5 + data.len(),
{
    assert(spec_write_apdu(block, data).skip(5) =~= data);
}

pub fn build_load_key_apdu(key: &Vec<u8>) -> (apdu: Vec<u8>)
    requires
        key@.len() == 6,
    ensures
        apdu@ == spec_load_key_apdu(key@),
{
    let mut apdu: Vec<u8> = vec![0xFF, 0x82, 0x00, 0x00, 0x06];
    apdu.extend_from_slice(key.as_slice());
    proof {
        assert(apdu@ =~= spec_load_key_apdu(key@));
    }
    apdu
}

pub fn build_auth_apdu(block: u8, slot: KeySlot) -> (apdu: Vec<u8>)
    ensures
        apdu@ == spec_auth_apdu(block, slot),
{
    let apdu: Vec<u8> = vec![0xFF, 0x86, 0x00, 0x00, 0x05, 0x01, 0x00, block, slot.code(), 0x00];
    proof {
        assert(apdu@ =~= spec_auth_apdu(block, slot));
    }
    apdu
}

pub fn build_read_apdu(block: u8) -> (apdu: Vec<u8>)
    ensures
        apdu@ == spec_read_apdu(block),
{
    let apdu: Vec<u8> = vec![0xFF, 0xB0, 0x00, block, 0x10];
    proof {
        assert(apdu@ =~= spec_read_apdu(block));
    }
    apdu
}

pub fn build_write_apdu(block: u8, data: &Vec<u8>) -> (apdu: Vec<u8>)
    requires
        data@.len() == 16,
    ensures
        apdu@ == spec_write_apdu(block, data@),
{
    let mut apdu: Vec<u8> = vec![0xFF, 0xD6, 0x00, block, 0x10];
    apdu.extend_from_slice(data.as_slice());
    proof {
        assert(apdu@ =~= spec_write_apdu(block, data@));
    }
    apdu
}

pub fn build_get_uid_apdu() -> (apdu: Vec<u8>)
    ensures
        apdu@ == spec_get_uid_apdu(),
{
    let apdu: Vec<u8> = vec![0xFF, 0xCA, 0x00, 0x00, 0x00];
    proof {
        assert(apdu@ =~= spec_get_uid_apdu());
    }
    apdu
}

/// Assembles the 16-byte trailer image from the two 6-byte keys and the
/// fixed access bits.
pub fn build_trailer_image(key_a: &Vec<u8>, key_b: &Vec<u8>) -> (image: Vec<u8>)
    requires
        key_a@.len() == 6,
        key_b@.len() == 6,
    ensures
        image@ == spec_trailer_image(key_a@, key_b@),
        image@.len() == 16,
{
    let mut image: Vec<u8> = Vec::new();
    image.extend_from_slice(key_a.as_slice());
    image.push(0xFF);
    image.push(0x07);
    image.push(0x80);
    image.push(0x69);
    image.extend_from_slice(key_b.as_slice());
    proof {
        assert(image@ =~= spec_trailer_image(key_a@, key_b@));
    }
    image
}

/// Whether the response ends in the success status word.
pub fn response_status_ok(resp: &Vec<u8>) -> (ok: bool)
    ensures
        ok == status_ok(resp@),
{
    resp.len() >= 2 && resp[resp.len() - 2] == 0x90 && resp[resp.len() - 1] == 0x00
}

/// Whether the response is exactly the success status word.
pub fn response_is_success_pair(resp: &Vec<u8>) -> (ok: bool)
    ensures
        ok == is_success_pair(resp@),
{
    resp.len() == 2 && resp[0] == 0x90 && resp[1] == 0x00
}

/// What the load-key exchange means for each possible response: success
/// exactly on the bare success pair, otherwise the raw bytes are carried
/// in the failure.
pub fn check_load_key_response(resp: &Vec<u8>) -> (r: Result<(), CardError>)
    ensures
        is_success_pair(resp@) ==> r is Ok,
        !is_success_pair(resp@) ==> (r matches Err(e) && e matches CardError::KeyLoadFailed(raw)
            && raw@ == resp@),
{
    if response_is_success_pair(resp) {
        Ok(())
    } else {
        Err(CardError::KeyLoadFailed(slice_to_vec(resp.as_slice())))
    }
}

/// What the authenticate exchange means for each possible response: a
/// non-success status word is the expected outcome of a wrong key or a
/// wrong block, and names both in the failure.
pub fn check_auth_response(resp: &Vec<u8>, block: u8, slot: KeySlot) -> (r: Result<(), CardError>)
    ensures
        is_success_pair(resp@) ==> r is Ok,
        !is_success_pair(resp@) ==> r == Result::<(), CardError>::Err(
            CardError::AuthenticationFailed { block, slot },
        ),
{
    if response_is_success_pair(resp) {
        Ok(())
    } else {
        Err(CardError::AuthenticationFailed { block, slot })
    }
}

/// What the read exchange means for each possible response: on a success
/// status word the data is everything before it; a truncated response or
/// any other status word carries the raw bytes in the failure.
pub fn interpret_read_response(resp: &Vec<u8>) -> (r: Result<Vec<u8>, CardError>)
    ensures
        status_ok(resp@) ==> (r matches Ok(data) && data@ == resp@.take(resp@.len() - 2)),
        !status_ok(resp@) ==> (r matches Err(e) && e matches CardError::BlockReadFailed(raw)
            && raw@ == resp@),
{
    if response_status_ok(resp) {
        let n = resp.len();
        let mut data: Vec<u8> = slice_to_vec(resp.as_slice());
        data.truncate(n - 2);
        proof {
            assert(data@ =~= resp@.take(resp@.len() - 2));
        }
        Ok(data)
    } else {
        Err(CardError::BlockReadFailed(slice_to_vec(resp.as_slice())))
    }
}

/// What the write exchange means for each possible response.
pub fn check_write_response(resp: &Vec<u8>) -> (r: Result<(), CardError>)
    ensures
        is_success_pair(resp@) ==> r is Ok,
        !is_success_pair(resp@) ==> (r matches Err(e) && e matches CardError::BlockWriteFailed(raw)
            && raw@ == resp@),
{
    if response_is_success_pair(resp) {
        Ok(())
    } else {
        Err(CardError::BlockWriteFailed(slice_to_vec(resp.as_slice())))
    }
}

/// What the UID query means for each possible response: on a success
/// status word the UID is everything before it.
pub fn interpret_uid_response(resp: &Vec<u8>) -> (r: Result<Vec<u8>, CardError>)
    ensures
        status_ok(resp@) ==> (r matches Ok(uid) && uid@ == resp@.take(resp@.len() - 2)),
        !status_ok(resp@) ==> (r matches Err(e) && e matches CardError::UidReadFailed(raw)
            && raw@ == resp@),
{
    if response_status_ok(resp) {
        let n = resp.len();
        let mut uid: Vec<u8> = slice_to_vec(resp.as_slice());
        uid.truncate(n - 2);
        proof {
            assert(uid@ =~= resp@.take(resp@.len() - 2));
        }
        Ok(uid)
    } else {
        Err(CardError::UidReadFailed(slice_to_vec(resp.as_slice())))
    }
}

} // verus!
