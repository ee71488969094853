//! The timestamp field at the head of a payload: sixteen bytes, least
//! significant first.

use byteorder::{ByteOrder, LittleEndian};
use bytes::Buf;
use vstd::prelude::*;

verus! {

/// The number of bytes that a timestamp occupies.
pub const TIMESTAMP_WIDTH: usize = 16;

/// The number that `bytes` spell, least significant byte first.
pub open spec fn le_value(bytes: Seq<u8>) -> nat
    decreases bytes.len(),
{
    if bytes.len() == 0 {
        0
    } else {
        bytes[0] as nat + 256 * le_value(bytes.drop_first())
    }
}

/// The `width` low bytes of `n`, least significant first.
pub open spec fn le_bytes(n: nat, width: nat) -> Seq<u8>
    decreases width,
{
    if width == 0 {
        Seq::empty()
    } else {
        seq![(n % 256) as u8] + le_bytes(n / 256, (width - 1) as nat)
    }
}

/// 256 to the power `width`: the first number that `width` bytes cannot
/// hold.
pub open spec fn capacity(width: nat) -> nat
    decreases width,
{
    if width == 0 {
        1
    } else {
        256 * capacity((width - 1) as nat)
    }
}

/// `payload` with its first sixteen bytes replaced by `timestamp`; a payload
/// too short to hold a timestamp is left as it is.
pub open spec fn tagged(payload: Seq<u8>, timestamp: u128) -> Seq<u8> {
    if payload.len() < 16 {
        payload
    } else {
        le_bytes(timestamp as nat, 16) + payload.subrange(16, payload.len() as int)
    }
}

/// The timestamp that `payload` carries, if it is long enough to carry one.
pub open spec fn timestamp_of(payload: Seq<u8>) -> Option<u128> {
    if payload.len() < 16 {
        None
    } else {
        Some(le_value(payload.subrange(0, 16)) as u128)
    }
}

/// Writes `n` over the first sixteen bytes of `data` with
/// `byteorder::LittleEndian::write_u128`: byte `i` becomes bits `8 i` to
/// `8 i + 7` of `n`, and the bytes after the sixteenth stay. The outside
/// function panics on a shorter slice, which `requires` leaves out.
#[verifier::external_body]
fn write_u128_le(data: &mut [u8], n: u128)
    requires
        old(data)@.len() >= 16,
    ensures
        final(data)@ == le_bytes(n as nat, 16) + old(data)@.subrange(16, old(data)@.len() as int),
{
    LittleEndian::write_u128(data, n)
}

/// Reads the first sixteen bytes of `data` with
/// `byteorder::LittleEndian::read_u128`: the number they spell, least
/// significant byte first. The outside function panics on a shorter slice,
/// which `requires` leaves out.
#[verifier::external_body]
fn read_u128_le(data: &[u8]) -> (n: u128)
    requires
        data@.len() >= 16,
    ensures
        n as nat == le_value(data@.subrange(0, 16)),
{
    LittleEndian::read_u128(data)
}

/// The number of bytes of `data` that a fresh cursor has still to read,
/// from `bytes::Buf::remaining` on `std::io::Cursor`: all of them.
#[verifier::external_body]
fn unread(data: &[u8]) -> (n: usize)
    ensures
        n == data@.len(),
{
    std::io::Cursor::new(data).remaining()
}

/// Overwrites the head of `data` with `timestamp` where `data` can hold
/// one, and tells whether it did.
pub fn tag_with(data: &mut [u8], timestamp: u128) -> (written: bool)
    ensures
        written == (old(data)@.len() >= 16),
        final(data)@ == tagged(old(data)@, timestamp),
{
    if data.len() < TIMESTAMP_WIDTH {
        return false;
    }
    write_u128_le(data, timestamp);
    true
}

/// The time that stamping writes when the clock shows `now`: the clock's
/// reading, if there is one and the payload can hold it.
pub open spec fn stamp(payload: Seq<u8>, now: Option<u128>) -> Option<u128> {
    if payload.len() < 16 {
        None
    } else {
        now
    }
}

/// The payload after stamping when the clock shows `now`.
pub open spec fn stamped(payload: Seq<u8>, now: Option<u128>) -> Seq<u8> {
    match stamp(payload, now) {
        Some(timestamp) => tagged(payload, timestamp),
        None => payload,
    }
}

/// Stamps `data` with the reading `now` of the clock and returns the time
/// written: the reading itself where `data` can hold a timestamp, and
/// nothing, with `data` left as it is, where it cannot or where the clock
/// gave no reading.
pub fn tag_at(data: &mut [u8], now: Option<u128>) -> (written: Option<u128>)
    ensures
        written == stamp(old(data)@, now),
        final(data)@ == stamped(old(data)@, now),
{
    match now {
        Some(timestamp) => {
            if tag_with(data, timestamp) {
                Some(timestamp)
            } else {
                None
            }
        },
        None => None,
    }
}

/// Reads the timestamp at the head of `data`, if `data` can hold one.
pub fn read_timestamp(data: &[u8]) -> (timestamp: Option<u128>)
    ensures
        timestamp == timestamp_of(data@),
{
    if unread(data) < TIMESTAMP_WIDTH {
        return None;
    }
    Some(read_u128_le(data))
}

proof fn lemma_sixteen_bytes_hold_u128()
    ensures
        u128::MAX < capacity(16),
{
    reveal_with_fuel(capacity, 9);
    let half: nat = 0x1_0000_0000_0000_0000;
    assert(capacity(8) == half);
    assert(capacity(12) == 0x1_0000_0000 * capacity(8));
    assert(capacity(16) == 0x1_0000_0000 * capacity(12));
    assert(capacity(16) == 0x1_0000_0000 * (0x1_0000_0000 * half));
}

/// `width` bytes spell every number below `capacity(width)`, and reading
/// them back gives the number.
pub proof fn lemma_le_round_trip(n: nat, width: nat)
    requires
        n < capacity(width),
    ensures
        le_bytes(n, width).len() == width,
        le_value(le_bytes(n, width)) == n,
    decreases width,
{
    if width > 0 {
        let rest = le_bytes(n / 256, (width - 1) as nat);
        let all = le_bytes(n, width);
        lemma_le_round_trip(n / 256, (width - 1) as nat);
        assert(all.drop_first() =~= rest);
        assert(all[0] == (n % 256) as u8);
    }
}

/// A timestamp written into a payload that can hold it is read back
/// unchanged, and the bytes behind it stay; a shorter payload is left as it
/// is and carries no timestamp.
pub proof fn lemma_tag_then_read(payload: Seq<u8>, timestamp: u128)
    ensures
        tagged(payload, timestamp).len() == payload.len(),
        payload.len() >= 16 ==> timestamp_of(tagged(payload, timestamp)) == Some(timestamp),
        payload.len() < 16 ==> tagged(payload, timestamp) == payload && timestamp_of(
            tagged(payload, timestamp),
        ).is_none(),
        forall|i: int| 16 <= i < payload.len() ==> tagged(payload, timestamp)[i] == payload[i],
{
    if payload.len() >= 16 {
        lemma_sixteen_bytes_hold_u128();
        lemma_le_round_trip(timestamp as nat, 16);
        let head = le_bytes(timestamp as nat, 16);
        assert(tagged(payload, timestamp).subrange(0, 16) =~= head);
    }
}

} // verus!
