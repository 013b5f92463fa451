//! The envelope of persisted sequence state: a format version in front of
//! the bytes that the plug-in wrote.
//!
//! The version is two bytes, low byte first. Nothing else frames the payload,
//! so the envelope of a payload is the payload with two bytes in front, and a
//! buffer of fewer than two bytes is no envelope at all.

use crate::error::Error;
use vstd::prelude::*;

verus! {

/// The version tag that a plug-in gives to the bytes it writes.
pub type FormatVersion = u16;

/// How many bytes of an envelope hold the version.
pub const VERSION_PREFIX_WIDTH: usize = 2;

/// The two bytes that stand for a version, low byte first.
pub open spec fn version_bytes(version: FormatVersion) -> Seq<u8> {
    seq![(version % 256) as u8, (version / 256) as u8]
}

/// The version that two bytes stand for.
pub open spec fn version_of(low: u8, high: u8) -> FormatVersion {
    (low + 256 * high) as u16
}

/// The envelope of a payload: the version, then the payload unchanged.
pub open spec fn envelope(version: FormatVersion, payload: Seq<u8>) -> Seq<u8> {
    version_bytes(version) + payload
}

/// What a buffer holds when read as an envelope: nothing if it is shorter
/// than the version, else the version and all bytes behind it.
pub open spec fn parse_envelope(bytes: Seq<u8>) -> Option<(FormatVersion, Seq<u8>)> {
    if bytes.len() < VERSION_PREFIX_WIDTH {
        None
    } else {
        Some((version_of(bytes[0], bytes[1]), bytes.skip(VERSION_PREFIX_WIDTH as int)))
    }
}

/// Puts a version in front of a payload.
pub fn seal(version: FormatVersion, payload: &[u8]) -> (bytes: Vec<u8>)
    ensures
        bytes@ == envelope(version, payload@),
        bytes@.len() == payload@.len() + VERSION_PREFIX_WIDTH,
        parse_envelope(bytes@) == Some((version, payload@)),
{
    let mut bytes: Vec<u8> = Vec::new();
    bytes.push((version % 256) as u8);
    bytes.push((version / 256) as u8);
    let mut i: usize = 0;
    while i < payload.len()
        invariant
            i <= payload@.len(),
            bytes@ == version_bytes(version) + payload@.take(i as int),
        decreases payload@.len() - i,
    {
        bytes.push(payload[i]);
        i += 1;
    }
    assert(payload@.take(i as int) == payload@);
    proof {
        lemma_envelope_round_trip(version, payload@);
    }
    bytes
}

/// Reads a buffer as an envelope. A buffer shorter than the version is
/// refused as [`Error::CorruptData`]; every other buffer is split into its
/// version and its payload.
pub fn open(bytes: &[u8]) -> (r: Result<(FormatVersion, &[u8]), Error>)
    ensures
        bytes@.len() < VERSION_PREFIX_WIDTH <==> r == Err::<(FormatVersion, &[u8]), Error>(
            Error::CorruptData,
        ),
        r matches Ok((version, payload)) ==> parse_envelope(bytes@) == Some((version, payload@)),
        r is Ok <==> parse_envelope(bytes@) is Some,
{
    if bytes.len() < VERSION_PREFIX_WIDTH {
        return Err(Error::CorruptData);
    }
    let low: u8 = bytes[0];
    let high: u8 = bytes[1];
    let version: u16 = low as u16 + 256 * (high as u16);
    let payload = vstd::slice::slice_subrange(bytes, VERSION_PREFIX_WIDTH, bytes.len());
    assert(payload@ == bytes@.skip(VERSION_PREFIX_WIDTH as int));
    Ok((version, payload))
}

/// The envelope loses nothing: what was sealed is what opening gives back,
/// version and payload both.
pub proof fn lemma_envelope_round_trip(version: FormatVersion, payload: Seq<u8>)
    ensures
        parse_envelope(envelope(version, payload)) == Some((version, payload)),
{
    let bytes = envelope(version, payload);
    assert(bytes.len() == payload.len() + 2);
    assert(bytes[0] == (version % 256) as u8);
    assert(bytes[1] == (version / 256) as u8);
    assert(version_of(bytes[0], bytes[1]) == version);
    assert(bytes.skip(VERSION_PREFIX_WIDTH as int) == payload);
}

/// Every envelope is the envelope of what it parses to: no two payloads and
/// no two versions share one.
pub proof fn lemma_envelope_is_canonical(bytes: Seq<u8>)
    requires
        parse_envelope(bytes) is Some,
    ensures
        parse_envelope(bytes) matches Some((version, payload)) && envelope(version, payload)
            == bytes,
{
    let version = version_of(bytes[0], bytes[1]);
    assert(version % 256 == bytes[0]);
    assert(version / 256 == bytes[1]);
    assert(envelope(version, bytes.skip(VERSION_PREFIX_WIDTH as int)) == bytes);
}

/// A buffer shorter than the version prefix is never an envelope.
pub proof fn lemma_short_buffer_is_rejected(bytes: Seq<u8>)
    requires
        bytes.len() < VERSION_PREFIX_WIDTH,
    ensures
        parse_envelope(bytes) is None,
{
}

} // verus!
