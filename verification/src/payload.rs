use vstd::prelude::*;
use vstd::utf8::*;

use crate::buf::{append_all, copy_range};
use crate::crc::{crc32, spec_crc32};
use crate::error::SoundGifError;
use crate::le::{
    le_bytes, le_value, lemma_le_bytes_len, lemma_le_roundtrip, lemma_le_value_bound,
    lemma_pow256_values, push_le, read_le,
};

verus! {

broadcast use {encode_utf8_valid_utf8, encode_utf8_decode_utf8};

/// Payload format version written and accepted by this library.
pub const FORMAT_VERSION: u8 = 1;

/// Flag bit: loop the audio together with the animation.
pub const FLAG_LOOP: u8 = 1;

/// Length of the fixed payload header.
pub const PAYLOAD_HEADER_LEN: usize = 26;

/// The audio and metadata carried by a SoundGIF.
#[derive(Clone, Debug, PartialEq, Eq)]
pub struct SoundPayload {
    pub loop_audio: bool,
    pub start_ms: u32,
    pub mime_type: String,
    pub file_name: String,
    pub audio: Vec<u8>,
    pub checksum: u32,
}

/// The mathematical content of a [`SoundPayload`].
pub struct PayloadModel {
    pub loop_audio: bool,
    pub start_ms: u32,
    pub mime_type: Seq<char>,
    pub file_name: Seq<char>,
    pub audio: Seq<u8>,
    pub checksum: u32,
}

impl View for SoundPayload {
    type V = PayloadModel;

    open spec fn view(&self) -> PayloadModel {
        PayloadModel {
            loop_audio: self.loop_audio,
            start_ms: self.start_ms,
            mime_type: self.mime_type@,
            file_name: self.file_name@,
            audio: self.audio@,
            checksum: self.checksum,
        }
    }
}

/// The payload magic `SGA1`.
pub open spec fn payload_magic() -> Seq<u8> {
    seq![0x53u8, 0x47u8, 0x41u8, 0x31u8]
}

/// The flags byte: bit 0 set when the audio loops.
pub open spec fn flags_byte(loop_audio: bool) -> u8 {
    if loop_audio {
        FLAG_LOOP
    } else {
        0
    }
}

/// The payload bytes: magic, version, flags, start offset (4), audio length (8),
/// CRC-32 (4), MIME length (2), name length (2), all little-endian, then the UTF-8
/// MIME type, the UTF-8 file name and the audio.
pub open spec fn payload_bytes(p: PayloadModel) -> Seq<u8> {
    let mime = encode_utf8(p.mime_type);
    let name = encode_utf8(p.file_name);
    payload_magic() + seq![FORMAT_VERSION, flags_byte(p.loop_audio)] + le_bytes(
        p.start_ms as nat,
        4,
    ) + le_bytes(p.audio.len(), 8) + le_bytes(p.checksum as nat, 4) + le_bytes(mime.len(), 2)
        + le_bytes(name.len(), 2) + mime + name + p.audio
}

/// What encoding a payload gives: its bytes, or why it cannot be written.
pub open spec fn spec_encode_payload(p: PayloadModel) -> Result<Seq<u8>, SoundGifError> {
    let m = encode_utf8(p.mime_type).len();
    let n = encode_utf8(p.file_name).len();
    if m > 0xffff {
        Err(SoundGifError::MimeTypeTooLong)
    } else if n > 0xffff {
        Err(SoundGifError::FileNameTooLong)
    } else if PAYLOAD_HEADER_LEN + m + n + p.audio.len() > usize::MAX {
        Err(SoundGifError::PayloadTooLarge)
    } else {
        Ok(payload_bytes(p))
    }
}

/// What decoding the payload bytes `d` gives.
pub open spec fn spec_decode_payload(d: Seq<u8>) -> Result<PayloadModel, SoundGifError> {
    if d.len() < PAYLOAD_HEADER_LEN {
        Err(SoundGifError::PayloadTruncated)
    } else if d.subrange(0, 4) != payload_magic() {
        Err(SoundGifError::InvalidMagic)
    } else if d[4] != FORMAT_VERSION {
        Err(SoundGifError::UnsupportedVersion { version: d[4] })
    } else {
        let audio_len = le_value(d.subrange(10, 18)) as int;
        let m = le_value(d.subrange(22, 24)) as int;
        let n = le_value(d.subrange(24, 26)) as int;
        let meta_end = 26 + m + n;
        let end = meta_end + audio_len;
        if audio_len > usize::MAX {
            Err(SoundGifError::AudioTooLargeForPlatform)
        } else if end > usize::MAX {
            Err(SoundGifError::PayloadSizeOverflow)
        } else if end != d.len() {
            Err(SoundGifError::LengthMismatch { described: end as usize, found: d.len() as usize })
        } else if !valid_utf8(d.subrange(26, 26 + m)) {
            Err(SoundGifError::MimeTypeNotUtf8)
        } else if !valid_utf8(d.subrange(26 + m, meta_end)) {
            Err(SoundGifError::FileNameNotUtf8)
        } else {
            Ok(
                PayloadModel {
                    loop_audio: d[5] % 2 == 1,
                    start_ms: le_value(d.subrange(6, 10)) as u32,
                    mime_type: decode_utf8(d.subrange(26, 26 + m)),
                    file_name: decode_utf8(d.subrange(26 + m, meta_end)),
                    audio: d.subrange(meta_end, end),
                    checksum: le_value(d.subrange(18, 22)) as u32,
                },
            )
        }
    }
}

/// Where each field of a payload that can be written lies: `SGA1`, version 1, the loop flag,
/// then start offset, audio length, CRC-32, MIME length and name length as little-endian
/// integers at bytes 6, 10, 18, 22 and 24, then the UTF-8 MIME type, the UTF-8 file name and
/// the audio.
pub proof fn law_payload_layout(p: PayloadModel)
    requires
        spec_encode_payload(p) is Ok,
    ensures
        ({
            let d = spec_encode_payload(p)->Ok_0;
            let m = encode_utf8(p.mime_type).len() as int;
            let n = encode_utf8(p.file_name).len() as int;
            &&& d.len() == 26 + m + n + p.audio.len()
            &&& d[0] == 0x53 && d[1] == 0x47 && d[2] == 0x41 && d[3] == 0x31
            &&& d[4] == 1
            &&& d[5] == (if p.loop_audio { 1u8 } else { 0u8 })
            &&& d[6] == p.start_ms % 256
            &&& le_value(d.subrange(6, 10)) == p.start_ms
            &&& le_value(d.subrange(10, 18)) == p.audio.len()
            &&& le_value(d.subrange(18, 22)) == p.checksum
            &&& le_value(d.subrange(22, 24)) == m
            &&& le_value(d.subrange(24, 26)) == n
            &&& d.subrange(26, 26 + m) == encode_utf8(p.mime_type)
            &&& d.subrange(26 + m, 26 + m + n) == encode_utf8(p.file_name)
            &&& d.subrange(26 + m + n, d.len() as int) == p.audio
        }),
{
    lemma_payload_fields(p);
}

proof fn lemma_payload_fields(p: PayloadModel)
    requires
        spec_encode_payload(p) is Ok,
    ensures
        ({
            let d = payload_bytes(p);
            let m = encode_utf8(p.mime_type).len() as int;
            let n = encode_utf8(p.file_name).len() as int;
            let a = p.audio.len() as int;
            &&& d.len() == 26 + m + n + a
            &&& d.subrange(0, 4) == payload_magic()
            &&& d[4] == FORMAT_VERSION
            &&& d[5] == flags_byte(p.loop_audio)
            &&& d.subrange(6, 10) == le_bytes(p.start_ms as nat, 4)
            &&& d.subrange(10, 18) == le_bytes(a as nat, 8)
            &&& d.subrange(18, 22) == le_bytes(p.checksum as nat, 4)
            &&& d.subrange(22, 24) == le_bytes(m as nat, 2)
            &&& d.subrange(24, 26) == le_bytes(n as nat, 2)
            &&& d.subrange(26, 26 + m) == encode_utf8(p.mime_type)
            &&& d.subrange(26 + m, 26 + m + n) == encode_utf8(p.file_name)
            &&& d.subrange(26 + m + n, 26 + m + n + a) == p.audio
            &&& le_value(d.subrange(6, 10)) == p.start_ms
            &&& le_value(d.subrange(10, 18)) == a
            &&& le_value(d.subrange(18, 22)) == p.checksum
            &&& le_value(d.subrange(22, 24)) == m
            &&& le_value(d.subrange(24, 26)) == n
        }),
{
    let d = payload_bytes(p);
    let mime = encode_utf8(p.mime_type);
    let name = encode_utf8(p.file_name);
    let m = mime.len() as int;
    let n = name.len() as int;
    let a = p.audio.len() as int;
    lemma_pow256_values();
    lemma_le_bytes_len(p.start_ms as nat, 4);
    lemma_le_bytes_len(a as nat, 8);
    lemma_le_bytes_len(p.checksum as nat, 4);
    lemma_le_bytes_len(m as nat, 2);
    lemma_le_bytes_len(n as nat, 2);
    lemma_le_roundtrip(p.start_ms as nat, 4);
    lemma_le_roundtrip(a as nat, 8);
    lemma_le_roundtrip(p.checksum as nat, 4);
    lemma_le_roundtrip(m as nat, 2);
    lemma_le_roundtrip(n as nat, 2);
    assert(d.len() == 26 + m + n + a);
    assert(d.subrange(0, 4) =~= payload_magic());
    assert(d.subrange(6, 10) =~= le_bytes(p.start_ms as nat, 4));
    assert(d.subrange(10, 18) =~= le_bytes(a as nat, 8));
    assert(d.subrange(18, 22) =~= le_bytes(p.checksum as nat, 4));
    assert(d.subrange(22, 24) =~= le_bytes(m as nat, 2));
    assert(d.subrange(24, 26) =~= le_bytes(n as nat, 2));
    assert(d.subrange(26, 26 + m) =~= mime);
    assert(d.subrange(26 + m, 26 + m + n) =~= name);
    assert(d.subrange(26 + m + n, 26 + m + n + a) =~= p.audio);
}

/// Reading back the bytes of a payload that can be written gives the same payload.
pub proof fn lemma_payload_roundtrip(p: PayloadModel)
    requires
        spec_encode_payload(p) is Ok,
    ensures
        spec_decode_payload(payload_bytes(p)) == Ok::<PayloadModel, SoundGifError>(p),
{
    let d = payload_bytes(p);
    let m = encode_utf8(p.mime_type).len() as int;
    let n = encode_utf8(p.file_name).len() as int;
    lemma_payload_fields(p);
    let q = spec_decode_payload(d)->Ok_0;
    assert(q.mime_type =~= p.mime_type);
    assert(q.file_name =~= p.file_name);
    assert(q.audio =~= p.audio);
}

/// `std::string::String::from_utf8`: the string whose UTF-8 encoding is `bytes`, or
/// `None` when `bytes` is not valid UTF-8 (the standard library's error is dropped).
#[verifier::external_body]
fn string_from_utf8(bytes: Vec<u8>) -> (r: Option<String>)
    ensures
        r is Some <==> valid_utf8(bytes@),
        r matches Some(s) ==> s@ == decode_utf8(bytes@),
{
    match String::from_utf8(bytes) {
        Ok(s) => Some(s),
        Err(_) => None,
    }
}

/// Reads a little-endian `u16` header field at `offset`.
pub fn read_u16(data: &[u8], offset: usize) -> (r: Result<u16, SoundGifError>)
    requires
        offset <= usize::MAX - 2,
    ensures
        offset + 2 > data.len() ==> r == Err::<u16, SoundGifError>(SoundGifError::HeaderTruncated),
        offset + 2 <= data.len() ==> (r matches Ok(v) && v == le_value(
            data@.subrange(offset as int, offset + 2),
        )),
{
    if offset + 2 > data.len() {
        return Err(SoundGifError::HeaderTruncated);
    }
    let v = read_le(data, offset, 2);
    proof {
        lemma_pow256_values();
        lemma_le_value_bound(data@.subrange(offset as int, offset + 2));
    }
    Ok(v as u16)
}

/// Reads a little-endian `u32` header field at `offset`.
pub fn read_u32(data: &[u8], offset: usize) -> (r: Result<u32, SoundGifError>)
    requires
        offset <= usize::MAX - 4,
    ensures
        offset + 4 > data.len() ==> r == Err::<u32, SoundGifError>(SoundGifError::HeaderTruncated),
        offset + 4 <= data.len() ==> (r matches Ok(v) && v == le_value(
            data@.subrange(offset as int, offset + 4),
        )),
{
    if offset + 4 > data.len() {
        return Err(SoundGifError::HeaderTruncated);
    }
    let v = read_le(data, offset, 4);
    proof {
        lemma_pow256_values();
        lemma_le_value_bound(data@.subrange(offset as int, offset + 4));
    }
    Ok(v as u32)
}

/// Reads a little-endian `u64` header field at `offset`.
pub fn read_u64(data: &[u8], offset: usize) -> (r: Result<u64, SoundGifError>)
    requires
        offset <= usize::MAX - 8,
    ensures
        offset + 8 > data.len() ==> r == Err::<u64, SoundGifError>(SoundGifError::HeaderTruncated),
        offset + 8 <= data.len() ==> (r matches Ok(v) && v == le_value(
            data@.subrange(offset as int, offset + 8),
        )),
{
    if offset + 8 > data.len() {
        return Err(SoundGifError::HeaderTruncated);
    }
    Ok(read_le(data, offset, 8))
}

/// Serialises a payload (without the GIF sub-block framing).
pub fn encode_payload(payload: &SoundPayload) -> (r: Result<Vec<u8>, SoundGifError>)
    ensures
        match spec_encode_payload(payload@) {
            Ok(bytes) => r matches Ok(v) && v@ == bytes,
            Err(e) => r == Err::<Vec<u8>, SoundGifError>(e),
        },
{
    let mime = payload.mime_type.as_str().as_bytes();
    let name = payload.file_name.as_str().as_bytes();
    if mime.len() > 0xffff {
        return Err(SoundGifError::MimeTypeTooLong);
    }
    if name.len() > 0xffff {
        return Err(SoundGifError::FileNameTooLong);
    }
    let audio_len = payload.audio.len();
    if PAYLOAD_HEADER_LEN + mime.len() + name.len() > usize::MAX - audio_len {
        return Err(SoundGifError::PayloadTooLarge);
    }
    proof {
        lemma_pow256_values();
    }
    let mut data: Vec<u8> = Vec::new();
    data.push(0x53);
    data.push(0x47);
    data.push(0x41);
    data.push(0x31);
    data.push(FORMAT_VERSION);
    data.push(if payload.loop_audio { FLAG_LOOP } else { 0 });
    push_le(&mut data, payload.start_ms as u64, 4);
    push_le(&mut data, audio_len as u64, 8);
    push_le(&mut data, payload.checksum as u64, 4);
    push_le(&mut data, mime.len() as u64, 2);
    push_le(&mut data, name.len() as u64, 2);
    append_all(&mut data, mime);
    append_all(&mut data, name);
    append_all(&mut data, payload.audio.as_slice());
    assert(data@ =~= payload_bytes(payload@));
    Ok(data)
}

/// Parses payload bytes gathered from the sub-blocks of a SoundGIF extension.
pub fn decode_payload(data: &[u8]) -> (r: Result<SoundPayload, SoundGifError>)
    ensures
        match spec_decode_payload(data@) {
            Ok(p) => r matches Ok(v) && v@ == p,
            Err(e) => r == Err::<SoundPayload, SoundGifError>(e),
        },
{
    if data.len() < PAYLOAD_HEADER_LEN {
        return Err(SoundGifError::PayloadTruncated);
    }
    if !(data[0] == 0x53 && data[1] == 0x47 && data[2] == 0x41 && data[3] == 0x31) {
        assert(data@.subrange(0, 4) != payload_magic()) by {
            if data@.subrange(0, 4) == payload_magic() {
                assert(data@.subrange(0, 4)[0] == data@[0]);
                assert(data@.subrange(0, 4)[1] == data@[1]);
                assert(data@.subrange(0, 4)[2] == data@[2]);
                assert(data@.subrange(0, 4)[3] == data@[3]);
            }
        }
        return Err(SoundGifError::InvalidMagic);
    }
    assert(data@.subrange(0, 4) =~= payload_magic());
    if data[4] != FORMAT_VERSION {
        return Err(SoundGifError::UnsupportedVersion { version: data[4] });
    }
    let flags = data[5];
    let start_ms = read_u32(data, 6)?;
    let audio_len_u64 = read_u64(data, 10)?;
    if audio_len_u64 > usize::MAX as u64 {
        return Err(SoundGifError::AudioTooLargeForPlatform);
    }
    let audio_len = audio_len_u64 as usize;
    let checksum = read_u32(data, 18)?;
    let mime_len = read_u16(data, 22)? as usize;
    let name_len = read_u16(data, 24)? as usize;
    let metadata_end = PAYLOAD_HEADER_LEN + mime_len + name_len;
    if metadata_end > usize::MAX - audio_len {
        return Err(SoundGifError::PayloadSizeOverflow);
    }
    let payload_end = metadata_end + audio_len;
    if payload_end != data.len() {
        return Err(SoundGifError::LengthMismatch { described: payload_end, found: data.len() });
    }
    let mime_type = match string_from_utf8(
        copy_range(data, PAYLOAD_HEADER_LEN, PAYLOAD_HEADER_LEN + mime_len),
    ) {
        Some(s) => s,
        None => return Err(SoundGifError::MimeTypeNotUtf8),
    };
    let file_name = match string_from_utf8(
        copy_range(data, PAYLOAD_HEADER_LEN + mime_len, metadata_end),
    ) {
        Some(s) => s,
        None => return Err(SoundGifError::FileNameNotUtf8),
    };
    let loop_audio = flags & FLAG_LOOP != 0;
    assert(loop_audio == (flags % 2 == 1)) by (bit_vector)
        requires
            loop_audio == (flags & 1u8 != 0),
    ;
    Ok(
        SoundPayload {
            loop_audio,
            start_ms,
            mime_type,
            file_name,
            audio: copy_range(data, metadata_end, payload_end),
            checksum,
        },
    )
}

/// Checks the recorded CRC-32 against the audio.
pub fn verify_checksum(payload: &SoundPayload) -> (r: Result<(), SoundGifError>)
    ensures
        spec_crc32(payload.audio@) == payload.checksum ==> r is Ok,
        spec_crc32(payload.audio@) != payload.checksum ==> r == Err::<(), SoundGifError>(
            SoundGifError::ChecksumMismatch {
                expected: payload.checksum,
                actual: spec_crc32(payload.audio@),
            },
        ),
{
    let actual = crc32(payload.audio.as_slice());
    if actual != payload.checksum {
        Err(SoundGifError::ChecksumMismatch { expected: payload.checksum, actual })
    } else {
        Ok(())
    }
}

} // verus!
