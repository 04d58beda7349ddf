use vstd::prelude::*;

use crate::crc::{crc32, spec_crc32};
use crate::error::SoundGifError;
use crate::extension::{
    decode_extension, encode_extension, find_payload, lemma_layout_extensions,
    replace_sound_extension, spec_encode_extension, spec_find_payload, spec_replace,
};
use crate::embed::{law_read_after_embed, law_strip_after_embed, law_strip_plain_gif};
use crate::gif::{parse_gif, spec_parse_gif, sub_blocks_data};
use crate::payload::{
    spec_decode_payload, spec_encode_payload, verify_checksum, PayloadModel, SoundPayload, FORMAT_VERSION,
};
use crate::media::{detect_mime, mime_for_extension, opt_view};
use crate::text::{chars_of, decimal, hex_fixed, push_decimal, push_hex, push_str, string_from_chars};

verus! {

/// A payload holding `audio` with its CRC-32.
pub open spec fn payload_for(
    audio: Seq<u8>,
    mime_type: Seq<char>,
    file_name: Seq<char>,
    start_ms: u32,
    loop_audio: bool,
) -> PayloadModel {
    PayloadModel {
        loop_audio,
        start_ms,
        mime_type,
        file_name,
        audio,
        checksum: spec_crc32(audio),
    }
}

/// Builds the payload for `audio`, recording its CRC-32.
pub fn new_payload(
    audio: Vec<u8>,
    mime_type: String,
    file_name: String,
    start_ms: u32,
    loop_audio: bool,
) -> (r: SoundPayload)
    ensures
        r@ == payload_for(audio@, mime_type@, file_name@, start_ms, loop_audio),
{
    let checksum = crc32(audio.as_slice());
    SoundPayload { loop_audio, start_ms, mime_type, file_name, audio, checksum }
}

/// The payload `embed` records for an audio file: the MIME type given on the command line or
/// else the one its extension suggests, and its file name or else `audio.bin`.
pub open spec fn embed_payload_for(
    audio: Seq<u8>,
    mime_override: Option<Seq<char>>,
    extension: Option<Seq<char>>,
    file_name: Option<Seq<char>>,
    start_ms: u32,
    loop_audio: bool,
) -> PayloadModel {
    payload_for(
        audio,
        match mime_override {
            Some(m) => m,
            None => mime_for_extension(extension),
        },
        match file_name {
            Some(n) => n,
            None => "audio.bin"@,
        },
        start_ms,
        loop_audio,
    )
}

/// Builds the payload `embed` records for `audio`, whose file has the extension `extension`
/// and the name `file_name` (either may be absent or not text).
pub fn embed_payload(
    audio: Vec<u8>,
    mime_override: Option<String>,
    extension: Option<&str>,
    file_name: Option<&str>,
    start_ms: u32,
    loop_audio: bool,
) -> (r: SoundPayload)
    ensures
        r@ == embed_payload_for(
            audio@,
            match mime_override {
                Some(m) => Some(m@),
                None => None,
            },
            opt_view(extension),
            opt_view(file_name),
            start_ms,
            loop_audio,
        ),
{
    let mime_type = match mime_override {
        Some(m) => m,
        None => string_from_chars(chars_of(detect_mime(extension))),
    };
    let name = match file_name {
        Some(n) => string_from_chars(chars_of(n)),
        None => string_from_chars(chars_of("audio.bin")),
    };
    new_payload(audio, mime_type, name, start_ms, loop_audio)
}

/// What embedding a payload into the GIF `g` gives: the GIF with every SoundGIF extension
/// removed and the new one placed before the trailer.
pub open spec fn spec_embed(g: Seq<u8>, p: PayloadModel) -> Result<Seq<u8>, SoundGifError> {
    match spec_parse_gif(g) {
        Err(e) => Err(e),
        Ok(l) => match spec_encode_extension(p) {
            Err(e) => Err(e),
            Ok(x) => Ok(spec_replace(g, l, Some(x))),
        },
    }
}

/// Embeds `payload` in `gif`, replacing any SoundGIF data it already holds.
pub fn embed_audio(gif: &[u8], payload: &SoundPayload) -> (r: Result<Vec<u8>, SoundGifError>)
    ensures
        match spec_embed(gif@, payload@) {
            Ok(bytes) => r matches Ok(v) && v@ == bytes,
            Err(e) => r == Err::<Vec<u8>, SoundGifError>(e),
        },
{
    let layout = parse_gif(gif)?;
    let extension = encode_extension(payload)?;
    proof {
        lemma_layout_extensions(gif@);
    }
    Ok(replace_sound_extension(gif, &layout, Some(extension.as_slice())))
}

/// What stripping gives: the GIF without its SoundGIF extensions and how many there were.
pub open spec fn spec_strip(g: Seq<u8>) -> Result<(Seq<u8>, nat), SoundGifError> {
    match spec_parse_gif(g) {
        Err(e) => Err(e),
        Ok(l) => if l.sounds.len() == 0 {
            Err(SoundGifError::NoAudio)
        } else {
            Ok((spec_replace(g, l, None), l.sounds.len()))
        },
    }
}

/// Removes every SoundGIF extension; fails when there is none.
pub fn strip_audio(gif: &[u8]) -> (r: Result<(Vec<u8>, usize), SoundGifError>)
    ensures
        match spec_strip(gif@) {
            Ok((bytes, n)) => r matches Ok((v, k)) && v@ == bytes && k == n,
            Err(e) => r == Err::<(Vec<u8>, usize), SoundGifError>(e),
        },
{
    let layout = parse_gif(gif)?;
    if layout.sound_extensions.len() == 0 {
        return Err(SoundGifError::NoAudio);
    }
    let count = layout.sound_extensions.len();
    proof {
        lemma_layout_extensions(gif@);
    }
    Ok((replace_sound_extension(gif, &layout, None), count))
}

/// What extracting gives: the first payload, provided its audio matches its CRC-32.
pub open spec fn spec_extract(g: Seq<u8>) -> Result<PayloadModel, SoundGifError> {
    match spec_find_payload(g) {
        Err(e) => Err(e),
        Ok(p) => if spec_crc32(p.audio) == p.checksum {
            Ok(p)
        } else {
            Err(SoundGifError::ChecksumMismatch { expected: p.checksum, actual: spec_crc32(p.audio) })
        },
    }
}

/// Reads the first payload and checks its CRC-32.
pub fn extract_audio(gif: &[u8]) -> (r: Result<SoundPayload, SoundGifError>)
    ensures
        match spec_extract(gif@) {
            Ok(p) => r matches Ok(v) && v@ == p,
            Err(e) => r == Err::<SoundPayload, SoundGifError>(e),
        },
{
    let payload = find_payload(gif)?;
    verify_checksum(&payload)?;
    Ok(payload)
}

/// What `inspect` reports about a SoundGIF.
#[derive(Debug)]
pub struct Inspection {
    /// How many SoundGIF extensions the file holds (the first one is decoded).
    pub extension_count: usize,
    /// The first payload.
    pub payload: SoundPayload,
    /// The CRC-32 of the first payload's audio as found.
    pub actual_checksum: u32,
}

/// What inspecting gives: nothing when there is no SoundGIF data, else the number of
/// extensions, the first payload and the CRC-32 of its audio.
pub open spec fn spec_inspect(g: Seq<u8>) -> Result<Option<(nat, PayloadModel, u32)>, SoundGifError> {
    match spec_parse_gif(g) {
        Err(e) => Err(e),
        Ok(l) => if l.sounds.len() == 0 {
            Ok(None)
        } else {
            match spec_decode_payload(sub_blocks_data(g, l.sounds[0].0 + 14)) {
                Err(e) => Err(e),
                Ok(p) => Ok(Some((l.sounds.len(), p, spec_crc32(p.audio)))),
            }
        },
    }
}

/// Reports the SoundGIF data of a GIF without checking it.
pub fn inspect_audio(gif: &[u8]) -> (r: Result<Option<Inspection>, SoundGifError>)
    ensures
        match spec_inspect(gif@) {
            Ok(None) => r matches Ok(None),
            Ok(Some((n, p, c))) => r matches Ok(Some(i)) && i.extension_count == n && i.payload@ == p
                && i.actual_checksum == c,
            Err(e) => r == Err::<Option<Inspection>, SoundGifError>(e),
        },
{
    let layout = parse_gif(gif)?;
    if layout.sound_extensions.len() == 0 {
        return Ok(None);
    }
    let range = layout.sound_extensions[0];
    proof {
        lemma_layout_extensions(gif@);
        assert(layout@.sounds[0] == range@);
    }
    let payload = decode_extension(gif, range)?;
    let actual_checksum = crc32(payload.audio.as_slice());
    Ok(Some(Inspection { extension_count: layout.sound_extensions.len(), payload, actual_checksum }))
}

/// Audio embedded with its CRC-32 is extracted unchanged and passes the integrity check;
/// the new GIF holds exactly one SoundGIF extension, however many the original held.
pub proof fn law_extract_after_embed(
    g: Seq<u8>,
    audio: Seq<u8>,
    mime_type: Seq<char>,
    file_name: Seq<char>,
    start_ms: u32,
    loop_audio: bool,
)
    requires
        spec_parse_gif(g) is Ok,
        spec_encode_payload(payload_for(audio, mime_type, file_name, start_ms, loop_audio)) is Ok,
    ensures
        ({
            let p = payload_for(audio, mime_type, file_name, start_ms, loop_audio);
            &&& spec_embed(g, p) is Ok
            &&& spec_extract(spec_embed(g, p)->Ok_0) == Ok::<PayloadModel, SoundGifError>(p)
            &&& spec_parse_gif(spec_embed(g, p)->Ok_0)->Ok_0.sounds.len() == 1
        }),
{
    let p = payload_for(audio, mime_type, file_name, start_ms, loop_audio);
    law_read_after_embed(g, p);
}

/// Stripping a GIF that audio was just embedded in removes that one extension and gives
/// what stripping the original gives; for a GIF that held no SoundGIF data, that is the
/// original bytes.
pub proof fn law_strip_after_embed_ops(g: Seq<u8>, p: PayloadModel)
    requires
        spec_parse_gif(g) is Ok,
        spec_encode_payload(p) is Ok,
    ensures
        spec_embed(g, p) is Ok,
        spec_strip(spec_embed(g, p)->Ok_0) matches Ok((bytes, n)) && n == 1 && bytes
            == spec_replace(g, spec_parse_gif(g)->Ok_0, None),
        spec_parse_gif(g)->Ok_0.sounds.len() == 0 ==> (spec_strip(spec_embed(g, p)->Ok_0) matches Ok(
            (bytes, _),
        ) && bytes == g),
{
    law_read_after_embed(g, p);
    law_strip_after_embed(g, spec_encode_payload(p)->Ok_0);
    if spec_parse_gif(g)->Ok_0.sounds.len() == 0 {
        law_strip_plain_gif(g);
    }
}

/// The report `inspect` prints for `n` extensions whose first payload is `p` and whose audio
/// has CRC-32 `actual`: a warning when there are several, then one labelled line per field.
pub open spec fn report_text(n: nat, p: PayloadModel, actual: u32) -> Seq<char> {
    (if n > 1 {
        "Warning: found "@ + decimal(n) + " SoundGIF extensions; showing the first.\n"@
    } else {
        Seq::empty()
    }) + "SoundGIF version: "@ + decimal(FORMAT_VERSION as nat) + "\n"@ + "Audio file:       "@
        + p.file_name + "\n"@ + "MIME type:        "@ + p.mime_type + "\n"@
        + "Audio bytes:      "@ + decimal(p.audio.len()) + "\n"@ + "Start offset:     "@
        + decimal(p.start_ms as nat) + " ms\n"@ + "Loop:             "@ + (if p.loop_audio {
        "yes"@
    } else {
        "no"@
    }) + "\n"@ + "CRC-32:           "@ + hex_fixed(p.checksum as nat, 8) + "\n"@
        + "Integrity:        "@ + (if actual == p.checksum {
        "OK"@
    } else {
        "FAILED"@
    }) + "\n"@
}

/// The warning `inspect` prints first when a GIF holds `n` SoundGIF extensions.
pub fn extensions_warning(n: usize) -> (r: String)
    ensures
        r@ == "Warning: found "@ + decimal(n as nat) + " SoundGIF extensions; showing the first."@,
{
    let mut out: Vec<char> = Vec::new();
    push_str(&mut out, "Warning: found ");
    push_decimal(&mut out, n as u64);
    push_str(&mut out, " SoundGIF extensions; showing the first.");
    string_from_chars(out)
}

/// The text `inspect` prints for an inspection.
pub fn inspection_report(inspection: &Inspection) -> (r: String)
    ensures
        r@ == report_text(
            inspection.extension_count as nat,
            inspection.payload@,
            inspection.actual_checksum,
        ),
{
    let p = &inspection.payload;
    let mut out: Vec<char> = Vec::new();
    if inspection.extension_count > 1 {
        push_str(&mut out, "Warning: found ");
        push_decimal(&mut out, inspection.extension_count as u64);
        push_str(&mut out, " SoundGIF extensions; showing the first.\n");
    }
    push_str(&mut out, "SoundGIF version: ");
    push_decimal(&mut out, FORMAT_VERSION as u64);
    push_str(&mut out, "\n");
    push_str(&mut out, "Audio file:       ");
    push_str(&mut out, p.file_name.as_str());
    push_str(&mut out, "\n");
    push_str(&mut out, "MIME type:        ");
    push_str(&mut out, p.mime_type.as_str());
    push_str(&mut out, "\n");
    push_str(&mut out, "Audio bytes:      ");
    push_decimal(&mut out, p.audio.len() as u64);
    push_str(&mut out, "\n");
    push_str(&mut out, "Start offset:     ");
    push_decimal(&mut out, p.start_ms as u64);
    push_str(&mut out, " ms\n");
    push_str(&mut out, "Loop:             ");
    if p.loop_audio {
        push_str(&mut out, "yes");
    } else {
        push_str(&mut out, "no");
    }
    push_str(&mut out, "\n");
    push_str(&mut out, "CRC-32:           ");
    push_hex(&mut out, p.checksum as u64, 8);
    push_str(&mut out, "\n");
    push_str(&mut out, "Integrity:        ");
    if inspection.actual_checksum == p.checksum {
        push_str(&mut out, "OK");
    } else {
        push_str(&mut out, "FAILED");
    }
    push_str(&mut out, "\n");
    assert(out@ =~= report_text(
        inspection.extension_count as nat,
        inspection.payload@,
        inspection.actual_checksum,
    ));
    string_from_chars(out)
}

} // verus!
