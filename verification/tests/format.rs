use soundgif::crc::crc32;
use soundgif::error::{GifPart, SoundGifError};
use soundgif::extension::{encode_extension, find_payload, replace_sound_extension};
use soundgif::gif::parse_gif;
use soundgif::ops::{
    embed_audio, embed_payload, extensions_warning, extract_audio, inspect_audio, inspection_report, new_payload,
    strip_audio,
};
use soundgif::payload::{decode_payload, encode_payload, read_u16, read_u32, read_u64, verify_checksum, SoundPayload};

// A complete, valid 1x1 GIF89a with a two-entry global color table.
const TINY_GIF: &[u8] = &[
    0x47, 0x49, 0x46, 0x38, 0x39, 0x61, 0x01, 0x00, 0x01, 0x00, 0x80, 0x00, 0x00, 0x00, 0x00,
    0x00, 0xff, 0xff, 0xff, 0x2c, 0x00, 0x00, 0x00, 0x00, 0x01, 0x00, 0x01, 0x00, 0x00, 0x02,
    0x02, 0x44, 0x01, 0x00, 0x3b,
];

fn sample_payload(size: usize) -> SoundPayload {
    let audio: Vec<u8> = (0..size).map(|value| (value % 251) as u8).collect();
    SoundPayload {
        loop_audio: true,
        start_ms: 125,
        mime_type: "audio/opus".to_owned(),
        file_name: "sample.opus".to_owned(),
        checksum: crc32(&audio),
        audio,
    }
}

#[test]
fn parses_tiny_gif() {
    let layout = parse_gif(TINY_GIF).unwrap();
    assert_eq!(layout.trailer, TINY_GIF.len() - 1);
    assert!(layout.sound_extensions.is_empty());
}

#[test]
fn round_trips_payload_across_many_sub_blocks() {
    let payload = sample_payload(4096);
    let extension = encode_extension(&payload).unwrap();
    let layout = parse_gif(TINY_GIF).unwrap();
    let encoded = replace_sound_extension(TINY_GIF, &layout, Some(extension.as_slice()));
    let decoded = find_payload(&encoded).unwrap();
    assert_eq!(decoded, payload);
    assert_eq!(*encoded.last().unwrap(), 0x3b);
}

#[test]
fn replacing_audio_does_not_duplicate_extension() {
    let first = sample_payload(300);
    let second = sample_payload(700);
    let layout = parse_gif(TINY_GIF).unwrap();
    let first_extension = encode_extension(&first).unwrap();
    let once = replace_sound_extension(TINY_GIF, &layout, Some(first_extension.as_slice()));
    let once_layout = parse_gif(&once).unwrap();
    let second_extension = encode_extension(&second).unwrap();
    let twice = replace_sound_extension(&once, &once_layout, Some(second_extension.as_slice()));
    let twice_layout = parse_gif(&twice).unwrap();
    assert_eq!(twice_layout.sound_extensions.len(), 1);
    assert_eq!(find_payload(&twice).unwrap(), second);
}

#[test]
fn stripping_restores_original_gif() {
    let layout = parse_gif(TINY_GIF).unwrap();
    let extension = encode_extension(&sample_payload(512)).unwrap();
    let encoded = replace_sound_extension(TINY_GIF, &layout, Some(extension.as_slice()));
    let encoded_layout = parse_gif(&encoded).unwrap();
    let stripped = replace_sound_extension(&encoded, &encoded_layout, None);
    assert_eq!(stripped, TINY_GIF);
}

#[test]
fn detects_corrupted_audio() {
    let layout = parse_gif(TINY_GIF).unwrap();
    let extension = encode_extension(&sample_payload(64)).unwrap();
    let mut encoded = replace_sound_extension(TINY_GIF, &layout, Some(extension.as_slice()));
    let last_audio_byte = encoded.len() - 3;
    encoded[last_audio_byte] ^= 0xff;
    let payload = find_payload(&encoded).unwrap();
    assert!(verify_checksum(&payload).is_err());
}

#[test]
fn crc32_matches_standard_vector() {
    assert_eq!(crc32(b"123456789"), 0xcbf4_3926);
}

#[test]
fn crc32_of_nothing_is_zero() {
    assert_eq!(crc32(b""), 0);
    assert_eq!(crc32(b"a"), 0xe8b7_be43);
}

#[test]
fn extension_layout_is_exact() {
    let payload = SoundPayload {
        loop_audio: false,
        start_ms: 0x0102_0304,
        mime_type: "a/b".to_owned(),
        file_name: "n".to_owned(),
        audio: vec![9, 8],
        checksum: 0xdead_beef,
    };
    let extension = encode_extension(&payload).unwrap();
    let mut expected = vec![0x21, 0xff, 0x0b];
    expected.extend_from_slice(b"SNDGIF01001");
    let data: Vec<u8> = vec![
        b'S', b'G', b'A', b'1', 1, 0, 0x04, 0x03, 0x02, 0x01, 2, 0, 0, 0, 0, 0, 0, 0, 0xef, 0xbe,
        0xad, 0xde, 3, 0, 1, 0, b'a', b'/', b'b', b'n', 9, 8,
    ];
    assert_eq!(encode_payload(&payload).unwrap(), data);
    expected.push(data.len() as u8);
    expected.extend_from_slice(&data);
    expected.push(0);
    assert_eq!(extension, expected);
}

#[test]
fn long_payload_uses_full_sub_blocks() {
    let payload = sample_payload(600);
    let extension = encode_extension(&payload).unwrap();
    // 26 header bytes, 10 MIME bytes, 11 name bytes and 600 audio bytes.
    let data_len = 26 + 10 + 11 + 600;
    assert_eq!(extension[14], 255);
    assert_eq!(extension[14 + 256], 255);
    assert_eq!(extension[14 + 512], (data_len - 510) as u8);
    assert_eq!(extension.len(), 14 + data_len + 3 + 1);
    assert_eq!(*extension.last().unwrap(), 0);
}

#[test]
fn rejects_non_gif_input() {
    assert_eq!(parse_gif(b"PNG89a--------").unwrap_err(), SoundGifError::NotGif);
    assert_eq!(parse_gif(b"GIF89a").unwrap_err(), SoundGifError::NotGif);
}

#[test]
fn reports_truncated_gif() {
    let truncated = &TINY_GIF[..TINY_GIF.len() - 1];
    assert_eq!(
        parse_gif(truncated).unwrap_err(),
        SoundGifError::Truncated { part: GifPart::Block, at: truncated.len() }
    );
    let short = &TINY_GIF[..16];
    assert_eq!(
        parse_gif(short).unwrap_err(),
        SoundGifError::Truncated { part: GifPart::GlobalColorTable, at: 19 }
    );
}

#[test]
fn reports_invalid_block_marker() {
    let mut gif = TINY_GIF.to_vec();
    gif[19] = 0x55;
    assert_eq!(
        parse_gif(&gif).unwrap_err(),
        SoundGifError::InvalidBlockMarker { marker: 0x55, at: 19 }
    );
}

#[test]
fn other_application_extensions_are_kept() {
    let mut gif = TINY_GIF[..19].to_vec();
    // NETSCAPE2.0 looping extension.
    gif.extend_from_slice(&[0x21, 0xff, 0x0b]);
    gif.extend_from_slice(b"NETSCAPE2.0");
    gif.extend_from_slice(&[0x03, 0x01, 0x00, 0x00, 0x00]);
    gif.extend_from_slice(&TINY_GIF[19..]);
    let layout = parse_gif(&gif).unwrap();
    assert!(layout.sound_extensions.is_empty());
    let embedded = embed_audio(&gif, &sample_payload(10)).unwrap();
    let (stripped, count) = strip_audio(&embedded).unwrap();
    assert_eq!(count, 1);
    assert_eq!(stripped, gif);
}

#[test]
fn strip_without_audio_is_an_error() {
    assert_eq!(strip_audio(TINY_GIF).unwrap_err(), SoundGifError::NoAudio);
    assert_eq!(find_payload(TINY_GIF).unwrap_err(), SoundGifError::NoAudio);
    assert!(inspect_audio(TINY_GIF).unwrap().is_none());
}

#[test]
fn embed_extract_and_inspect() {
    let payload = new_payload((0..2048).map(|v| (v % 239) as u8).collect(), "audio/opus".to_owned(), "tone.opus".to_owned(), 75, true);
    let embedded = embed_audio(TINY_GIF, &payload).unwrap();
    let extracted = extract_audio(&embedded).unwrap();
    assert_eq!(extracted, payload);
    let inspection = inspect_audio(&embedded).unwrap().unwrap();
    assert_eq!(inspection.extension_count, 1);
    assert_eq!(inspection.payload.start_ms, 75);
    assert_eq!(inspection.actual_checksum, payload.checksum);
    let (stripped, _) = strip_audio(&embedded).unwrap();
    assert_eq!(stripped, TINY_GIF);
}

#[test]
fn extract_reports_checksum_mismatch() {
    let mut payload = sample_payload(16);
    let actual = payload.checksum;
    payload.checksum = actual ^ 1;
    let embedded = embed_audio(TINY_GIF, &payload).unwrap();
    assert_eq!(
        extract_audio(&embedded).unwrap_err(),
        SoundGifError::ChecksumMismatch { expected: actual ^ 1, actual }
    );
}

#[test]
fn payload_errors() {
    assert_eq!(decode_payload(&[0; 10]).unwrap_err(), SoundGifError::PayloadTruncated);
    let good = encode_payload(&sample_payload(4)).unwrap();
    let mut bad_magic = good.clone();
    bad_magic[0] = b'X';
    assert_eq!(decode_payload(&bad_magic).unwrap_err(), SoundGifError::InvalidMagic);
    let mut bad_version = good.clone();
    bad_version[4] = 7;
    assert_eq!(
        decode_payload(&bad_version).unwrap_err(),
        SoundGifError::UnsupportedVersion { version: 7 }
    );
    let mut longer = good.clone();
    longer.push(0);
    assert_eq!(
        decode_payload(&longer).unwrap_err(),
        SoundGifError::LengthMismatch { described: good.len(), found: good.len() + 1 }
    );
    let mut bad_mime = good.clone();
    bad_mime[26] = 0xff;
    assert_eq!(decode_payload(&bad_mime).unwrap_err(), SoundGifError::MimeTypeNotUtf8);
    let mut bad_name = good.clone();
    bad_name[26 + 10] = 0xc0;
    assert_eq!(decode_payload(&bad_name).unwrap_err(), SoundGifError::FileNameNotUtf8);
    let mut overflow = good.clone();
    for b in &mut overflow[10..18] {
        *b = 0xff;
    }
    let err = decode_payload(&overflow).unwrap_err();
    assert!(err == SoundGifError::PayloadSizeOverflow || err == SoundGifError::AudioTooLargeForPlatform);
    let mut flags_off = good.clone();
    flags_off[5] = 2;
    assert!(!decode_payload(&flags_off).unwrap().loop_audio);
}

#[test]
fn encode_rejects_long_metadata() {
    let mut payload = sample_payload(1);
    payload.mime_type = "m".repeat(70_000);
    assert_eq!(encode_extension(&payload).unwrap_err(), SoundGifError::MimeTypeTooLong);
    let mut payload = sample_payload(1);
    payload.file_name = "n".repeat(65_536);
    assert_eq!(encode_extension(&payload).unwrap_err(), SoundGifError::FileNameTooLong);
}

#[test]
fn header_fields_read_little_endian() {
    let data = [1u8, 2, 3, 4, 5, 6, 7, 8, 9];
    assert_eq!(read_u16(&data, 0).unwrap(), 0x0201);
    assert_eq!(read_u32(&data, 1).unwrap(), 0x0504_0302);
    assert_eq!(read_u64(&data, 1).unwrap(), 0x0908_0706_0504_0302);
    assert_eq!(read_u64(&data, 2).unwrap_err(), SoundGifError::HeaderTruncated);
    assert_eq!(read_u16(&data, 8).unwrap_err(), SoundGifError::HeaderTruncated);
}

#[test]
fn unicode_metadata_round_trips() {
    let mut payload = sample_payload(3);
    payload.mime_type = "audio/ögg".to_owned();
    payload.file_name = "héllo 🎵.ogg".to_owned();
    let embedded = embed_audio(TINY_GIF, &payload).unwrap();
    assert_eq!(find_payload(&embedded).unwrap(), payload);
}

#[test]
fn error_messages() {
    assert_eq!(SoundGifError::NotGif.message(), "input is not a valid GIF87a/GIF89a file");
    assert_eq!(
        SoundGifError::Truncated { part: GifPart::SubBlockSize, at: 42 }.message(),
        "truncated GIF while reading data sub-block size at byte 42"
    );
    assert_eq!(
        SoundGifError::InvalidBlockMarker { marker: 0x0a, at: 19 }.message(),
        "invalid GIF block marker 0x0a at byte 19"
    );
    assert_eq!(
        SoundGifError::ChecksumMismatch { expected: 0xcbf4_3926, actual: 0x12 }.message(),
        "audio checksum mismatch: expected cbf43926, got 00000012"
    );
    assert_eq!(
        SoundGifError::LengthMismatch { described: 100, found: 99 }.message(),
        "SoundGIF payload length mismatch: header describes 100 bytes, found 99"
    );
    assert_eq!(
        SoundGifError::UnsupportedVersion { version: 7 }.message(),
        "unsupported SoundGIF payload version 7"
    );
    assert_eq!(SoundGifError::NoAudio.message(), "no SoundGIF audio found");
    assert_eq!(SoundGifError::FileNameNotUtf8.message(), "SoundGIF filename is not valid UTF-8");
    assert_eq!(GifPart::LzwMinimumCodeSize.name(), "LZW minimum code size");
}

#[test]
fn inspection_report_lists_every_field() {
    let payload = new_payload(
        (0..2048).map(|v| (v % 239) as u8).collect(),
        "audio/opus".to_owned(),
        "tone.opus".to_owned(),
        75,
        true,
    );
    let embedded = embed_audio(TINY_GIF, &payload).unwrap();
    let report = inspection_report(&inspect_audio(&embedded).unwrap().unwrap());
    let expected = format!(
        "SoundGIF version: 1\nAudio file:       tone.opus\nMIME type:        audio/opus\nAudio bytes:      2048\nStart offset:     75 ms\nLoop:             yes\nCRC-32:           {:08x}\nIntegrity:        OK\n",
        payload.checksum
    );
    assert_eq!(report, expected);
    assert!(report.contains("MIME type:        audio/opus"));
    assert!(report.contains("Start offset:     75 ms"));
    assert!(report.contains("Integrity:        OK"));
}

#[test]
fn inspection_report_warns_about_several_extensions() {
    let mut bad = sample_payload(8);
    bad.loop_audio = false;
    bad.checksum ^= 0xff;
    let extension = encode_extension(&bad).unwrap();
    let mut gif = TINY_GIF[..TINY_GIF.len() - 1].to_vec();
    gif.extend_from_slice(&extension);
    gif.extend_from_slice(&extension);
    gif.push(0x3b);
    let inspection = inspect_audio(&gif).unwrap().unwrap();
    assert_eq!(inspection.extension_count, 2);
    let report = inspection_report(&inspection);
    assert!(report.starts_with("Warning: found 2 SoundGIF extensions; showing the first.\nSoundGIF version: 1\n"));
    assert!(report.contains("Loop:             no\n"));
    assert!(report.ends_with("Integrity:        FAILED\n"));
}

#[test]
fn embed_payload_fills_in_the_defaults() {
    let detected = embed_payload(vec![1, 2, 3], None, Some("MP3"), Some("song.MP3"), 10, false);
    assert_eq!(detected.mime_type, "audio/mpeg");
    assert_eq!(detected.file_name, "song.MP3");
    assert_eq!(detected.checksum, crc32(&[1, 2, 3]));
    assert_eq!((detected.start_ms, detected.loop_audio), (10, false));
    let overridden = embed_payload(vec![], Some("audio/x-custom".to_owned()), Some("mp3"), None, 0, true);
    assert_eq!(overridden.mime_type, "audio/x-custom");
    assert_eq!(overridden.file_name, "audio.bin");
    let unknown = embed_payload(vec![], None, None, None, 0, true);
    assert_eq!(unknown.mime_type, "application/octet-stream");
}

#[test]
fn bytes_after_the_trailer_are_ignored() {
    let embedded = embed_audio(TINY_GIF, &sample_payload(40)).unwrap();
    let layout = parse_gif(&embedded).unwrap();
    let mut longer = embedded.clone();
    longer.extend_from_slice(&[0x21, 0xff, 0x0b, 0x00, 0x99, 0x3b]);
    let longer_layout = parse_gif(&longer).unwrap();
    assert_eq!(longer_layout.trailer, layout.trailer);
    assert_eq!(longer_layout.sound_extensions, layout.sound_extensions);
}

#[test]
fn stripped_gif_has_no_sound_extension() {
    let mut gif = TINY_GIF[..TINY_GIF.len() - 1].to_vec();
    let extension = encode_extension(&sample_payload(300)).unwrap();
    gif.extend_from_slice(&extension);
    gif.extend_from_slice(&extension);
    gif.push(0x3b);
    let layout = parse_gif(&gif).unwrap();
    assert_eq!(layout.sound_extensions.len(), 2);
    let stripped = replace_sound_extension(&gif, &layout, None);
    let stripped_layout = parse_gif(&stripped).unwrap();
    assert!(stripped_layout.sound_extensions.is_empty());
    assert_eq!(stripped_layout.trailer, stripped.len() - 1);
    assert_eq!(stripped, TINY_GIF);
}

#[test]
fn several_extensions_warning_text() {
    assert_eq!(extensions_warning(3), "Warning: found 3 SoundGIF extensions; showing the first.");
}
