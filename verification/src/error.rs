use vstd::prelude::*;

use crate::text::{decimal, hex_fixed, push_decimal, push_hex, push_str, string_from_chars};

verus! {

/// The part of a GIF that was being read when the input ended.
#[derive(Clone, Copy, Debug, PartialEq, Eq, Structural)]
pub enum GifPart {
    GlobalColorTable,
    Block,
    ImageDescriptor,
    LocalColorTable,
    LzwMinimumCodeSize,
    ExtensionIntroducer,
    ApplicationExtensionSize,
    ApplicationExtensionHeader,
    SubBlockSize,
    SubBlock,
}

/// Every way in which reading, writing or checking a SoundGIF can fail.
#[derive(Clone, Copy, Debug, PartialEq, Eq, Structural)]
pub enum SoundGifError {
    /// The input does not start with a GIF87a/GIF89a header.
    NotGif,
    /// The GIF ends inside `part`, which starts at byte `at`.
    Truncated { part: GifPart, at: usize },
    /// A block starts with a byte that is not an image, extension or trailer marker.
    InvalidBlockMarker { marker: u8, at: usize },
    /// The GIF holds no SoundGIF application extension.
    NoAudio,
    /// The MIME type needs more than 65535 bytes.
    MimeTypeTooLong,
    /// The file name needs more than 65535 bytes.
    FileNameTooLong,
    /// The encoded payload would not fit in memory.
    PayloadTooLarge,
    /// The payload is shorter than its fixed header.
    PayloadTruncated,
    /// The payload does not start with the payload magic.
    InvalidMagic,
    /// The payload names a format version this library does not read.
    UnsupportedVersion { version: u8 },
    /// A header field lies past the end of the payload.
    HeaderTruncated,
    /// The audio length does not fit in this platform's address space.
    AudioTooLargeForPlatform,
    /// The lengths in the header add up past this platform's address space.
    PayloadSizeOverflow,
    /// The header describes `described` bytes but the payload holds `found`.
    LengthMismatch { described: usize, found: usize },
    /// The MIME type is not valid UTF-8.
    MimeTypeNotUtf8,
    /// The file name is not valid UTF-8.
    FileNameNotUtf8,
    /// The audio's CRC-32 is `actual`, the header records `expected`.
    ChecksumMismatch { expected: u32, actual: u32 },
}

/// How a part of a GIF is named in messages.
pub open spec fn gif_part_text(p: GifPart) -> Seq<char> {
    match p {
        GifPart::GlobalColorTable => "global color table"@,
        GifPart::Block => "GIF block"@,
        GifPart::ImageDescriptor => "image descriptor"@,
        GifPart::LocalColorTable => "local color table"@,
        GifPart::LzwMinimumCodeSize => "LZW minimum code size"@,
        GifPart::ExtensionIntroducer => "extension introducer"@,
        GifPart::ApplicationExtensionSize => "application extension size"@,
        GifPart::ApplicationExtensionHeader => "application extension header"@,
        GifPart::SubBlockSize => "data sub-block size"@,
        GifPart::SubBlock => "data sub-block"@,
    }
}

impl GifPart {
    /// The name of this part in messages.
    pub fn name(&self) -> (r: &'static str)
        ensures
            r@ == gif_part_text(*self),
    {
        match self {
            GifPart::GlobalColorTable => "global color table",
            GifPart::Block => "GIF block",
            GifPart::ImageDescriptor => "image descriptor",
            GifPart::LocalColorTable => "local color table",
            GifPart::LzwMinimumCodeSize => "LZW minimum code size",
            GifPart::ExtensionIntroducer => "extension introducer",
            GifPart::ApplicationExtensionSize => "application extension size",
            GifPart::ApplicationExtensionHeader => "application extension header",
            GifPart::SubBlockSize => "data sub-block size",
            GifPart::SubBlock => "data sub-block",
        }
    }
}

/// The message shown for an error.
pub open spec fn error_text(e: SoundGifError) -> Seq<char> {
    match e {
        SoundGifError::NotGif => "input is not a valid GIF87a/GIF89a file"@,
        SoundGifError::Truncated { part, at } => "truncated GIF while reading "@ + gif_part_text(
            part,
        ) + " at byte "@ + decimal(at as nat),
        SoundGifError::InvalidBlockMarker { marker, at } => "invalid GIF block marker 0x"@
            + hex_fixed(marker as nat, 2) + " at byte "@ + decimal(at as nat),
        SoundGifError::NoAudio => "no SoundGIF audio found"@,
        SoundGifError::MimeTypeTooLong => "MIME type is too long"@,
        SoundGifError::FileNameTooLong => "audio filename is too long"@,
        SoundGifError::PayloadTooLarge => "payload size overflow"@,
        SoundGifError::PayloadTruncated => "SoundGIF payload is truncated"@,
        SoundGifError::InvalidMagic => "SoundGIF payload has an invalid magic value"@,
        SoundGifError::UnsupportedVersion { version } => "unsupported SoundGIF payload version "@
            + decimal(version as nat),
        SoundGifError::HeaderTruncated => "SoundGIF header is truncated"@,
        SoundGifError::AudioTooLargeForPlatform => "embedded audio is too large for this platform"@,
        SoundGifError::PayloadSizeOverflow => "SoundGIF payload size overflow"@,
        SoundGifError::LengthMismatch { described, found } =>
            "SoundGIF payload length mismatch: header describes "@ + decimal(described as nat)
            + " bytes, found "@ + decimal(found as nat),
        SoundGifError::MimeTypeNotUtf8 => "SoundGIF MIME type is not valid UTF-8"@,
        SoundGifError::FileNameNotUtf8 => "SoundGIF filename is not valid UTF-8"@,
        SoundGifError::ChecksumMismatch { expected, actual } => "audio checksum mismatch: expected "@
            + hex_fixed(expected as nat, 8) + ", got "@ + hex_fixed(actual as nat, 8),
    }
}

impl SoundGifError {
    /// The message shown for this error.
    pub fn message(&self) -> (r: String)
        ensures
            r@ == error_text(*self),
    {
        let mut out: Vec<char> = Vec::new();
        match *self {
            SoundGifError::NotGif => push_str(&mut out, "input is not a valid GIF87a/GIF89a file"),
            SoundGifError::Truncated { part, at } => {
                push_str(&mut out, "truncated GIF while reading ");
                push_str(&mut out, part.name());
                push_str(&mut out, " at byte ");
                push_decimal(&mut out, at as u64);
            },
            SoundGifError::InvalidBlockMarker { marker, at } => {
                push_str(&mut out, "invalid GIF block marker 0x");
                push_hex(&mut out, marker as u64, 2);
                push_str(&mut out, " at byte ");
                push_decimal(&mut out, at as u64);
            },
            SoundGifError::NoAudio => push_str(&mut out, "no SoundGIF audio found"),
            SoundGifError::MimeTypeTooLong => push_str(&mut out, "MIME type is too long"),
            SoundGifError::FileNameTooLong => push_str(&mut out, "audio filename is too long"),
            SoundGifError::PayloadTooLarge => push_str(&mut out, "payload size overflow"),
            SoundGifError::PayloadTruncated => push_str(&mut out, "SoundGIF payload is truncated"),
            SoundGifError::InvalidMagic => push_str(
                &mut out,
                "SoundGIF payload has an invalid magic value",
            ),
            SoundGifError::UnsupportedVersion { version } => {
                push_str(&mut out, "unsupported SoundGIF payload version ");
                push_decimal(&mut out, version as u64);
            },
            SoundGifError::HeaderTruncated => push_str(&mut out, "SoundGIF header is truncated"),
            SoundGifError::AudioTooLargeForPlatform => push_str(
                &mut out,
                "embedded audio is too large for this platform",
            ),
            SoundGifError::PayloadSizeOverflow => push_str(&mut out, "SoundGIF payload size overflow"),
            SoundGifError::LengthMismatch { described, found } => {
                push_str(&mut out, "SoundGIF payload length mismatch: header describes ");
                push_decimal(&mut out, described as u64);
                push_str(&mut out, " bytes, found ");
                push_decimal(&mut out, found as u64);
            },
            SoundGifError::MimeTypeNotUtf8 => push_str(&mut out, "SoundGIF MIME type is not valid UTF-8"),
            SoundGifError::FileNameNotUtf8 => push_str(&mut out, "SoundGIF filename is not valid UTF-8"),
            SoundGifError::ChecksumMismatch { expected, actual } => {
                push_str(&mut out, "audio checksum mismatch: expected ");
                push_hex(&mut out, expected as u64, 8);
                push_str(&mut out, ", got ");
                push_hex(&mut out, actual as u64, 8);
            },
        }
        string_from_chars(out)
    }
}

} // verus!
