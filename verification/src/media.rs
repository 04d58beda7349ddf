use vstd::prelude::*;

use crate::text::{ascii_lower, ascii_lowercase, str_eq};

verus! {

/// `ext` with its ASCII letters in lower case.
pub open spec fn lower(ext: Seq<char>) -> Seq<char> {
    ext.map_values(|c: char| ascii_lower(c))
}

/// The lower-cased extension, when there is one.
pub open spec fn spec_extension(ext: Option<Seq<char>>) -> Option<Seq<char>> {
    match ext {
        Some(e) => Some(lower(e)),
        None => None,
    }
}

/// The MIME type recorded for an audio file with extension `ext` (compared without case).
pub open spec fn mime_for_extension(ext: Option<Seq<char>>) -> Seq<char> {
    match spec_extension(ext) {
        Some(e) => if e == "opus"@ {
            "audio/opus"@
        } else if e == "ogg"@ || e == "oga"@ {
            "audio/ogg"@
        } else if e == "mp3"@ {
            "audio/mpeg"@
        } else if e == "wav"@ || e == "wave"@ {
            "audio/wav"@
        } else if e == "flac"@ {
            "audio/flac"@
        } else if e == "aac"@ {
            "audio/aac"@
        } else if e == "m4a"@ || e == "mp4"@ {
            "audio/mp4"@
        } else if e == "webm"@ {
            "audio/webm"@
        } else {
            "application/octet-stream"@
        },
        None => "application/octet-stream"@,
    }
}

/// Whether the lower-cased extension names a video container the converter accepts.
pub open spec fn is_video_extension(ext: Option<Seq<char>>) -> bool {
    match spec_extension(ext) {
        Some(e) => e == "mp4"@ || e == "m4v"@ || e == "mov"@ || e == "webm"@ || e == "mkv"@
            || e == "avi"@,
        None => false,
    }
}

/// Whether the lower-cased extension is `gif`.
pub open spec fn is_gif_extension(ext: Option<Seq<char>>) -> bool {
    spec_extension(ext) == Some("gif"@)
}

/// The view of an optional string slice.
pub open spec fn opt_view(s: Option<&str>) -> Option<Seq<char>> {
    match s {
        Some(x) => Some(x@),
        None => None,
    }
}

/// The lower-cased form of a file extension (the part of the file name after its last dot,
/// as `Path::extension` gives it).
pub fn extension(ext: Option<&str>) -> (r: Option<String>)
    ensures
        match r {
            Some(s) => spec_extension(opt_view(ext)) == Some(s@),
            None => spec_extension(opt_view(ext)) is None,
        },
{
    match ext {
        Some(e) => Some(ascii_lowercase(e)),
        None => None,
    }
}

/// Guesses the MIME type of an audio file from its extension.
pub fn detect_mime(ext: Option<&str>) -> (r: &'static str)
    ensures
        r@ == mime_for_extension(opt_view(ext)),
{
    let lowered = extension(ext);
    match lowered {
        None => "application/octet-stream",
        Some(e) => {
            let e = e.as_str();
            if str_eq(e, "opus") {
                "audio/opus"
            } else if str_eq(e, "ogg") || str_eq(e, "oga") {
                "audio/ogg"
            } else if str_eq(e, "mp3") {
                "audio/mpeg"
            } else if str_eq(e, "wav") || str_eq(e, "wave") {
                "audio/wav"
            } else if str_eq(e, "flac") {
                "audio/flac"
            } else if str_eq(e, "aac") {
                "audio/aac"
            } else if str_eq(e, "m4a") || str_eq(e, "mp4") {
                "audio/mp4"
            } else if str_eq(e, "webm") {
                "audio/webm"
            } else {
                "application/octet-stream"
            }
        },
    }
}

/// Whether a file with this extension is a video the player converts.
pub fn is_video(ext: Option<&str>) -> (r: bool)
    ensures
        r == is_video_extension(opt_view(ext)),
{
    match extension(ext) {
        None => false,
        Some(e) => {
            let e = e.as_str();
            str_eq(e, "mp4") || str_eq(e, "m4v") || str_eq(e, "mov") || str_eq(e, "webm")
                || str_eq(e, "mkv") || str_eq(e, "avi")
        },
    }
}

/// Whether a file with this extension is a GIF.
pub fn is_gif(ext: Option<&str>) -> (r: bool)
    ensures
        r == is_gif_extension(opt_view(ext)),
{
    match extension(ext) {
        None => false,
        Some(e) => str_eq(e.as_str(), "gif"),
    }
}

/// Containers whose audio track is copied without re-encoding.
#[derive(Clone, Copy, Debug, PartialEq, Eq, Structural)]
pub enum AudioFormat {
    /// AAC or similar in an MP4 container (`audio/mp4`, `.m4a`).
    Mp4,
    /// A WebM audio stream (`audio/webm`, `.webm`).
    Webm,
    /// Opus re-encoded by the fallback path (`audio/opus`, `.opus`).
    Opus,
}

/// The MIME type of an audio format.
pub open spec fn format_mime(f: AudioFormat) -> Seq<char> {
    match f {
        AudioFormat::Mp4 => "audio/mp4"@,
        AudioFormat::Webm => "audio/webm"@,
        AudioFormat::Opus => "audio/opus"@,
    }
}

/// The file extension of an audio format.
pub open spec fn format_extension(f: AudioFormat) -> Seq<char> {
    match f {
        AudioFormat::Mp4 => "m4a"@,
        AudioFormat::Webm => "webm"@,
        AudioFormat::Opus => "opus"@,
    }
}

impl AudioFormat {
    pub fn mime_type(&self) -> (r: &'static str)
        ensures
            r@ == format_mime(*self),
    {
        match self {
            AudioFormat::Mp4 => "audio/mp4",
            AudioFormat::Webm => "audio/webm",
            AudioFormat::Opus => "audio/opus",
        }
    }

    pub fn extension(&self) -> (r: &'static str)
        ensures
            r@ == format_extension(*self),
    {
        match self {
            AudioFormat::Mp4 => "m4a",
            AudioFormat::Webm => "webm",
            AudioFormat::Opus => "opus",
        }
    }
}

/// Which container a video's audio is first copied into, by the video's extension.
pub open spec fn spec_copy_target(ext: Option<Seq<char>>) -> Option<AudioFormat> {
    match spec_extension(ext) {
        Some(e) => if e == "mp4"@ || e == "m4v"@ || e == "mov"@ {
            Some(AudioFormat::Mp4)
        } else if e == "webm"@ {
            Some(AudioFormat::Webm)
        } else {
            None
        },
        None => None,
    }
}

/// Which container a video's audio is first copied into; `None` when it is re-encoded to
/// Opus straight away.
pub fn audio_copy_target(ext: Option<&str>) -> (r: Option<AudioFormat>)
    ensures
        r == spec_copy_target(opt_view(ext)),
{
    match extension(ext) {
        None => None,
        Some(e) => {
            let e = e.as_str();
            if str_eq(e, "mp4") || str_eq(e, "m4v") || str_eq(e, "mov") {
                Some(AudioFormat::Mp4)
            } else if str_eq(e, "webm") {
                Some(AudioFormat::Webm)
            } else {
                None
            }
        },
    }
}

/// Which MIME type an audio file's extension selects, whatever the case of its letters:
/// `opus`, `ogg`/`oga`, `mp3`, `wav`/`wave`, `flac`, `aac`, `m4a`/`mp4` and `webm` name their
/// audio types, and anything else (or no extension) gives `application/octet-stream`.
pub proof fn law_mime_by_extension(e: Seq<char>)
    ensures
        lower(e) == "opus"@ ==> mime_for_extension(Some(e)) == "audio/opus"@,
        lower(e) == "ogg"@ || lower(e) == "oga"@ ==> mime_for_extension(Some(e)) == "audio/ogg"@,
        lower(e) == "mp3"@ ==> mime_for_extension(Some(e)) == "audio/mpeg"@,
        lower(e) == "wav"@ || lower(e) == "wave"@ ==> mime_for_extension(Some(e)) == "audio/wav"@,
        lower(e) == "flac"@ ==> mime_for_extension(Some(e)) == "audio/flac"@,
        lower(e) == "aac"@ ==> mime_for_extension(Some(e)) == "audio/aac"@,
        lower(e) == "m4a"@ || lower(e) == "mp4"@ ==> mime_for_extension(Some(e)) == "audio/mp4"@,
        lower(e) == "webm"@ ==> mime_for_extension(Some(e)) == "audio/webm"@,
        mime_for_extension(None) == "application/octet-stream"@,
        mime_for_extension(Some(e)) == mime_for_extension(Some(lower(e))),
{
    reveal_strlit("opus");
    reveal_strlit("ogg");
    reveal_strlit("oga");
    reveal_strlit("mp3");
    reveal_strlit("wav");
    reveal_strlit("wave");
    reveal_strlit("flac");
    reveal_strlit("aac");
    reveal_strlit("m4a");
    reveal_strlit("mp4");
    reveal_strlit("webm");
    let l = lower(e);
    if l.len() >= 3 {
        // The known extensions differ in one of their first three characters.
        let (c0, c1, c2) = (l[0], l[1], l[2]);
        assert(l.len() >= 3 && l[0] == c0 && l[1] == c1 && l[2] == c2);
    }
    lemma_lower_idempotent(e);
}

/// Lower-casing twice is lower-casing once.
pub proof fn lemma_lower_idempotent(e: Seq<char>)
    ensures
        lower(lower(e)) == lower(e),
{
    assert(lower(lower(e)) =~= lower(e));
}

/// A file is a video the player converts exactly when its extension, lower-cased, is `mp4`,
/// `m4v`, `mov`, `webm`, `mkv` or `avi`; a GIF is never one of them.
pub proof fn law_video_extensions(e: Seq<char>)
    ensures
        is_video_extension(Some(e)) <==> (lower(e) == "mp4"@ || lower(e) == "m4v"@ || lower(e)
            == "mov"@ || lower(e) == "webm"@ || lower(e) == "mkv"@ || lower(e) == "avi"@),
        is_gif_extension(Some(e)) <==> lower(e) == "gif"@,
        is_gif_extension(Some(e)) ==> !is_video_extension(Some(e)),
        !is_video_extension(None) && !is_gif_extension(None),
{
    reveal_strlit("gif");
    reveal_strlit("mp4");
    reveal_strlit("m4v");
    reveal_strlit("mov");
    reveal_strlit("webm");
    reveal_strlit("mkv");
    reveal_strlit("avi");
    if lower(e) == "gif"@ {
        assert(lower(e)[0] == 'g');
    }
}

/// Each audio format is recorded under its own MIME type and extension, all of them audio
/// types: no two formats share one.
pub proof fn law_audio_formats_distinct(f: AudioFormat, g: AudioFormat)
    ensures
        format_mime(f).subrange(0, 6) == "audio/"@,
        f != g ==> format_mime(f) != format_mime(g),
        f != g ==> format_extension(f) != format_extension(g),
{
    reveal_strlit("audio/mp4");
    reveal_strlit("audio/webm");
    reveal_strlit("audio/opus");
    reveal_strlit("audio/");
    reveal_strlit("m4a");
    reveal_strlit("webm");
    reveal_strlit("opus");
    assert(format_mime(f).subrange(0, 6) =~= "audio/"@);
    if f != g {
        assert(format_mime(f)[6] != format_mime(g)[6] || format_mime(f).len() != format_mime(g).len());
        assert(format_extension(f)[0] != format_extension(g)[0] || format_extension(f).len()
            != format_extension(g).len());
    }
}

/// Audio copied out of a video keeps its container's type: MP4, M4V and MOV audio is recorded
/// as `audio/mp4` in a `.m4a` file, WebM audio as `audio/webm` in a `.webm` file; other videos
/// have no copy target and their audio is re-encoded.
pub proof fn law_copied_audio_keeps_container(e: Seq<char>)
    ensures
        lower(e) == "mp4"@ || lower(e) == "m4v"@ || lower(e) == "mov"@ ==> (spec_copy_target(
            Some(e),
        ) matches Some(f) && format_mime(f) == "audio/mp4"@ && format_extension(f) == "m4a"@),
        lower(e) == "webm"@ ==> (spec_copy_target(Some(e)) matches Some(f) && format_mime(f)
            == "audio/webm"@ && format_extension(f) == "webm"@),
        spec_copy_target(Some(e)) is Some ==> is_video_extension(Some(e)),
        spec_copy_target(None) is None,
{
    reveal_strlit("mp4");
    reveal_strlit("m4v");
    reveal_strlit("mov");
    reveal_strlit("webm");
    if lower(e) == "webm"@ {
        assert(lower(e)[0] == 'w');
    }
}

} // verus!
