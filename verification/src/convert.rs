use vstd::prelude::*;

use crate::error::SoundGifError;
use crate::media::{audio_copy_target, format_extension, format_mime, opt_view, spec_copy_target, AudioFormat};
use crate::ops::{
    embed_audio, law_extract_after_embed, new_payload, payload_for, spec_embed, spec_extract,
};
use crate::gif::spec_parse_gif;
use crate::payload::{spec_encode_payload, PayloadModel};
use crate::error::error_text;
use crate::text::{chars_of, decimal, push_decimal, push_str, string_from_chars};

verus! {

/// `std::path::PathBuf`, carried through unread.
#[verifier::external_type_specification]
#[verifier::external_body]
pub struct ExPathBuf(std::path::PathBuf);

/// Settings for turning a video into a SoundGIF.
#[derive(Debug, Clone)]
pub struct ConversionOptions {
    pub ffmpeg: Option<std::path::PathBuf>,
    pub fps: u32,
    pub width: u32,
    pub palette_colors: u16,
    pub audio_bitrate: String,
}

impl Default for ConversionOptions {
    fn default() -> (r: Self)
        ensures
            r.ffmpeg is None,
            r.fps == 15,
            r.width == 640,
            r.palette_colors == 128,
            r.audio_bitrate@ == "64k"@,
    {
        ConversionOptions {
            ffmpeg: None,
            fps: 15,
            width: 640,
            palette_colors: 128,
            audio_bitrate: "64k".to_owned(),
        }
    }
}

/// Why a video cannot be converted.
#[derive(Clone, Copy, Debug, PartialEq, Eq, Structural)]
pub enum ConversionError {
    /// The input video is not a file.
    InputMissing,
    /// The frame rate is outside 1..=60.
    FpsOutOfRange,
    /// The width is outside 32..=4096.
    WidthOutOfRange,
    /// The palette size is outside 2..=256.
    PaletteOutOfRange,
    /// The bitrate is empty or holds something other than digits and `k`, `K`, `m`, `M`.
    InvalidBitrate,
    /// The rendered GIF or the embedding step failed.
    Format(SoundGifError),
}

/// A character allowed in a bitrate such as `96k` or `1M`.
pub open spec fn bitrate_char(c: char) -> bool {
    ('0' <= c <= '9') || c == 'k' || c == 'K' || c == 'm' || c == 'M'
}

/// Whether the options and input allow a conversion, and the first reason they do not.
pub open spec fn spec_validate(input_is_file: bool, o: ConversionOptions) -> Result<(), ConversionError> {
    if !input_is_file {
        Err(ConversionError::InputMissing)
    } else if !(1 <= o.fps <= 60) {
        Err(ConversionError::FpsOutOfRange)
    } else if !(32 <= o.width <= 4096) {
        Err(ConversionError::WidthOutOfRange)
    } else if !(2 <= o.palette_colors <= 256) {
        Err(ConversionError::PaletteOutOfRange)
    } else if o.audio_bitrate@.len() == 0 || exists|i: int|
        0 <= i < o.audio_bitrate@.len() && !bitrate_char(#[trigger] o.audio_bitrate@[i]) {
        Err(ConversionError::InvalidBitrate)
    } else {
        Ok(())
    }
}

/// A conversion is allowed exactly when the input is a file, the frame rate is 1 to 60, the
/// width 32 to 4096 pixels, the palette 2 to 256 colours and the bitrate a non-empty run of
/// digits and `k`, `K`, `m`, `M`; otherwise the first of these that fails, in this order, is
/// the reason.
pub proof fn law_conversion_limits(input_is_file: bool, o: ConversionOptions)
    ensures
        spec_validate(input_is_file, o) is Ok <==> (input_is_file && 1 <= o.fps <= 60 && 32
            <= o.width <= 4096 && 2 <= o.palette_colors <= 256 && o.audio_bitrate@.len() > 0
            && forall|i: int|
            0 <= i < o.audio_bitrate@.len() ==> ('0' <= #[trigger] o.audio_bitrate@[i] <= '9'
                || o.audio_bitrate@[i] == 'k' || o.audio_bitrate@[i] == 'K'
                || o.audio_bitrate@[i] == 'm' || o.audio_bitrate@[i] == 'M')),
        !input_is_file ==> spec_validate(input_is_file, o) == Err::<(), ConversionError>(
            ConversionError::InputMissing,
        ),
        input_is_file && !(1 <= o.fps <= 60) ==> spec_validate(input_is_file, o) == Err::<
            (),
            ConversionError,
        >(ConversionError::FpsOutOfRange),
        input_is_file && 1 <= o.fps <= 60 && !(32 <= o.width <= 4096) ==> spec_validate(
            input_is_file,
            o,
        ) == Err::<(), ConversionError>(ConversionError::WidthOutOfRange),
        input_is_file && 1 <= o.fps <= 60 && 32 <= o.width <= 4096 && !(2 <= o.palette_colors
            <= 256) ==> spec_validate(input_is_file, o) == Err::<(), ConversionError>(
            ConversionError::PaletteOutOfRange,
        ),
{
    if input_is_file && 1 <= o.fps <= 60 && 32 <= o.width <= 4096 && 2 <= o.palette_colors <= 256 {
        if o.audio_bitrate@.len() > 0 && (exists|i: int|
            0 <= i < o.audio_bitrate@.len() && !bitrate_char(#[trigger] o.audio_bitrate@[i])) {
            let i = choose|i: int|
                0 <= i < o.audio_bitrate@.len() && !bitrate_char(#[trigger] o.audio_bitrate@[i]);
            assert(!('0' <= o.audio_bitrate@[i] <= '9' || o.audio_bitrate@[i] == 'k'
                || o.audio_bitrate@[i] == 'K' || o.audio_bitrate@[i] == 'm'
                || o.audio_bitrate@[i] == 'M'));
        }
    }
}

/// Checks the conversion request before any outside work starts.
pub fn validate_conversion(input_is_file: bool, options: &ConversionOptions) -> (r: Result<
    (),
    ConversionError,
>)
    ensures
        r == spec_validate(input_is_file, *options),
{
    if !input_is_file {
        return Err(ConversionError::InputMissing);
    }
    if !(1 <= options.fps && options.fps <= 60) {
        return Err(ConversionError::FpsOutOfRange);
    }
    if !(32 <= options.width && options.width <= 4096) {
        return Err(ConversionError::WidthOutOfRange);
    }
    if !(2 <= options.palette_colors && options.palette_colors <= 256) {
        return Err(ConversionError::PaletteOutOfRange);
    }
    let chars = chars_of(options.audio_bitrate.as_str());
    if chars.len() == 0 {
        return Err(ConversionError::InvalidBitrate);
    }
    let mut i: usize = 0;
    while i < chars.len()
        invariant
            i <= chars.len(),
            input_is_file,
            1 <= options.fps <= 60,
            32 <= options.width <= 4096,
            2 <= options.palette_colors <= 256,
            chars@.len() > 0,
            chars@ == options.audio_bitrate@,
            forall|j: int| 0 <= j < i ==> bitrate_char(#[trigger] chars@[j]),
        decreases chars.len() - i,
    {
        let c = chars[i];
        if !(('0' <= c && c <= '9') || c == 'k' || c == 'K' || c == 'm' || c == 'M') {
            assert(!bitrate_char(options.audio_bitrate@[i as int]));
            return Err(ConversionError::InvalidBitrate);
        }
        i = i + 1;
    }
    Ok(())
}

/// The FFmpeg filter graph for `fps`, `width` and `colors`.
pub open spec fn spec_gif_filter(fps: nat, width: nat, colors: nat) -> Seq<char> {
    "[0:v]fps="@ + decimal(fps) + ",scale=w='min("@ + decimal(width)
        + ",iw)':h=-2:flags=lanczos,split[v1][v2];[v1]palettegen=stats_mode=diff:max_colors="@
        + decimal(colors)
        + ":reserve_transparent=0[p];[v2][p]paletteuse=dither=bayer:bayer_scale=5:diff_mode=rectangle"@
}

/// The FFmpeg filter that renders the GIF: frame rate, scaling to at most the requested
/// width, and a palette of the requested size.
pub fn gif_filter(options: &ConversionOptions) -> (r: String)
    ensures
        r@ == spec_gif_filter(options.fps as nat, options.width as nat, options.palette_colors as nat),
{
    let mut out = chars_of("[0:v]fps=");
    push_decimal(&mut out, options.fps as u64);
    let mut part = chars_of(",scale=w='min(");
    out.append(&mut part);
    push_decimal(&mut out, options.width as u64);
    let mut part = chars_of(
        ",iw)':h=-2:flags=lanczos,split[v1][v2];[v1]palettegen=stats_mode=diff:max_colors=",
    );
    out.append(&mut part);
    push_decimal(&mut out, options.palette_colors as u64);
    let mut part = chars_of(
        ":reserve_transparent=0[p];[v2][p]paletteuse=dither=bayer:bayer_scale=5:diff_mode=rectangle",
    );
    out.append(&mut part);
    string_from_chars(out)
}

/// The name recorded for the converted audio: the video's stem (or `video`), a dot and the
/// audio format's extension.
pub open spec fn converted_file_name(stem: Option<Seq<char>>, f: AudioFormat) -> Seq<char> {
    (match stem {
        Some(s) => s,
        None => "video"@,
    }) + "."@ + format_extension(f)
}

/// The payload a conversion embeds: looping audio from the start, with the format's MIME type.
pub open spec fn converted_payload(audio: Seq<u8>, stem: Option<Seq<char>>, f: AudioFormat) -> crate::payload::PayloadModel {
    payload_for(audio, format_mime(f), converted_file_name(stem, f), 0, true)
}

/// Embeds the converted audio into the rendered GIF.
pub fn compose_soundgif(gif: &[u8], audio: Vec<u8>, stem: Option<&str>, format: AudioFormat) -> (r: Result<Vec<u8>, SoundGifError>)
    ensures
        match spec_embed(gif@, converted_payload(audio@, opt_view(stem), format)) {
            Ok(bytes) => r matches Ok(v) && v@ == bytes,
            Err(e) => r == Err::<Vec<u8>, SoundGifError>(e),
        },
{
    let mut name = match stem {
        Some(s) => chars_of(s),
        None => chars_of("video"),
    };
    let mut dot = chars_of(".");
    name.append(&mut dot);
    let mut ext = chars_of(format.extension());
    name.append(&mut ext);
    let payload = new_payload(
        audio,
        format.mime_type().to_owned(),
        string_from_chars(name),
        0,
        true,
    );
    embed_audio(gif, &payload)
}

/// Where a video conversion stands.
#[derive(Clone, Copy, Debug, PartialEq, Eq, Structural)]
pub enum ConversionStage {
    /// Nothing has happened yet.
    Start,
    /// FFmpeg is being located and the temporary directory created.
    ResolvingFfmpeg { copy: Option<AudioFormat> },
    /// FFmpeg is rendering the GIF frames.
    RenderingGif { copy: Option<AudioFormat> },
    /// FFmpeg is copying the original audio stream into `format`.
    CopyingAudio { format: AudioFormat },
    /// FFmpeg is re-encoding the audio as Opus.
    EncodingOpus,
    /// The rendered GIF and the audio in `format` are being read back.
    ReadingOutputs { format: AudioFormat },
    /// The SoundGIF is being written.
    WritingOutput,
    /// The conversion is over.
    Finished,
}

/// What the outside world reports to the conversion.
#[derive(Debug)]
pub enum ConversionEvent {
    /// The request: whether the input is a file, and its extension.
    Begin { input_is_file: bool, input_extension: Option<String> },
    /// The requested outside step worked.
    Succeeded,
    /// The requested outside step failed.
    Failed,
    /// The rendered GIF, the converted audio, and the input's file stem.
    OutputsRead { gif: Vec<u8>, audio: Vec<u8>, input_stem: Option<String> },
}

/// What the conversion asks the outside world to do next.
#[derive(Debug)]
pub enum ConversionAction {
    /// Locate FFmpeg and create the temporary directory.
    ResolveFfmpeg,
    /// Render the GIF frames with the filter `gif_filter` gives.
    RenderGif,
    /// Copy the original audio stream into `format`.
    CopyAudio(AudioFormat),
    /// Re-encode the audio as Opus at the requested bitrate.
    EncodeOpus,
    /// Read back the rendered GIF and the audio in `format`.
    ReadOutputs(AudioFormat),
    /// Write these bytes to the output path.
    WriteOutput(Vec<u8>),
    /// The conversion succeeded.
    Done,
    /// The conversion fails for this reason.
    Reject(ConversionError),
    /// The conversion fails with the error of the step that just failed.
    Abort,
}

/// The mathematical content of a [`ConversionEvent`].
pub enum EventModel {
    Begin { input_is_file: bool, input_extension: Option<Seq<char>> },
    Succeeded,
    Failed,
    OutputsRead { gif: Seq<u8>, audio: Seq<u8>, input_stem: Option<Seq<char>> },
}

/// The mathematical content of a [`ConversionAction`].
pub enum ActionModel {
    ResolveFfmpeg,
    RenderGif,
    CopyAudio(AudioFormat),
    EncodeOpus,
    ReadOutputs(AudioFormat),
    WriteOutput(Seq<u8>),
    Done,
    Reject(ConversionError),
    Abort,
}

pub open spec fn opt_string_view(s: Option<String>) -> Option<Seq<char>> {
    match s {
        Some(x) => Some(x@),
        None => None,
    }
}

impl View for ConversionEvent {
    type V = EventModel;

    open spec fn view(&self) -> EventModel {
        match self {
            ConversionEvent::Begin { input_is_file, input_extension } => EventModel::Begin {
                input_is_file: *input_is_file,
                input_extension: opt_string_view(*input_extension),
            },
            ConversionEvent::Succeeded => EventModel::Succeeded,
            ConversionEvent::Failed => EventModel::Failed,
            ConversionEvent::OutputsRead { gif, audio, input_stem } => EventModel::OutputsRead {
                gif: gif@,
                audio: audio@,
                input_stem: opt_string_view(*input_stem),
            },
        }
    }
}

impl View for ConversionAction {
    type V = ActionModel;

    open spec fn view(&self) -> ActionModel {
        match self {
            ConversionAction::ResolveFfmpeg => ActionModel::ResolveFfmpeg,
            ConversionAction::RenderGif => ActionModel::RenderGif,
            ConversionAction::CopyAudio(f) => ActionModel::CopyAudio(*f),
            ConversionAction::EncodeOpus => ActionModel::EncodeOpus,
            ConversionAction::ReadOutputs(f) => ActionModel::ReadOutputs(*f),
            ConversionAction::WriteOutput(b) => ActionModel::WriteOutput(b@),
            ConversionAction::Done => ActionModel::Done,
            ConversionAction::Reject(e) => ActionModel::Reject(*e),
            ConversionAction::Abort => ActionModel::Abort,
        }
    }
}

/// The events each stage waits for.
pub open spec fn event_expected(stage: ConversionStage, event: EventModel) -> bool {
    match stage {
        ConversionStage::Start => event is Begin,
        ConversionStage::ReadingOutputs { .. } => event is OutputsRead || event is Failed,
        ConversionStage::Finished => false,
        _ => event is Succeeded || event is Failed,
    }
}

/// Whether `stage` waits for an event of this kind.
pub fn accepts_event(stage: ConversionStage, event: &ConversionEvent) -> (r: bool)
    ensures
        r == event_expected(stage, event@),
{
    match stage {
        ConversionStage::Start => matches!(event, ConversionEvent::Begin { .. }),
        ConversionStage::ReadingOutputs { .. } => matches!(
            event,
            ConversionEvent::OutputsRead { .. } | ConversionEvent::Failed
        ),
        ConversionStage::Finished => false,
        _ => matches!(event, ConversionEvent::Succeeded | ConversionEvent::Failed),
    }
}

/// One step of a conversion: validate the request, locate FFmpeg, render the frames, copy the
/// audio when the container allows and fall back to Opus when it does not or the copy fails,
/// then embed the audio into the GIF and write it.
pub open spec fn spec_conversion_step(
    stage: ConversionStage,
    event: EventModel,
    options: ConversionOptions,
) -> (ConversionStage, ActionModel) {
    match (stage, event) {
        (ConversionStage::Start, EventModel::Begin { input_is_file, input_extension }) => {
            match spec_validate(input_is_file, options) {
                Err(e) => (ConversionStage::Finished, ActionModel::Reject(e)),
                Ok(()) => (
                    ConversionStage::ResolvingFfmpeg { copy: spec_copy_target(input_extension) },
                    ActionModel::ResolveFfmpeg,
                ),
            }
        },
        (ConversionStage::ResolvingFfmpeg { copy }, EventModel::Succeeded) => (
            ConversionStage::RenderingGif { copy },
            ActionModel::RenderGif,
        ),
        (ConversionStage::RenderingGif { copy }, EventModel::Succeeded) => match copy {
            Some(f) => (ConversionStage::CopyingAudio { format: f }, ActionModel::CopyAudio(f)),
            None => (ConversionStage::EncodingOpus, ActionModel::EncodeOpus),
        },
        (ConversionStage::CopyingAudio { format }, EventModel::Succeeded) => (
            ConversionStage::ReadingOutputs { format },
            ActionModel::ReadOutputs(format),
        ),
        (ConversionStage::CopyingAudio { .. }, EventModel::Failed) => (
            ConversionStage::EncodingOpus,
            ActionModel::EncodeOpus,
        ),
        (ConversionStage::EncodingOpus, EventModel::Succeeded) => (
            ConversionStage::ReadingOutputs { format: AudioFormat::Opus },
            ActionModel::ReadOutputs(AudioFormat::Opus),
        ),
        (
            ConversionStage::ReadingOutputs { format },
            EventModel::OutputsRead { gif, audio, input_stem },
        ) => match spec_embed(gif, converted_payload(audio, input_stem, format)) {
            Ok(bytes) => (ConversionStage::WritingOutput, ActionModel::WriteOutput(bytes)),
            Err(e) => (ConversionStage::Finished, ActionModel::Reject(ConversionError::Format(e))),
        },
        (ConversionStage::WritingOutput, EventModel::Succeeded) => (
            ConversionStage::Finished,
            ActionModel::Done,
        ),
        _ => (ConversionStage::Finished, ActionModel::Abort),
    }
}

/// Decides the next step of turning a video into a SoundGIF, given where the conversion
/// stands and what the last outside step reported.
pub fn convert_video_to_soundgif(
    stage: ConversionStage,
    event: ConversionEvent,
    options: &ConversionOptions,
) -> (r: (ConversionStage, ConversionAction))
    requires
        event_expected(stage, event@),
    ensures
        (r.0, r.1@) == spec_conversion_step(stage, event@, *options),
{
    match (stage, event) {
        (ConversionStage::Start, ConversionEvent::Begin { input_is_file, input_extension }) => {
            match validate_conversion(input_is_file, options) {
                Err(e) => (ConversionStage::Finished, ConversionAction::Reject(e)),
                Ok(()) => {
                    let ext = match &input_extension {
                        Some(e) => Some(e.as_str()),
                        None => None,
                    };
                    let copy = audio_copy_target(ext);
                    (ConversionStage::ResolvingFfmpeg { copy }, ConversionAction::ResolveFfmpeg)
                },
            }
        },
        (ConversionStage::ResolvingFfmpeg { copy }, ConversionEvent::Succeeded) => (
            ConversionStage::RenderingGif { copy },
            ConversionAction::RenderGif,
        ),
        (ConversionStage::RenderingGif { copy }, ConversionEvent::Succeeded) => match copy {
            Some(f) => (ConversionStage::CopyingAudio { format: f }, ConversionAction::CopyAudio(f)),
            None => (ConversionStage::EncodingOpus, ConversionAction::EncodeOpus),
        },
        (ConversionStage::CopyingAudio { format }, ConversionEvent::Succeeded) => (
            ConversionStage::ReadingOutputs { format },
            ConversionAction::ReadOutputs(format),
        ),
        (ConversionStage::CopyingAudio { .. }, ConversionEvent::Failed) => (
            ConversionStage::EncodingOpus,
            ConversionAction::EncodeOpus,
        ),
        (ConversionStage::EncodingOpus, ConversionEvent::Succeeded) => (
            ConversionStage::ReadingOutputs { format: AudioFormat::Opus },
            ConversionAction::ReadOutputs(AudioFormat::Opus),
        ),
        (
            ConversionStage::ReadingOutputs { format },
            ConversionEvent::OutputsRead { gif, audio, input_stem },
        ) => {
            let stem = match &input_stem {
                Some(s) => Some(s.as_str()),
                None => None,
            };
            match compose_soundgif(gif.as_slice(), audio, stem, format) {
                Ok(bytes) => (ConversionStage::WritingOutput, ConversionAction::WriteOutput(bytes)),
                Err(e) => (
                    ConversionStage::Finished,
                    ConversionAction::Reject(ConversionError::Format(e)),
                ),
            }
        },
        (ConversionStage::WritingOutput, ConversionEvent::Succeeded) => (
            ConversionStage::Finished,
            ConversionAction::Done,
        ),
        _ => (ConversionStage::Finished, ConversionAction::Abort),
    }
}

/// The message shown when converting the video named `input` fails for `e`.
pub open spec fn conversion_error_text(e: ConversionError, input: Seq<char>) -> Seq<char> {
    match e {
        ConversionError::InputMissing => "input video '"@ + input + "' does not exist"@,
        ConversionError::FpsOutOfRange => "video FPS must be between 1 and 60"@,
        ConversionError::WidthOutOfRange => "GIF width must be between 32 and 4096 pixels"@,
        ConversionError::PaletteOutOfRange => "GIF palette must contain between 2 and 256 colors"@,
        ConversionError::InvalidBitrate => "audio bitrate must look like '96k' or '1M'"@,
        ConversionError::Format(f) => error_text(f),
    }
}

impl ConversionError {
    /// The message shown when converting the video named `input` fails for this reason.
    pub fn message(&self, input: &str) -> (r: String)
        ensures
            r@ == conversion_error_text(*self, input@),
    {
        match *self {
            ConversionError::Format(f) => f.message(),
            _ => {
                let mut out: Vec<char> = Vec::new();
                match *self {
                    ConversionError::InputMissing => {
                        push_str(&mut out, "input video '");
                        push_str(&mut out, input);
                        push_str(&mut out, "' does not exist");
                    },
                    ConversionError::FpsOutOfRange => push_str(
                        &mut out,
                        "video FPS must be between 1 and 60",
                    ),
                    ConversionError::WidthOutOfRange => push_str(
                        &mut out,
                        "GIF width must be between 32 and 4096 pixels",
                    ),
                    ConversionError::PaletteOutOfRange => push_str(
                        &mut out,
                        "GIF palette must contain between 2 and 256 colors",
                    ),
                    _ => push_str(&mut out, "audio bitrate must look like '96k' or '1M'"),
                }
                string_from_chars(out)
            },
        }
    }
}

/// A missing input video is refused at the first step, before FFmpeg is looked for or run.
pub proof fn law_missing_input_rejected_first(ext: Option<Seq<char>>, options: ConversionOptions)
    ensures
        spec_conversion_step(
            ConversionStage::Start,
            EventModel::Begin { input_is_file: false, input_extension: ext },
            options,
        ) == (ConversionStage::Finished, ActionModel::Reject(ConversionError::InputMissing)),
{
}

/// For valid settings, the frames are rendered first; then the audio of an MP4, M4V, MOV or
/// WebM video is copied without re-encoding, and any other audio, or audio whose copy fails,
/// is encoded as Opus.
pub proof fn law_copy_before_opus(ext: Option<Seq<char>>, options: ConversionOptions)
    requires
        spec_validate(true, options) is Ok,
    ensures
        ({
            let (s1, a1) = spec_conversion_step(
                ConversionStage::Start,
                EventModel::Begin { input_is_file: true, input_extension: ext },
                options,
            );
            let (s2, a2) = spec_conversion_step(s1, EventModel::Succeeded, options);
            let (s3, a3) = spec_conversion_step(s2, EventModel::Succeeded, options);
            &&& a1 == ActionModel::ResolveFfmpeg
            &&& a2 == ActionModel::RenderGif
            &&& match spec_copy_target(ext) {
                Some(f) => a3 == ActionModel::CopyAudio(f) && spec_conversion_step(
                    s3,
                    EventModel::Failed,
                    options,
                ).1 == ActionModel::EncodeOpus,
                None => a3 == ActionModel::EncodeOpus,
            }
        }),
{
}

/// The SoundGIF a conversion writes carries the converted audio, looping from the start,
/// under the video's name and the audio's MIME type, and it passes the integrity check.
pub proof fn law_conversion_output_plays_back(
    format: AudioFormat,
    gif: Seq<u8>,
    audio: Seq<u8>,
    stem: Option<Seq<char>>,
    options: ConversionOptions,
)
    requires
        spec_parse_gif(gif) is Ok,
        spec_encode_payload(converted_payload(audio, stem, format)) is Ok,
    ensures
        ({
            let (next, action) = spec_conversion_step(
                ConversionStage::ReadingOutputs { format },
                EventModel::OutputsRead { gif, audio, input_stem: stem },
                options,
            );
            &&& next == ConversionStage::WritingOutput
            &&& action matches ActionModel::WriteOutput(bytes) && spec_extract(bytes) == Ok::<
                PayloadModel,
                SoundGifError,
            >(converted_payload(audio, stem, format))
        }),
{
    law_extract_after_embed(gif, audio, format_mime(format), converted_file_name(stem, format), 0, true);
}

} // verus!
