use soundgif::convert::{
    accepts_event, compose_soundgif, convert_video_to_soundgif, gif_filter, validate_conversion,
    ConversionAction, ConversionError, ConversionEvent, ConversionOptions, ConversionStage,
};
use soundgif::error::SoundGifError;
use soundgif::ffmpeg::{
    ffmpeg_failed_message, ffmpeg_launch_message, ffmpeg_lookup_step, ffmpeg_missing_message,
    ffmpeg_not_found_message, ffmpeg_program_name, lookup_accepts, FfmpegAction, FfmpegLookup,
};
use soundgif::media::{audio_copy_target, detect_mime, extension, is_gif, is_video, AudioFormat};
use soundgif::ops::extract_audio;
use soundgif::text::push_decimal;

const TINY_GIF: &[u8] = &[
    0x47, 0x49, 0x46, 0x38, 0x39, 0x61, 0x01, 0x00, 0x01, 0x00, 0x80, 0x00, 0x00, 0x00, 0x00,
    0x00, 0xff, 0xff, 0xff, 0x2c, 0x00, 0x00, 0x00, 0x00, 0x01, 0x00, 0x01, 0x00, 0x00, 0x02,
    0x02, 0x44, 0x01, 0x00, 0x3b,
];

fn begin(input_is_file: bool, ext: Option<&str>) -> ConversionEvent {
    ConversionEvent::Begin { input_is_file, input_extension: ext.map(str::to_owned) }
}

#[test]
fn video_conversion_rejects_missing_input_before_running_ffmpeg() {
    let missing = std::path::Path::new("/nonexistent/soundgif-test-input-that-does-not-exist.mp4");
    let (stage, action) = convert_video_to_soundgif(
        ConversionStage::Start,
        begin(missing.is_file(), missing.extension().and_then(|e| e.to_str())),
        &ConversionOptions::default(),
    );
    assert_eq!(stage, ConversionStage::Finished);
    let error = match action {
        ConversionAction::Reject(error) => error,
        other => panic!("unexpected {other:?}"),
    };
    assert_eq!(error, ConversionError::InputMissing);
    assert!(error.message(&missing.display().to_string()).contains("does not exist"));
}

#[test]
fn conversion_settings_are_validated_in_order() {
    let mut options = ConversionOptions::default();
    assert!(validate_conversion(true, &options).is_ok());
    assert_eq!(validate_conversion(false, &options), Err(ConversionError::InputMissing));
    options.fps = 0;
    assert_eq!(validate_conversion(true, &options), Err(ConversionError::FpsOutOfRange));
    options.fps = 61;
    assert_eq!(validate_conversion(true, &options), Err(ConversionError::FpsOutOfRange));
    options.fps = 60;
    options.width = 31;
    assert_eq!(validate_conversion(true, &options), Err(ConversionError::WidthOutOfRange));
    options.width = 4096;
    options.palette_colors = 257;
    assert_eq!(validate_conversion(true, &options), Err(ConversionError::PaletteOutOfRange));
    options.palette_colors = 2;
    options.audio_bitrate = String::new();
    assert_eq!(validate_conversion(true, &options), Err(ConversionError::InvalidBitrate));
    options.audio_bitrate = "96kbps".to_owned();
    assert_eq!(validate_conversion(true, &options), Err(ConversionError::InvalidBitrate));
    options.audio_bitrate = "1M".to_owned();
    assert!(validate_conversion(true, &options).is_ok());
}

#[test]
fn filter_graph_is_exact() {
    let options = ConversionOptions::default();
    assert_eq!(
        gif_filter(&options),
        "[0:v]fps=15,scale=w='min(640,iw)':h=-2:flags=lanczos,split[v1][v2];[v1]palettegen=stats_mode=diff:max_colors=128:reserve_transparent=0[p];[v2][p]paletteuse=dither=bayer:bayer_scale=5:diff_mode=rectangle"
    );
}

#[test]
fn decimal_digits() {
    let mut out = vec!['x'];
    push_decimal(&mut out, 0);
    push_decimal(&mut out, 4096);
    push_decimal(&mut out, u64::MAX);
    let text: String = out.into_iter().collect();
    assert_eq!(text, format!("x04096{}", u64::MAX));
}

#[test]
fn copy_targets_follow_the_container() {
    assert_eq!(audio_copy_target(Some("MP4")), Some(AudioFormat::Mp4));
    assert_eq!(audio_copy_target(Some("m4v")), Some(AudioFormat::Mp4));
    assert_eq!(audio_copy_target(Some("mov")), Some(AudioFormat::Mp4));
    assert_eq!(audio_copy_target(Some("WebM")), Some(AudioFormat::Webm));
    assert_eq!(audio_copy_target(Some("mkv")), None);
    assert_eq!(audio_copy_target(None), None);
    assert_eq!(AudioFormat::Mp4.mime_type(), "audio/mp4");
    assert_eq!(AudioFormat::Webm.extension(), "webm");
    assert_eq!(AudioFormat::Opus.mime_type(), "audio/opus");
}

#[test]
fn mime_detection() {
    assert_eq!(detect_mime(Some("OPUS")), "audio/opus");
    assert_eq!(detect_mime(Some("oga")), "audio/ogg");
    assert_eq!(detect_mime(Some("mp3")), "audio/mpeg");
    assert_eq!(detect_mime(Some("Wave")), "audio/wav");
    assert_eq!(detect_mime(Some("flac")), "audio/flac");
    assert_eq!(detect_mime(Some("aac")), "audio/aac");
    assert_eq!(detect_mime(Some("mp4")), "audio/mp4");
    assert_eq!(detect_mime(Some("webm")), "audio/webm");
    assert_eq!(detect_mime(Some("txt")), "application/octet-stream");
    assert_eq!(detect_mime(None), "application/octet-stream");
    assert_eq!(extension(Some("GiF")).as_deref(), Some("gif"));
    assert!(is_gif(Some("GIF")));
    assert!(is_video(Some("Avi")));
    assert!(!is_video(Some("gif")));
}

#[test]
fn copy_path_runs_to_completion() {
    let options = ConversionOptions::default();
    let (stage, action) = convert_video_to_soundgif(ConversionStage::Start, begin(true, Some("mov")), &options);
    assert_eq!(stage, ConversionStage::ResolvingFfmpeg { copy: Some(AudioFormat::Mp4) });
    assert!(matches!(action, ConversionAction::ResolveFfmpeg));
    let (stage, action) = convert_video_to_soundgif(stage, ConversionEvent::Succeeded, &options);
    assert!(matches!(action, ConversionAction::RenderGif));
    let (stage, action) = convert_video_to_soundgif(stage, ConversionEvent::Succeeded, &options);
    assert!(matches!(action, ConversionAction::CopyAudio(AudioFormat::Mp4)));
    let (stage, action) = convert_video_to_soundgif(stage, ConversionEvent::Succeeded, &options);
    assert!(matches!(action, ConversionAction::ReadOutputs(AudioFormat::Mp4)));
    let audio = vec![1u8, 2, 3, 4];
    let (stage, action) = convert_video_to_soundgif(
        stage,
        ConversionEvent::OutputsRead {
            gif: TINY_GIF.to_vec(),
            audio: audio.clone(),
            input_stem: Some("clip".to_owned()),
        },
        &options,
    );
    assert_eq!(stage, ConversionStage::WritingOutput);
    let bytes = match action {
        ConversionAction::WriteOutput(bytes) => bytes,
        other => panic!("unexpected {other:?}"),
    };
    let payload = extract_audio(&bytes).unwrap();
    assert_eq!(payload.audio, audio);
    assert_eq!(payload.mime_type, "audio/mp4");
    assert_eq!(payload.file_name, "clip.m4a");
    assert!(payload.loop_audio);
    assert_eq!(payload.start_ms, 0);
    let (stage, action) = convert_video_to_soundgif(stage, ConversionEvent::Succeeded, &options);
    assert_eq!(stage, ConversionStage::Finished);
    assert!(matches!(action, ConversionAction::Done));
}

#[test]
fn failed_copy_falls_back_to_opus() {
    let options = ConversionOptions::default();
    let stage = ConversionStage::CopyingAudio { format: AudioFormat::Webm };
    let (stage, action) = convert_video_to_soundgif(stage, ConversionEvent::Failed, &options);
    assert_eq!(stage, ConversionStage::EncodingOpus);
    assert!(matches!(action, ConversionAction::EncodeOpus));
    let (stage, action) = convert_video_to_soundgif(stage, ConversionEvent::Succeeded, &options);
    assert_eq!(stage, ConversionStage::ReadingOutputs { format: AudioFormat::Opus });
    assert!(matches!(action, ConversionAction::ReadOutputs(AudioFormat::Opus)));
    let (stage, action) = convert_video_to_soundgif(
        ConversionStage::RenderingGif { copy: None },
        ConversionEvent::Succeeded,
        &options,
    );
    assert_eq!(stage, ConversionStage::EncodingOpus);
    assert!(matches!(action, ConversionAction::EncodeOpus));
}

#[test]
fn failed_steps_abort() {
    let options = ConversionOptions::default();
    for stage in [
        ConversionStage::ResolvingFfmpeg { copy: None },
        ConversionStage::RenderingGif { copy: Some(AudioFormat::Mp4) },
        ConversionStage::EncodingOpus,
        ConversionStage::ReadingOutputs { format: AudioFormat::Opus },
        ConversionStage::WritingOutput,
    ] {
        let (next, action) = convert_video_to_soundgif(stage, ConversionEvent::Failed, &options);
        assert_eq!(next, ConversionStage::Finished);
        assert!(matches!(action, ConversionAction::Abort));
    }
}

#[test]
fn rendered_output_that_is_not_a_gif_is_rejected() {
    let options = ConversionOptions::default();
    let (stage, action) = convert_video_to_soundgif(
        ConversionStage::ReadingOutputs { format: AudioFormat::Opus },
        ConversionEvent::OutputsRead { gif: b"not a gif at all".to_vec(), audio: vec![1], input_stem: None },
        &options,
    );
    assert_eq!(stage, ConversionStage::Finished);
    assert!(matches!(action, ConversionAction::Reject(ConversionError::Format(SoundGifError::NotGif))));
}

#[test]
fn composed_soundgif_names_the_audio_after_the_video() {
    let bytes = compose_soundgif(TINY_GIF, vec![7; 10], None, AudioFormat::Opus).unwrap();
    let payload = extract_audio(&bytes).unwrap();
    assert_eq!(payload.file_name, "video.opus");
    assert_eq!(payload.mime_type, "audio/opus");
}

#[test]
fn conversion_error_messages() {
    let message = ConversionError::InputMissing.message("/tmp/missing.mp4");
    assert_eq!(message, "input video '/tmp/missing.mp4' does not exist");
    assert!(message.contains("does not exist"));
    assert_eq!(ConversionError::FpsOutOfRange.message("x"), "video FPS must be between 1 and 60");
    assert_eq!(
        ConversionError::WidthOutOfRange.message("x"),
        "GIF width must be between 32 and 4096 pixels"
    );
    assert_eq!(
        ConversionError::PaletteOutOfRange.message("x"),
        "GIF palette must contain between 2 and 256 colors"
    );
    assert_eq!(
        ConversionError::InvalidBitrate.message("x"),
        "audio bitrate must look like '96k' or '1M'"
    );
    assert_eq!(
        ConversionError::Format(SoundGifError::NotGif).message("x"),
        "input is not a valid GIF87a/GIF89a file"
    );
}

#[test]
fn stages_accept_only_their_events() {
    assert!(accepts_event(ConversionStage::Start, &begin(true, None)));
    assert!(!accepts_event(ConversionStage::Start, &ConversionEvent::Succeeded));
    assert!(accepts_event(ConversionStage::EncodingOpus, &ConversionEvent::Failed));
    assert!(!accepts_event(ConversionStage::EncodingOpus, &begin(true, None)));
    let read = ConversionEvent::OutputsRead { gif: vec![], audio: vec![], input_stem: None };
    assert!(accepts_event(ConversionStage::ReadingOutputs { format: AudioFormat::Mp4 }, &read));
    assert!(!accepts_event(ConversionStage::WritingOutput, &read));
    assert!(!accepts_event(ConversionStage::Finished, &ConversionEvent::Succeeded));
}

#[test]
fn ffmpeg_given_path_is_tried_alone() {
    let (stage, action) = ffmpeg_lookup_step(FfmpegLookup::Start, true, None);
    assert_eq!((stage, action), (FfmpegLookup::CheckingExplicit, FfmpegAction::CheckExplicit));
    assert_eq!(
        ffmpeg_lookup_step(stage, true, Some(true)),
        (FfmpegLookup::Done, FfmpegAction::UseExplicit)
    );
    assert_eq!(
        ffmpeg_lookup_step(stage, true, Some(false)),
        (FfmpegLookup::Done, FfmpegAction::NotFoundAt)
    );
}

#[test]
fn ffmpeg_beside_the_app_comes_before_path() {
    let (stage, action) = ffmpeg_lookup_step(FfmpegLookup::Start, false, None);
    assert_eq!((stage, action), (FfmpegLookup::CheckingSibling, FfmpegAction::CheckSibling));
    assert_eq!(
        ffmpeg_lookup_step(stage, false, Some(true)),
        (FfmpegLookup::Done, FfmpegAction::UseSibling)
    );
    let (stage, action) = ffmpeg_lookup_step(stage, false, Some(false));
    assert_eq!((stage, action), (FfmpegLookup::ProbingPath, FfmpegAction::ProbePath));
    assert_eq!(ffmpeg_lookup_step(stage, false, Some(true)), (FfmpegLookup::Done, FfmpegAction::UsePath));
    assert_eq!(ffmpeg_lookup_step(stage, false, Some(false)), (FfmpegLookup::Done, FfmpegAction::Missing));
    assert!(lookup_accepts(FfmpegLookup::Start, None));
    assert!(!lookup_accepts(FfmpegLookup::ProbingPath, None));
    assert!(!lookup_accepts(FfmpegLookup::Done, Some(true)));
}

#[test]
fn explicit_missing_ffmpeg_has_a_clear_error() {
    let error = ffmpeg_not_found_message("/tmp/soundgif-test-ffmpeg-that-does-not-exist.exe");
    assert!(error.contains("ffmpeg was not found"));
    assert_eq!(error, "ffmpeg was not found at '/tmp/soundgif-test-ffmpeg-that-does-not-exist.exe'");
}

#[test]
fn ffmpeg_messages() {
    assert_eq!(ffmpeg_program_name(true), "ffmpeg.exe");
    assert_eq!(ffmpeg_program_name(false), "ffmpeg");
    assert_eq!(
        ffmpeg_missing_message(true),
        "FFmpeg is required for video conversion. Put ffmpeg.exe beside SoundGIF Player or add ffmpeg to PATH."
    );
    assert_eq!(
        ffmpeg_missing_message(false),
        "FFmpeg is required for video conversion. Put ffmpeg beside SoundGIF Player or add ffmpeg to PATH."
    );
    assert_eq!(
        ffmpeg_launch_message("rendering GIF frames", "No such file"),
        "cannot run FFmpeg while rendering GIF frames: No such file"
    );
    assert_eq!(ffmpeg_failed_message("copying the original audio", ""), "FFmpeg failed while copying the original audio");
    assert_eq!(
        ffmpeg_failed_message("rendering GIF frames", "bad input"),
        "FFmpeg failed while rendering GIF frames: bad input"
    );
}
