use soundgif::cli::{
    option_value, parse_command, parse_convert_args, parse_embed_args, parse_input_output,
    parse_inspect_args, parse_ui_args, parse_unsigned, starts_with_dash, CliCommand, CliError,
    CliOption,
};

fn args(words: &[&str]) -> Vec<String> {
    words.iter().map(|w| w.to_string()).collect()
}

#[test]
fn commands_and_their_aliases() {
    assert_eq!(parse_command("embed"), CliCommand::Embed);
    assert_eq!(parse_command("encode"), CliCommand::Embed);
    assert_eq!(parse_command("extract"), CliCommand::Extract);
    assert_eq!(parse_command("inspect"), CliCommand::Inspect);
    assert_eq!(parse_command("info"), CliCommand::Inspect);
    assert_eq!(parse_command("strip"), CliCommand::Strip);
    assert_eq!(parse_command("from-video"), CliCommand::FromVideo);
    assert_eq!(parse_command("convert"), CliCommand::FromVideo);
    assert_eq!(parse_command("ui"), CliCommand::Ui);
    assert_eq!(parse_command("view"), CliCommand::Ui);
    assert_eq!(parse_command("help"), CliCommand::Help);
    assert_eq!(parse_command("--help"), CliCommand::Help);
    assert_eq!(parse_command("-h"), CliCommand::Help);
    assert_eq!(parse_command("--version"), CliCommand::Version);
    assert_eq!(parse_command("-V"), CliCommand::Version);
    assert_eq!(parse_command("version"), CliCommand::Version);
    assert_eq!(parse_command("Embed"), CliCommand::Unknown);
}

#[test]
fn option_values_advance_the_index() {
    let a = args(&["-o", "out.gif"]);
    let mut i = 0;
    assert_eq!(option_value(&a, &mut i, CliOption::Output).unwrap(), "out.gif");
    assert_eq!(i, 1);
    let mut j = 1;
    assert_eq!(
        option_value(&a, &mut j, CliOption::Mime).unwrap_err(),
        CliError::MissingValue(CliOption::Mime)
    );
    assert_eq!(j, 2);
    assert!(starts_with_dash("-x"));
    assert!(!starts_with_dash("x-"));
    assert!(!starts_with_dash(""));
}

#[test]
fn unsigned_numbers() {
    assert_eq!(parse_unsigned("75", u32::MAX as u64), Some(75));
    assert_eq!(parse_unsigned("+8", u32::MAX as u64), Some(8));
    assert_eq!(parse_unsigned("007", u32::MAX as u64), Some(7));
    assert_eq!(parse_unsigned("4294967295", u32::MAX as u64), Some(4_294_967_295));
    assert_eq!(parse_unsigned("4294967296", u32::MAX as u64), None);
    assert_eq!(parse_unsigned("65536", u16::MAX as u64), None);
    assert_eq!(parse_unsigned("", u32::MAX as u64), None);
    assert_eq!(parse_unsigned("+", u32::MAX as u64), None);
    assert_eq!(parse_unsigned("-1", u32::MAX as u64), None);
    assert_eq!(parse_unsigned("1a", u32::MAX as u64), None);
    assert_eq!(parse_unsigned(" 1", u32::MAX as u64), None);
}

#[test]
fn input_and_output_in_any_order() {
    let (input, output) = parse_input_output(&args(&["in.gif", "-o", "out.opus"]), CliCommand::Extract).unwrap();
    assert_eq!((input.as_str(), output.as_str()), ("in.gif", "out.opus"));
    let (input, output) = parse_input_output(&args(&["--output", "o.gif", "i.gif"]), CliCommand::Strip).unwrap();
    assert_eq!((input.as_str(), output.as_str()), ("i.gif", "o.gif"));
}

#[test]
fn input_output_errors() {
    assert_eq!(
        parse_input_output(&args(&["-o", "x"]), CliCommand::Extract).unwrap_err(),
        CliError::MissingInput(CliCommand::Extract)
    );
    assert_eq!(
        parse_input_output(&args(&["in.gif"]), CliCommand::Strip).unwrap_err(),
        CliError::MissingOutput(CliCommand::Strip)
    );
    assert_eq!(
        parse_input_output(&args(&["in.gif", "-o"]), CliCommand::Strip).unwrap_err(),
        CliError::MissingValue(CliOption::Output)
    );
    assert_eq!(
        parse_input_output(&args(&["in.gif", "--force"]), CliCommand::Strip).unwrap_err(),
        CliError::UnknownOption { index: 1 }
    );
    assert_eq!(
        parse_input_output(&args(&["a.gif", "b.gif"]), CliCommand::Extract).unwrap_err(),
        CliError::UnexpectedArgument { index: 1 }
    );
}

#[test]
fn embed_arguments() {
    let e = parse_embed_args(&args(&[
        "in.gif", "tone.opus", "-o", "out.gif", "--start-ms", "75", "--mime", "audio/x", "--no-loop",
    ]))
    .unwrap();
    assert_eq!(e.gif, "in.gif");
    assert_eq!(e.audio, "tone.opus");
    assert_eq!(e.output, "out.gif");
    assert_eq!(e.mime_override.as_deref(), Some("audio/x"));
    assert_eq!(e.start_ms, 75);
    assert!(!e.loop_audio);
    let plain = parse_embed_args(&args(&["a.gif", "b.mp3", "--output", "c.gif"])).unwrap();
    assert_eq!(plain.start_ms, 0);
    assert!(plain.loop_audio);
    assert!(plain.mime_override.is_none());
}

#[test]
fn embed_argument_errors() {
    assert_eq!(
        parse_embed_args(&args(&["a.gif", "-o", "c.gif"])).unwrap_err(),
        CliError::EmbedArity
    );
    assert_eq!(
        parse_embed_args(&args(&["a.gif", "b.mp3"])).unwrap_err(),
        CliError::MissingOutput(CliCommand::Embed)
    );
    assert_eq!(
        parse_embed_args(&args(&["a.gif", "b.mp3", "-o", "c", "--start-ms", "soon"])).unwrap_err(),
        CliError::InvalidNumber { option: CliOption::StartMs, index: 5 }
    );
    assert_eq!(
        parse_embed_args(&args(&["a.gif", "--mime"])).unwrap_err(),
        CliError::MissingValue(CliOption::Mime)
    );
    assert_eq!(
        parse_embed_args(&args(&["-q"])).unwrap_err(),
        CliError::UnknownOption { index: 0 }
    );
}

#[test]
fn convert_arguments() {
    let c = parse_convert_args(&args(&[
        "clip.mp4", "-o", "clip.gif", "--fps", "24", "--width", "800", "--colors", "64",
        "--audio-bitrate", "96k", "--ffmpeg", "/bin/ffmpeg",
    ]))
    .unwrap();
    assert_eq!(c.input, "clip.mp4");
    assert_eq!(c.output, "clip.gif");
    assert_eq!((c.fps, c.width, c.palette_colors), (24, 800, 64));
    assert_eq!(c.audio_bitrate, "96k");
    assert_eq!(c.ffmpeg.as_deref(), Some("/bin/ffmpeg"));
    let d = parse_convert_args(&args(&["v.webm", "-o", "v.gif"])).unwrap();
    assert_eq!((d.fps, d.width, d.palette_colors), (15, 640, 128));
    assert_eq!(d.audio_bitrate, "64k");
    assert!(d.ffmpeg.is_none());
}

#[test]
fn convert_argument_errors() {
    assert_eq!(
        parse_convert_args(&args(&["-o", "v.gif"])).unwrap_err(),
        CliError::MissingInput(CliCommand::FromVideo)
    );
    assert_eq!(
        parse_convert_args(&args(&["v.mp4"])).unwrap_err(),
        CliError::MissingOutput(CliCommand::FromVideo)
    );
    assert_eq!(
        parse_convert_args(&args(&["v.mp4", "--colors", "70000"])).unwrap_err(),
        CliError::InvalidNumber { option: CliOption::Colors, index: 2 }
    );
    assert_eq!(
        parse_convert_args(&args(&["v.mp4", "--fps", "x"])).unwrap_err(),
        CliError::InvalidNumber { option: CliOption::Fps, index: 2 }
    );
    assert_eq!(
        parse_convert_args(&args(&["v.mp4", "w.mp4"])).unwrap_err(),
        CliError::UnexpectedArgument { index: 1 }
    );
    assert_eq!(
        parse_convert_args(&args(&["v.mp4", "--width"])).unwrap_err(),
        CliError::MissingValue(CliOption::Width)
    );
}

#[test]
fn inspect_and_ui_arity() {
    assert_eq!(parse_inspect_args(&args(&["a.gif"])).unwrap(), "a.gif");
    assert_eq!(parse_inspect_args(&args(&[])).unwrap_err(), CliError::InspectArity);
    assert_eq!(parse_inspect_args(&args(&["a", "b"])).unwrap_err(), CliError::InspectArity);
    assert!(parse_ui_args(&args(&[])).is_ok());
    assert_eq!(parse_ui_args(&args(&["x"])).unwrap_err(), CliError::UiArguments);
}

#[test]
fn cli_error_messages() {
    let a = args(&["in.gif", "--fps", "fast", "-z", "extra"]);
    assert_eq!(
        CliError::InvalidNumber { option: CliOption::Fps, index: 2 }.message(&a),
        "invalid --fps value 'fast'"
    );
    assert_eq!(CliError::UnknownOption { index: 3 }.message(&a), "unknown option '-z'");
    assert_eq!(CliError::UnexpectedArgument { index: 4 }.message(&a), "unexpected argument 'extra'");
    assert_eq!(
        CliError::MissingValue(CliOption::AudioBitrate).message(&a),
        "--audio-bitrate requires a value"
    );
    assert_eq!(CliError::MissingInput(CliCommand::Extract).message(&a), "extract requires <input.gif>");
    assert_eq!(
        CliError::MissingInput(CliCommand::FromVideo).message(&a),
        "from-video requires <input-video>"
    );
    assert_eq!(CliError::MissingOutput(CliCommand::Strip).message(&a), "strip requires -o <output>");
    assert_eq!(CliError::MissingOutput(CliCommand::Embed).message(&a), "embed requires -o <output.gif>");
    assert_eq!(
        CliError::MissingOutput(CliCommand::FromVideo).message(&a),
        "from-video requires -o <output.gif>"
    );
    assert_eq!(CliError::EmbedArity.message(&a), "embed requires <input.gif> and <audio>");
    assert_eq!(CliError::InspectArity.message(&a), "inspect requires exactly one <input.gif>");
    assert_eq!(CliError::UiArguments.message(&a), "ui does not accept any options");
    assert_eq!(CliCommand::FromVideo.name(), "from-video");
    assert_eq!(CliOption::StartMs.name(), "start-ms");
}
