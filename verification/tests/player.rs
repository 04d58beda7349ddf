use std::path::PathBuf;

use soundgif::desktop::{
    drag_supported, dropped_file, new_player_state, player_step, PlayerAction, PlayerEvent,
    ReadyFile,
};
use soundgif::ui::PLAYER_HTML;
use soundgif::player::{
    action_from_message, check_player_file_size, encode_for_player, js_string,
    options_for_quality, suggested_output_name, UiAction, MAX_UI_SOUNDGIF_BYTES,
};

#[test]
fn quality_presets_have_distinct_conversion_settings() {
    let compact = options_for_quality("compact");
    let balanced = options_for_quality("balanced");
    let high = options_for_quality("high");
    assert!(compact.width < balanced.width);
    assert!(balanced.width < high.width);
    assert!(compact.fps < high.fps);
}

#[test]
fn quality_presets_are_exact() {
    let compact = options_for_quality("compact");
    assert_eq!((compact.fps, compact.width, compact.palette_colors), (12, 480, 96));
    assert_eq!(compact.audio_bitrate, "48k");
    let high = options_for_quality("high");
    assert_eq!((high.fps, high.width, high.palette_colors), (24, 960, 192));
    assert_eq!(high.audio_bitrate, "96k");
    let other = options_for_quality("ultra");
    assert_eq!((other.fps, other.width, other.palette_colors), (15, 640, 128));
    assert_eq!(other.audio_bitrate, "64k");
    assert!(other.ffmpeg.is_none());
}

#[test]
fn every_ui_message_routes_to_the_native_host() {
    let routes = [
        ("pick-video", UiAction::PickVideo),
        ("pick-gif", UiAction::PickGif),
        ("save", UiAction::Save),
        ("window:close", UiAction::WindowClose),
        ("window:drag", UiAction::WindowDrag),
        ("window:minimize", UiAction::WindowMinimize),
        ("window:toggle-maximize", UiAction::WindowToggleMaximize),
        ("quality:compact", UiAction::QualityCompact),
        ("quality:balanced", UiAction::QualityBalanced),
        ("quality:high", UiAction::QualityHigh),
    ];
    for (message, expected) in routes {
        assert_eq!(action_from_message(message), Some(expected));
    }
    assert_eq!(action_from_message("unknown"), None);
}

#[test]
fn messages_are_matched_exactly() {
    assert_eq!(action_from_message("Save"), None);
    assert_eq!(action_from_message("save "), None);
    assert_eq!(action_from_message(""), None);
}

#[test]
fn suggested_name_uses_the_stem() {
    assert_eq!(suggested_output_name(Some("holiday")), "holiday.sound.gif");
    assert_eq!(suggested_output_name(None), "video.sound.gif");
}

#[test]
fn js_string_escapes_quotes_and_controls() {
    assert_eq!(js_string("plain"), "\"plain\"");
    assert_eq!(js_string("a\"b\\c"), "\"a\\\"b\\\\c\"");
    assert_eq!(js_string("l1\nl2\r\t"), "\"l1\\nl2\\r\\t\"");
    assert_eq!(js_string("\u{1}\u{7f}\u{9f}"), "\"\\u0001\\u007f\\u009f\"");
    assert_eq!(js_string("é🎵"), "\"é🎵\"");
}

#[test]
fn player_file_size_limits() {
    assert!(!check_player_file_size(0));
    assert!(check_player_file_size(1));
    assert!(check_player_file_size(MAX_UI_SOUNDGIF_BYTES));
    assert!(!check_player_file_size(MAX_UI_SOUNDGIF_BYTES + 1));
    assert_eq!(MAX_UI_SOUNDGIF_BYTES, 64 * 1024 * 1024);
}

#[test]
fn base64_of_known_vectors() {
    assert_eq!(encode_for_player(b""), "");
    assert_eq!(encode_for_player(b"f"), "Zg==");
    assert_eq!(encode_for_player(b"fo"), "Zm8=");
    assert_eq!(encode_for_player(b"foo"), "Zm9v");
    assert_eq!(encode_for_player(b"hello"), "aGVsbG8=");
    assert_eq!(encode_for_player(&[0xfb, 0xff]), "+/8=");
}

#[test]
fn drag_and_drop_picks_the_first_openable_file() {
    let exts = vec![Some("txt".to_owned()), None, Some("GIF".to_owned()), Some("mp4".to_owned())];
    assert!(drag_supported(&exts));
    assert_eq!(dropped_file(&exts), Some((2, false)));
    let videos = vec![Some("MKV".to_owned()), Some("gif".to_owned())];
    assert_eq!(dropped_file(&videos), Some((0, true)));
    let none = vec![Some("png".to_owned()), None];
    assert!(!drag_supported(&none));
    assert_eq!(dropped_file(&none), None);
}

fn script(action: &PlayerAction) -> &str {
    match action {
        PlayerAction::RunScript(s) => s.as_str(),
        other => panic!("expected a script, got {other:?}"),
    }
}

#[test]
fn save_without_a_file_is_refused() {
    let mut state = new_player_state();
    let actions = player_step(&mut state, PlayerEvent::Action(UiAction::Save));
    assert_eq!(actions.len(), 1);
    assert_eq!(
        script(&actions[0]),
        "nativeOperationFailed(\"There is no SoundGIF to save yet.\");"
    );
    let actions = player_step(&mut state, PlayerEvent::SaveTo(PathBuf::from("x.gif")));
    assert!(actions.is_empty());
}

#[test]
fn conversion_runs_once_with_the_chosen_quality() {
    let mut state = new_player_state();
    assert_eq!(state.quality, "balanced");
    assert!(player_step(&mut state, PlayerEvent::Action(UiAction::QualityHigh)).is_empty());
    assert_eq!(state.quality, "high");
    let actions = player_step(
        &mut state,
        PlayerEvent::Convert { input: PathBuf::from("clip.mp4"), label: "clip.mp4".to_owned() },
    );
    assert_eq!(actions.len(), 2);
    assert_eq!(script(&actions[0]), "nativeConversionStarted(\"clip.mp4\");");
    match &actions[1] {
        PlayerAction::StartConversion { input, options } => {
            assert_eq!(input, &PathBuf::from("clip.mp4"));
            assert_eq!(options.width, 960);
            assert_eq!(options.fps, 24);
        }
        other => panic!("unexpected {other:?}"),
    }
    assert!(state.converting);
    let again = player_step(
        &mut state,
        PlayerEvent::Convert { input: PathBuf::from("b.mp4"), label: "b.mp4".to_owned() },
    );
    assert_eq!(script(&again[0]), "nativeOperationFailed(\"A conversion is already running.\");");
    let load = player_step(
        &mut state,
        PlayerEvent::Load { path: PathBuf::from("a.gif"), label: "a.gif".to_owned() },
    );
    assert_eq!(
        script(&load[0]),
        "nativeOperationFailed(\"Wait for the current conversion to finish.\");"
    );
}

#[test]
fn finished_conversion_replaces_the_previous_temporary_file() {
    let mut state = new_player_state();
    let first = ReadyFile {
        path: PathBuf::from("/tmp/one.gif"),
        encoded: "R0lG".to_owned(),
        suggested_name: "one.sound.gif".to_owned(),
        default_directory: Some(PathBuf::from("/videos")),
        generated: true,
    };
    let actions = player_step(&mut state, PlayerEvent::Finished(Ok(first)));
    assert_eq!(actions.len(), 1);
    assert_eq!(script(&actions[0]), "nativeSoundGifReady(\"R0lG\", \"one.sound.gif\", true);");
    assert_eq!(state.current_name, "one.sound.gif");
    assert!(!state.converting);
    let second = ReadyFile {
        path: PathBuf::from("/data/two.gif"),
        encoded: "AA==".to_owned(),
        suggested_name: "two.gif".to_owned(),
        default_directory: None,
        generated: false,
    };
    let actions = player_step(&mut state, PlayerEvent::Finished(Ok(second)));
    assert_eq!(actions.len(), 2);
    match &actions[0] {
        PlayerAction::RemoveFile(p) => assert_eq!(p, &PathBuf::from("/tmp/one.gif")),
        other => panic!("unexpected {other:?}"),
    }
    assert_eq!(script(&actions[1]), "nativeSoundGifReady(\"AA==\", \"two.gif\", false);");
    let actions = player_step(&mut state, PlayerEvent::Action(UiAction::Save));
    assert!(matches!(actions[0], PlayerAction::OpenSaveDialog));
    let actions = player_step(&mut state, PlayerEvent::SaveTo(PathBuf::from("/out/x.gif")));
    assert!(matches!(&actions[0], PlayerAction::CopyToDestination(p) if p == &PathBuf::from("/out/x.gif")));
    let actions = player_step(
        &mut state,
        PlayerEvent::Saved {
            result: Ok(()),
            label: "/out/x.gif".to_owned(),
            parent: Some(PathBuf::from("/out")),
        },
    );
    assert_eq!(script(&actions[0]), "nativeSaveComplete(\"/out/x.gif\");");
    assert_eq!(state.current_directory, Some(PathBuf::from("/out")));
    let actions = player_step(&mut state, PlayerEvent::CloseRequested);
    assert_eq!(actions.len(), 1);
    assert!(matches!(actions[0], PlayerAction::Exit));
}

#[test]
fn closing_removes_a_generated_file() {
    let mut state = new_player_state();
    let ready = ReadyFile {
        path: PathBuf::from("/tmp/made.gif"),
        encoded: String::new(),
        suggested_name: "made.sound.gif".to_owned(),
        default_directory: None,
        generated: true,
    };
    player_step(&mut state, PlayerEvent::Finished(Ok(ready)));
    let actions = player_step(&mut state, PlayerEvent::Action(UiAction::WindowClose));
    assert_eq!(actions.len(), 2);
    assert!(matches!(&actions[0], PlayerAction::RemoveFile(p) if p == &PathBuf::from("/tmp/made.gif")));
    assert!(matches!(actions[1], PlayerAction::Exit));
}

#[test]
fn failures_and_window_requests() {
    let mut state = new_player_state();
    let actions = player_step(&mut state, PlayerEvent::Finished(Err("bad \"file\"".to_owned())));
    assert_eq!(script(&actions[0]), "nativeOperationFailed(\"bad \\\"file\\\"\");");
    let actions = player_step(&mut state, PlayerEvent::DragActive(true));
    assert_eq!(script(&actions[0]), "nativeDragActive(true);");
    let actions = player_step(&mut state, PlayerEvent::DragActive(false));
    assert_eq!(script(&actions[0]), "nativeDragActive(false);");
    let actions = player_step(&mut state, PlayerEvent::PickerCancelled);
    assert_eq!(script(&actions[0]), "nativePickerCancelled();");
    let actions = player_step(&mut state, PlayerEvent::Action(UiAction::PickVideo));
    assert!(matches!(actions[0], PlayerAction::OpenVideoDialog));
    let actions = player_step(&mut state, PlayerEvent::Action(UiAction::PickGif));
    assert!(matches!(actions[0], PlayerAction::OpenGifDialog));
    let actions = player_step(&mut state, PlayerEvent::Action(UiAction::WindowDrag));
    assert!(matches!(actions[0], PlayerAction::DragWindow));
    let actions = player_step(&mut state, PlayerEvent::Action(UiAction::WindowMinimize));
    assert!(matches!(actions[0], PlayerAction::MinimizeWindow));
    let actions = player_step(&mut state, PlayerEvent::Action(UiAction::WindowToggleMaximize));
    assert!(matches!(actions[0], PlayerAction::ToggleMaximize));
    let actions = player_step(
        &mut state,
        PlayerEvent::Saved { result: Err("disk full".to_owned()), label: String::new(), parent: None },
    );
    assert_eq!(script(&actions[0]), "nativeOperationFailed(\"disk full\");");
    let actions = player_step(
        &mut state,
        PlayerEvent::Load { path: PathBuf::from("a.gif"), label: "a.gif".to_owned() },
    );
    assert_eq!(script(&actions[0]), "nativeFileLoading(\"a.gif\");");
    assert!(matches!(&actions[1], PlayerAction::StartLoad(p) if p == &PathBuf::from("a.gif")));
}

#[test]
fn primary_file_buttons_use_the_ipc_action_bridge() {
    let html = PLAYER_HTML;
    for action in ["pick-video", "pick-gif", "save"] {
        assert!(
            html.contains(&format!("data-native-action=\"{action}\"")),
            "missing IPC action for {action}"
        );
    }
    assert!(html.contains("window.ipc.postMessage(message)"));
}

#[test]
fn every_routed_message_has_a_control() {
    for message in [
        "pick-video", "pick-gif", "save", "window:close", "window:minimize",
        "window:toggle-maximize", "quality:compact", "quality:balanced", "quality:high",
    ] {
        assert!(PLAYER_HTML.contains(&format!("data-native-action=\"{message}\"")));
        assert!(action_from_message(message).is_some());
    }
    assert!(PLAYER_HTML.contains("send(\"window:drag\")"));
    for function in [
        "nativeDragActive", "nativePickerCancelled", "nativeConversionStarted", "nativeFileLoading",
        "nativeSoundGifReady", "nativeOperationFailed", "nativeSaveComplete",
    ] {
        assert!(PLAYER_HTML.contains(&format!("function {function}(")));
    }
}
