use vstd::prelude::*;

use std::path::PathBuf;

use crate::convert::ConversionOptions;
use crate::media::{is_gif_extension, is_video_extension, is_gif, is_video};
use crate::player::{js_escaped, js_string, options_for_quality, UiAction};
use crate::text::{chars_of, string_from_chars};

verus! {

/// A SoundGIF ready for the player: where it is, its base64 text, the name and folder offered
/// when saving, and whether the player made it (a temporary file to delete later).
#[derive(Debug)]
pub struct ReadyFile {
    pub path: PathBuf,
    pub encoded: String,
    pub suggested_name: String,
    pub default_directory: Option<PathBuf>,
    pub generated: bool,
}

/// What the desktop player remembers between events.
#[derive(Debug)]
pub struct PlayerState {
    /// A conversion is running.
    pub converting: bool,
    /// The quality preset for the next conversion.
    pub quality: String,
    /// The SoundGIF shown now.
    pub current_file: Option<PathBuf>,
    /// The SoundGIF shown now is a temporary file the player made.
    pub current_generated: bool,
    /// The file name offered when saving.
    pub current_name: String,
    /// The folder offered when saving.
    pub current_directory: Option<PathBuf>,
}

/// What happens to the player.
#[derive(Debug)]
pub enum PlayerEvent {
    /// A request from the web interface.
    Action(UiAction),
    /// Files are dragged over the window; whether one of them can be opened.
    DragActive(bool),
    /// The user closed a file picker without choosing.
    PickerCancelled,
    /// A video to convert, with the text that names it.
    Convert { input: PathBuf, label: String },
    /// A GIF to open, with the text that names it.
    Load { path: PathBuf, label: String },
    /// A conversion or a load ended.
    Finished(Result<ReadyFile, String>),
    /// The user chose where to save the current SoundGIF.
    SaveTo(PathBuf),
    /// Saving ended; the text naming the destination and its folder.
    Saved { result: Result<(), String>, label: String, parent: Option<PathBuf> },
    /// The window's close button was pressed.
    CloseRequested,
}

/// What the player asks the window, the web view and the file system to do.
#[derive(Debug)]
pub enum PlayerAction {
    /// Run this script in the web view.
    RunScript(String),
    DragWindow,
    MinimizeWindow,
    ToggleMaximize,
    /// Delete this temporary file.
    RemoveFile(PathBuf),
    /// Leave the event loop.
    Exit,
    /// Ask for a video to convert.
    OpenVideoDialog,
    /// Ask for a GIF to open.
    OpenGifDialog,
    /// Convert this video in the background with these settings.
    StartConversion { input: PathBuf, options: ConversionOptions },
    /// Load this GIF in the background.
    StartLoad(PathBuf),
    /// Ask where to save, offering the state's current name and folder.
    OpenSaveDialog,
    /// Copy the state's current file to this destination.
    CopyToDestination(PathBuf),
}

/// The mathematical content of a [`PlayerState`].
pub struct PlayerModel {
    pub converting: bool,
    pub quality: Seq<char>,
    pub current_file: Option<PathBuf>,
    pub current_generated: bool,
    pub current_name: Seq<char>,
    pub current_directory: Option<PathBuf>,
}

/// The mathematical content of a [`ReadyFile`].
pub struct ReadyModel {
    pub path: PathBuf,
    pub encoded: Seq<char>,
    pub suggested_name: Seq<char>,
    pub default_directory: Option<PathBuf>,
    pub generated: bool,
}

/// The mathematical content of a [`PlayerEvent`].
pub enum EventModel {
    Action(UiAction),
    DragActive(bool),
    PickerCancelled,
    Convert { input: PathBuf, label: Seq<char> },
    Load { path: PathBuf, label: Seq<char> },
    Finished(Result<ReadyModel, Seq<char>>),
    SaveTo(PathBuf),
    Saved { result: Result<(), Seq<char>>, label: Seq<char>, parent: Option<PathBuf> },
    CloseRequested,
}

/// The mathematical content of a [`PlayerAction`]; a conversion is described by the quality
/// preset its settings come from.
pub enum ActionModel {
    RunScript(Seq<char>),
    DragWindow,
    MinimizeWindow,
    ToggleMaximize,
    RemoveFile(PathBuf),
    Exit,
    OpenVideoDialog,
    OpenGifDialog,
    StartConversion { input: PathBuf, quality: Seq<char> },
    StartLoad(PathBuf),
    OpenSaveDialog,
    CopyToDestination(PathBuf),
}

impl View for PlayerState {
    type V = PlayerModel;

    open spec fn view(&self) -> PlayerModel {
        PlayerModel {
            converting: self.converting,
            quality: self.quality@,
            current_file: self.current_file,
            current_generated: self.current_generated,
            current_name: self.current_name@,
            current_directory: self.current_directory,
        }
    }
}

impl View for ReadyFile {
    type V = ReadyModel;

    open spec fn view(&self) -> ReadyModel {
        ReadyModel {
            path: self.path,
            encoded: self.encoded@,
            suggested_name: self.suggested_name@,
            default_directory: self.default_directory,
            generated: self.generated,
        }
    }
}

impl View for PlayerEvent {
    type V = EventModel;

    open spec fn view(&self) -> EventModel {
        match self {
            PlayerEvent::Action(a) => EventModel::Action(*a),
            PlayerEvent::DragActive(b) => EventModel::DragActive(*b),
            PlayerEvent::PickerCancelled => EventModel::PickerCancelled,
            PlayerEvent::Convert { input, label } => EventModel::Convert {
                input: *input,
                label: label@,
            },
            PlayerEvent::Load { path, label } => EventModel::Load { path: *path, label: label@ },
            PlayerEvent::Finished(r) => EventModel::Finished(
                match r {
                    Ok(f) => Ok(f@),
                    Err(e) => Err(e@),
                },
            ),
            PlayerEvent::SaveTo(p) => EventModel::SaveTo(*p),
            PlayerEvent::Saved { result, label, parent } => EventModel::Saved {
                result: match result {
                    Ok(()) => Ok(()),
                    Err(e) => Err(e@),
                },
                label: label@,
                parent: *parent,
            },
            PlayerEvent::CloseRequested => EventModel::CloseRequested,
        }
    }
}

/// The model of an action; `quality` is the preset a conversion's settings must match.
pub open spec fn action_matches(a: PlayerAction, m: ActionModel) -> bool {
    match (a, m) {
        (PlayerAction::RunScript(s), ActionModel::RunScript(t)) => s@ == t,
        (PlayerAction::DragWindow, ActionModel::DragWindow) => true,
        (PlayerAction::MinimizeWindow, ActionModel::MinimizeWindow) => true,
        (PlayerAction::ToggleMaximize, ActionModel::ToggleMaximize) => true,
        (PlayerAction::RemoveFile(p), ActionModel::RemoveFile(q)) => p == q,
        (PlayerAction::Exit, ActionModel::Exit) => true,
        (PlayerAction::OpenVideoDialog, ActionModel::OpenVideoDialog) => true,
        (PlayerAction::OpenGifDialog, ActionModel::OpenGifDialog) => true,
        (
            PlayerAction::StartConversion { input, options },
            ActionModel::StartConversion { input: i, quality },
        ) => input == i && preset_options(quality, options),
        (PlayerAction::StartLoad(p), ActionModel::StartLoad(q)) => p == q,
        (PlayerAction::OpenSaveDialog, ActionModel::OpenSaveDialog) => true,
        (PlayerAction::CopyToDestination(p), ActionModel::CopyToDestination(q)) => p == q,
        _ => false,
    }
}

/// The settings of a quality preset, as `options_for_quality` gives them.
pub open spec fn preset_options(quality: Seq<char>, o: ConversionOptions) -> bool {
    &&& o.ffmpeg is None
    &&& quality == "compact"@ ==> o.fps == 12 && o.width == 480 && o.palette_colors == 96
        && o.audio_bitrate@ == "48k"@
    &&& quality == "high"@ ==> o.fps == 24 && o.width == 960 && o.palette_colors == 192
        && o.audio_bitrate@ == "96k"@
    &&& quality != "compact"@ && quality != "high"@ ==> o.fps == 15 && o.width == 640
        && o.palette_colors == 128 && o.audio_bitrate@ == "64k"@
}

/// `s` as a JavaScript string literal.
pub open spec fn js_quote(s: Seq<char>) -> Seq<char> {
    seq!['"'] + js_escaped(s) + seq!['"']
}

/// The script that reports an error to the web interface.
pub open spec fn failed_script(message: Seq<char>) -> Seq<char> {
    "nativeOperationFailed("@ + js_quote(message) + ");"@
}

/// The script that shows a SoundGIF.
pub open spec fn ready_script(r: ReadyModel) -> Seq<char> {
    "nativeSoundGifReady("@ + js_quote(r.encoded) + ", "@ + js_quote(r.suggested_name) + ", "@ + (
    if r.generated {
        "true"@
    } else {
        "false"@
    }) + ");"@
}

/// What closing the window does: delete the player's temporary file and leave.
pub open spec fn close_step(s: PlayerModel) -> (PlayerModel, Seq<ActionModel>) {
    if s.current_generated && s.current_file is Some {
        (
            PlayerModel { current_file: None, current_generated: false, ..s },
            seq![ActionModel::RemoveFile(s.current_file->Some_0), ActionModel::Exit],
        )
    } else {
        (s, seq![ActionModel::Exit])
    }
}

/// How the player reacts to one event.
pub open spec fn spec_player_step(s: PlayerModel, e: EventModel) -> (PlayerModel, Seq<ActionModel>) {
    match e {
        EventModel::Action(a) => match a {
            UiAction::PickVideo => (s, seq![ActionModel::OpenVideoDialog]),
            UiAction::PickGif => (s, seq![ActionModel::OpenGifDialog]),
            UiAction::Save => if s.current_file is None {
                (s, seq![ActionModel::RunScript(failed_script("There is no SoundGIF to save yet."@))])
            } else {
                (s, seq![ActionModel::OpenSaveDialog])
            },
            UiAction::WindowClose => close_step(s),
            UiAction::WindowDrag => (s, seq![ActionModel::DragWindow]),
            UiAction::WindowMinimize => (s, seq![ActionModel::MinimizeWindow]),
            UiAction::WindowToggleMaximize => (s, seq![ActionModel::ToggleMaximize]),
            UiAction::QualityCompact => (PlayerModel { quality: "compact"@, ..s }, Seq::empty()),
            UiAction::QualityBalanced => (PlayerModel { quality: "balanced"@, ..s }, Seq::empty()),
            UiAction::QualityHigh => (PlayerModel { quality: "high"@, ..s }, Seq::empty()),
        },
        EventModel::DragActive(b) => (
            s,
            seq![
                ActionModel::RunScript(
                    if b {
                        "nativeDragActive(true);"@
                    } else {
                        "nativeDragActive(false);"@
                    },
                ),
            ],
        ),
        EventModel::PickerCancelled => (s, seq![ActionModel::RunScript("nativePickerCancelled();"@)]),
        EventModel::Convert { input, label } => if s.converting {
            (s, seq![ActionModel::RunScript(failed_script("A conversion is already running."@))])
        } else {
            (
                PlayerModel { converting: true, ..s },
                seq![
                    ActionModel::RunScript("nativeConversionStarted("@ + js_quote(label) + ");"@),
                    ActionModel::StartConversion { input, quality: s.quality },
                ],
            )
        },
        EventModel::Load { path, label } => if s.converting {
            (
                s,
                seq![
                    ActionModel::RunScript(
                        failed_script("Wait for the current conversion to finish."@),
                    ),
                ],
            )
        } else {
            (
                s,
                seq![
                    ActionModel::RunScript("nativeFileLoading("@ + js_quote(label) + ");"@),
                    ActionModel::StartLoad(path),
                ],
            )
        },
        EventModel::Finished(r) => match r {
            Ok(ready) => (
                PlayerModel {
                    converting: false,
                    current_file: Some(ready.path),
                    current_generated: ready.generated,
                    current_name: ready.suggested_name,
                    current_directory: ready.default_directory,
                    ..s
                },
                (if s.current_generated && s.current_file is Some {
                    seq![ActionModel::RemoveFile(s.current_file->Some_0)]
                } else {
                    Seq::empty()
                }) + seq![ActionModel::RunScript(ready_script(ready))],
            ),
            Err(m) => (
                PlayerModel { converting: false, ..s },
                seq![ActionModel::RunScript(failed_script(m))],
            ),
        },
        EventModel::SaveTo(dest) => if s.current_file is None {
            (s, Seq::empty())
        } else {
            (s, seq![ActionModel::CopyToDestination(dest)])
        },
        EventModel::Saved { result, label, parent } => match result {
            Ok(()) => (
                PlayerModel { current_directory: parent, ..s },
                seq![ActionModel::RunScript("nativeSaveComplete("@ + js_quote(label) + ");"@)],
            ),
            Err(m) => (s, seq![ActionModel::RunScript(failed_script(m))]),
        },
        EventModel::CloseRequested => close_step(s),
    }
}

/// Whether an event closes the window.
pub open spec fn is_close(e: EventModel) -> bool {
    e == EventModel::CloseRequested || e == EventModel::Action(UiAction::WindowClose)
}

/// While a conversion runs, a request to convert or to open another file starts nothing,
/// leaves the state as it is and only reports why.
pub proof fn law_one_conversion_at_a_time(s: PlayerModel, e: EventModel)
    requires
        s.converting,
        e is Convert || e is Load,
    ensures
        spec_player_step(s, e).0 == s,
        spec_player_step(s, e).1.len() == 1,
        spec_player_step(s, e).1[0] is RunScript,
{
}

/// A conversion requested while none runs marks the player busy and starts exactly one
/// conversion of that input, with the settings of the quality chosen last.
pub proof fn law_conversion_uses_chosen_quality(
    s: PlayerModel,
    choice: UiAction,
    input: PathBuf,
    label: Seq<char>,
)
    requires
        !s.converting,
        choice == UiAction::QualityCompact || choice == UiAction::QualityBalanced || choice
            == UiAction::QualityHigh,
    ensures
        ({
            let chosen = spec_player_step(s, EventModel::Action(choice)).0;
            let (after, actions) = spec_player_step(
                chosen,
                EventModel::Convert { input, label },
            );
            &&& after.converting
            &&& actions.len() == 2
            &&& actions[1] == ActionModel::StartConversion {
                input,
                quality: if choice == UiAction::QualityCompact {
                    "compact"@
                } else if choice == UiAction::QualityHigh {
                    "high"@
                } else {
                    "balanced"@
                },
            }
        }),
{
}

/// A temporary SoundGIF the player made is deleted, first, when another file takes its place
/// or when the window closes; closing always ends with leaving the event loop.
pub proof fn law_generated_file_removed(s: PlayerModel, e: EventModel)
    requires
        is_close(e) || e matches EventModel::Finished(Ok(_)),
    ensures
        s.current_generated && s.current_file is Some ==> spec_player_step(s, e).1.len() >= 2
            && spec_player_step(s, e).1[0] == ActionModel::RemoveFile(s.current_file->Some_0),
        is_close(e) ==> spec_player_step(s, e).1.last() == ActionModel::Exit && !(spec_player_step(
            s,
            e,
        ).0.current_generated && spec_player_step(s, e).0.current_file is Some),
{
}

/// Whatever a conversion or load ends with, success or failure, the player is no longer busy:
/// the next conversion request starts a conversion.
pub proof fn law_finish_frees_player(
    s: PlayerModel,
    r: Result<ReadyModel, Seq<char>>,
    input: PathBuf,
    label: Seq<char>,
)
    ensures
        !spec_player_step(s, EventModel::Finished(r)).0.converting,
        ({
            let after = spec_player_step(s, EventModel::Finished(r)).0;
            let (next, actions) = spec_player_step(after, EventModel::Convert { input, label });
            &&& next.converting
            &&& actions.len() == 2
            &&& actions[1] == ActionModel::StartConversion { input, quality: after.quality }
        }),
{
}

/// The player's state before any event.
pub fn new_player_state() -> (r: PlayerState)
    ensures
        !r.converting,
        r.quality@ == "balanced"@,
        r.current_file is None,
        !r.current_generated,
        r.current_name@ == "soundgif.gif"@,
        r.current_directory is None,
{
    PlayerState {
        converting: false,
        quality: "balanced".to_owned(),
        current_file: None,
        current_generated: false,
        current_name: "soundgif.gif".to_owned(),
        current_directory: None,
    }
}

/// `prefix`, `arg` as a JavaScript string literal, then `);`.
fn call_script(prefix: &str, arg: &str) -> (r: String)
    ensures
        r@ == prefix@ + js_quote(arg@) + ");"@,
{
    let mut out = chars_of(prefix);
    let quoted = js_string(arg);
    let mut q = chars_of(quoted.as_str());
    out.append(&mut q);
    let mut close = chars_of(");");
    out.append(&mut close);
    string_from_chars(out)
}

fn failed(message: &str) -> (r: PlayerAction)
    ensures
        action_matches(r, ActionModel::RunScript(failed_script(message@))),
{
    PlayerAction::RunScript(call_script("nativeOperationFailed(", message))
}

fn ready_script_exec(ready: &ReadyFile) -> (r: String)
    ensures
        r@ == ready_script(ready@),
{
    let mut out = chars_of("nativeSoundGifReady(");
    let mut a = chars_of(js_string(ready.encoded.as_str()).as_str());
    out.append(&mut a);
    let mut sep = chars_of(", ");
    out.append(&mut sep);
    let mut b = chars_of(js_string(ready.suggested_name.as_str()).as_str());
    out.append(&mut b);
    let mut sep2 = chars_of(", ");
    out.append(&mut sep2);
    let mut c = if ready.generated {
        chars_of("true")
    } else {
        chars_of("false")
    };
    out.append(&mut c);
    let mut close = chars_of(");");
    out.append(&mut close);
    string_from_chars(out)
}

/// The actions correspond one to one with the model's.
pub open spec fn actions_match(a: Seq<PlayerAction>, m: Seq<ActionModel>) -> bool {
    a.len() == m.len() && forall|i: int| 0 <= i < a.len() ==> action_matches(#[trigger] a[i], m[i])
}

fn close(state: &mut PlayerState) -> (r: Vec<PlayerAction>)
    ensures
        final(state)@ == close_step(old(state)@).0,
        actions_match(r@, close_step(old(state)@).1),
{
    let mut actions: Vec<PlayerAction> = Vec::new();
    if state.current_generated && state.current_file.is_some() {
        let file = state.current_file.take();
        state.current_generated = false;
        match file {
            Some(p) => actions.push(PlayerAction::RemoveFile(p)),
            None => {},
        }
    }
    actions.push(PlayerAction::Exit);
    actions
}

/// Handles one event of the desktop player: updates the state and returns what to do, in
/// order.
pub fn player_step(state: &mut PlayerState, event: PlayerEvent) -> (r: Vec<PlayerAction>)
    ensures
        final(state)@ == spec_player_step(old(state)@, event@).0,
        actions_match(r@, spec_player_step(old(state)@, event@).1),
{
    let mut actions: Vec<PlayerAction> = Vec::new();
    match event {
        PlayerEvent::Action(a) => match a {
            UiAction::PickVideo => actions.push(PlayerAction::OpenVideoDialog),
            UiAction::PickGif => actions.push(PlayerAction::OpenGifDialog),
            UiAction::Save => {
                if state.current_file.is_none() {
                    actions.push(failed("There is no SoundGIF to save yet."));
                } else {
                    actions.push(PlayerAction::OpenSaveDialog);
                }
            },
            UiAction::WindowClose => {
                return close(state);
            },
            UiAction::WindowDrag => actions.push(PlayerAction::DragWindow),
            UiAction::WindowMinimize => actions.push(PlayerAction::MinimizeWindow),
            UiAction::WindowToggleMaximize => actions.push(PlayerAction::ToggleMaximize),
            UiAction::QualityCompact => state.quality = "compact".to_owned(),
            UiAction::QualityBalanced => state.quality = "balanced".to_owned(),
            UiAction::QualityHigh => state.quality = "high".to_owned(),
        },
        PlayerEvent::DragActive(b) => {
            let script = if b {
                "nativeDragActive(true);".to_owned()
            } else {
                "nativeDragActive(false);".to_owned()
            };
            actions.push(PlayerAction::RunScript(script));
        },
        PlayerEvent::PickerCancelled => {
            actions.push(PlayerAction::RunScript("nativePickerCancelled();".to_owned()));
        },
        PlayerEvent::Convert { input, label } => {
            if state.converting {
                actions.push(failed("A conversion is already running."));
            } else {
                state.converting = true;
                actions.push(
                    PlayerAction::RunScript(call_script("nativeConversionStarted(", label.as_str())),
                );
                let options = options_for_quality(state.quality.as_str());
                actions.push(PlayerAction::StartConversion { input, options });
            }
        },
        PlayerEvent::Load { path, label } => {
            if state.converting {
                actions.push(failed("Wait for the current conversion to finish."));
            } else {
                actions.push(
                    PlayerAction::RunScript(call_script("nativeFileLoading(", label.as_str())),
                );
                actions.push(PlayerAction::StartLoad(path));
            }
        },
        PlayerEvent::Finished(result) => {
            state.converting = false;
            match result {
                Ok(ready) => {
                    let script = ready_script_exec(&ready);
                    if state.current_generated && state.current_file.is_some() {
                        let previous = state.current_file.take();
                        match previous {
                            Some(p) => actions.push(PlayerAction::RemoveFile(p)),
                            None => {},
                        }
                    }
                    state.current_file = Some(ready.path);
                    state.current_generated = ready.generated;
                    state.current_name = ready.suggested_name;
                    state.current_directory = ready.default_directory;
                    actions.push(PlayerAction::RunScript(script));
                },
                Err(message) => actions.push(failed(message.as_str())),
            }
        },
        PlayerEvent::SaveTo(destination) => {
            if state.current_file.is_some() {
                actions.push(PlayerAction::CopyToDestination(destination));
            }
        },
        PlayerEvent::Saved { result, label, parent } => match result {
            Ok(()) => {
                state.current_directory = parent;
                actions.push(
                    PlayerAction::RunScript(call_script("nativeSaveComplete(", label.as_str())),
                );
            },
            Err(message) => actions.push(failed(message.as_str())),
        },
        PlayerEvent::CloseRequested => {
            return close(state);
        },
    }
    actions
}

/// Whether any of the dragged files (given by their extensions) can be opened.
pub fn drag_supported(extensions: &Vec<Option<String>>) -> (r: bool)
    ensures
        r == exists|i: int|
            0 <= i < extensions@.len() && (is_video_extension(opt_string(#[trigger] extensions@[i]))
                || is_gif_extension(opt_string(extensions@[i]))),
{
    let mut i: usize = 0;
    while i < extensions.len()
        invariant
            i <= extensions.len(),
            forall|j: int|
                0 <= j < i ==> !(is_video_extension(opt_string(#[trigger] extensions@[j]))
                    || is_gif_extension(opt_string(extensions@[j]))),
        decreases extensions.len() - i,
    {
        let ext = match &extensions[i] {
            Some(s) => Some(s.as_str()),
            None => None,
        };
        if is_video(ext) || is_gif(ext) {
            return true;
        }
        i = i + 1;
    }
    false
}

/// The view of an optional owned string.
pub open spec fn opt_string(s: Option<String>) -> Option<Seq<char>> {
    match s {
        Some(x) => Some(x@),
        None => None,
    }
}

/// The first dropped file that can be opened (by position among the extensions given), and
/// whether it is a video to convert rather than a GIF to load.
pub fn dropped_file(extensions: &Vec<Option<String>>) -> (r: Option<(usize, bool)>)
    ensures
        match r {
            Some((k, video)) => k < extensions@.len() && (is_video_extension(
                opt_string(extensions@[k as int]),
            ) || is_gif_extension(opt_string(extensions@[k as int]))) && video
                == is_video_extension(opt_string(extensions@[k as int])) && forall|j: int|
                0 <= j < k ==> !(is_video_extension(opt_string(#[trigger] extensions@[j]))
                    || is_gif_extension(opt_string(extensions@[j]))),
            None => forall|j: int|
                0 <= j < extensions@.len() ==> !(is_video_extension(
                    opt_string(#[trigger] extensions@[j]),
                ) || is_gif_extension(opt_string(extensions@[j]))),
        },
{
    let mut i: usize = 0;
    while i < extensions.len()
        invariant
            i <= extensions.len(),
            forall|j: int|
                0 <= j < i ==> !(is_video_extension(opt_string(#[trigger] extensions@[j]))
                    || is_gif_extension(opt_string(extensions@[j]))),
        decreases extensions.len() - i,
    {
        let ext = match &extensions[i] {
            Some(s) => Some(s.as_str()),
            None => None,
        };
        let video = is_video(ext);
        if video || is_gif(ext) {
            return Some((i, video));
        }
        i = i + 1;
    }
    None
}

} // verus!
