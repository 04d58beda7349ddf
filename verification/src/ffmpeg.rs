use vstd::prelude::*;

use crate::text::{push_str, string_from_chars};

verus! {

/// Where the search for the FFmpeg program stands.
#[derive(Clone, Copy, Debug, PartialEq, Eq, Structural)]
pub enum FfmpegLookup {
    /// Nothing has been looked at yet.
    Start,
    /// Checking that the path given with `--ffmpeg` is a file.
    CheckingExplicit,
    /// Checking for the program beside the running executable.
    CheckingSibling,
    /// Checking that the program on `PATH` runs with `-version`.
    ProbingPath,
    /// The search is over.
    Done,
}

/// What the search asks the outside world to do, or how it ended.
#[derive(Clone, Copy, Debug, PartialEq, Eq, Structural)]
pub enum FfmpegAction {
    /// Check whether the given path is a file.
    CheckExplicit,
    /// Check whether the program beside the running executable is a file (it is not when the
    /// executable cannot be located).
    CheckSibling,
    /// Check whether the program runs from `PATH`.
    ProbePath,
    /// Use the given path.
    UseExplicit,
    /// Use the program beside the executable.
    UseSibling,
    /// Use the program on `PATH`.
    UsePath,
    /// Fail: the given path is not a file.
    NotFoundAt,
    /// Fail: FFmpeg is nowhere to be found.
    Missing,
}

/// The answers each stage waits for: none at the start, whether the check succeeded after.
pub open spec fn lookup_expected(stage: FfmpegLookup, found: Option<bool>) -> bool {
    match stage {
        FfmpegLookup::Start => found is None,
        FfmpegLookup::Done => false,
        _ => found is Some,
    }
}

/// Whether `stage` waits for the answer `found`.
pub fn lookup_accepts(stage: FfmpegLookup, found: Option<bool>) -> (r: bool)
    ensures
        r == lookup_expected(stage, found),
{
    match stage {
        FfmpegLookup::Start => found.is_none(),
        FfmpegLookup::Done => false,
        _ => found.is_some(),
    }
}

/// One step of the search: a path given with `--ffmpeg` is the only one tried; otherwise the
/// program beside the executable comes first and the one on `PATH` second.
pub open spec fn spec_ffmpeg_lookup(
    stage: FfmpegLookup,
    explicit_given: bool,
    found: Option<bool>,
) -> (FfmpegLookup, FfmpegAction) {
    match stage {
        FfmpegLookup::Start => if explicit_given {
            (FfmpegLookup::CheckingExplicit, FfmpegAction::CheckExplicit)
        } else {
            (FfmpegLookup::CheckingSibling, FfmpegAction::CheckSibling)
        },
        FfmpegLookup::CheckingExplicit => if found == Some(true) {
            (FfmpegLookup::Done, FfmpegAction::UseExplicit)
        } else {
            (FfmpegLookup::Done, FfmpegAction::NotFoundAt)
        },
        FfmpegLookup::CheckingSibling => if found == Some(true) {
            (FfmpegLookup::Done, FfmpegAction::UseSibling)
        } else {
            (FfmpegLookup::ProbingPath, FfmpegAction::ProbePath)
        },
        FfmpegLookup::ProbingPath => if found == Some(true) {
            (FfmpegLookup::Done, FfmpegAction::UsePath)
        } else {
            (FfmpegLookup::Done, FfmpegAction::Missing)
        },
        FfmpegLookup::Done => (FfmpegLookup::Done, FfmpegAction::Missing),
    }
}

/// Decides the next step of finding FFmpeg, given whether a path was given and what the last
/// check found.
pub fn ffmpeg_lookup_step(stage: FfmpegLookup, explicit_given: bool, found: Option<bool>) -> (r: (
    FfmpegLookup,
    FfmpegAction,
))
    requires
        lookup_expected(stage, found),
    ensures
        r == spec_ffmpeg_lookup(stage, explicit_given, found),
{
    let ok = match found {
        Some(b) => b,
        None => false,
    };
    match stage {
        FfmpegLookup::Start => if explicit_given {
            (FfmpegLookup::CheckingExplicit, FfmpegAction::CheckExplicit)
        } else {
            (FfmpegLookup::CheckingSibling, FfmpegAction::CheckSibling)
        },
        FfmpegLookup::CheckingExplicit => if ok {
            (FfmpegLookup::Done, FfmpegAction::UseExplicit)
        } else {
            (FfmpegLookup::Done, FfmpegAction::NotFoundAt)
        },
        FfmpegLookup::CheckingSibling => if ok {
            (FfmpegLookup::Done, FfmpegAction::UseSibling)
        } else {
            (FfmpegLookup::ProbingPath, FfmpegAction::ProbePath)
        },
        FfmpegLookup::ProbingPath => if ok {
            (FfmpegLookup::Done, FfmpegAction::UsePath)
        } else {
            (FfmpegLookup::Done, FfmpegAction::Missing)
        },
        FfmpegLookup::Done => (FfmpegLookup::Done, FfmpegAction::Missing),
    }
}

/// The name of the FFmpeg program, looked for beside the executable and on `PATH`.
pub open spec fn program_name(windows: bool) -> Seq<char> {
    if windows {
        "ffmpeg.exe"@
    } else {
        "ffmpeg"@
    }
}

/// The name of the FFmpeg program on Windows or elsewhere.
pub fn ffmpeg_program_name(windows: bool) -> (r: &'static str)
    ensures
        r@ == program_name(windows),
{
    if windows {
        "ffmpeg.exe"
    } else {
        "ffmpeg"
    }
}

/// The message when the path given with `--ffmpeg` (shown as `path`) is not a file.
pub fn ffmpeg_not_found_message(path: &str) -> (r: String)
    ensures
        r@ == "ffmpeg was not found at '"@ + path@ + "'"@,
{
    let mut out: Vec<char> = Vec::new();
    push_str(&mut out, "ffmpeg was not found at '");
    push_str(&mut out, path);
    push_str(&mut out, "'");
    string_from_chars(out)
}

/// The message when FFmpeg is neither beside the executable nor on `PATH`.
pub fn ffmpeg_missing_message(windows: bool) -> (r: String)
    ensures
        r@ == "FFmpeg is required for video conversion. Put "@ + program_name(windows)
            + " beside SoundGIF Player or add ffmpeg to PATH."@,
{
    let mut out: Vec<char> = Vec::new();
    push_str(&mut out, "FFmpeg is required for video conversion. Put ");
    push_str(&mut out, ffmpeg_program_name(windows));
    push_str(&mut out, " beside SoundGIF Player or add ffmpeg to PATH.");
    string_from_chars(out)
}

/// The message when FFmpeg cannot be started while `stage`; `error` says why.
pub fn ffmpeg_launch_message(stage: &str, error: &str) -> (r: String)
    ensures
        r@ == "cannot run FFmpeg while "@ + stage@ + ": "@ + error@,
{
    let mut out: Vec<char> = Vec::new();
    push_str(&mut out, "cannot run FFmpeg while ");
    push_str(&mut out, stage);
    push_str(&mut out, ": ");
    push_str(&mut out, error);
    string_from_chars(out)
}

/// The message when FFmpeg fails while `stage`, quoting what it printed on its error output
/// (already trimmed), when it printed anything.
pub fn ffmpeg_failed_message(stage: &str, stderr: &str) -> (r: String)
    ensures
        r@ == "FFmpeg failed while "@ + stage@ + (if stderr@.len() == 0 {
            Seq::empty()
        } else {
            ": "@ + stderr@
        }),
{
    let mut out: Vec<char> = Vec::new();
    push_str(&mut out, "FFmpeg failed while ");
    push_str(&mut out, stage);
    if stderr.unicode_len() != 0 {
        push_str(&mut out, ": ");
        push_str(&mut out, stderr);
    }
    assert(out@ =~= "FFmpeg failed while "@ + stage@ + (if stderr@.len() == 0 {
        Seq::<char>::empty()
    } else {
        ": "@ + stderr@
    }));
    string_from_chars(out)
}

/// A path given with `--ffmpeg` is the only one tried: it is used when it is a file, and the
/// search fails with "not found at" otherwise, without looking anywhere else.
pub proof fn law_explicit_path_alone(found: bool)
    ensures
        spec_ffmpeg_lookup(FfmpegLookup::Start, true, None) == (
            FfmpegLookup::CheckingExplicit,
            FfmpegAction::CheckExplicit,
        ),
        spec_ffmpeg_lookup(FfmpegLookup::CheckingExplicit, true, Some(found)) == (
            FfmpegLookup::Done,
            if found {
                FfmpegAction::UseExplicit
            } else {
                FfmpegAction::NotFoundAt
            },
        ),
{
}

/// Without a given path, the program beside the executable is checked first and used when
/// present; only then is the one on `PATH` tried, and the search fails when that does not
/// run either.
pub proof fn law_sibling_before_path(beside: bool, on_path: bool)
    ensures
        spec_ffmpeg_lookup(FfmpegLookup::Start, false, None) == (
            FfmpegLookup::CheckingSibling,
            FfmpegAction::CheckSibling,
        ),
        beside ==> spec_ffmpeg_lookup(FfmpegLookup::CheckingSibling, false, Some(beside)) == (
            FfmpegLookup::Done,
            FfmpegAction::UseSibling,
        ),
        !beside ==> spec_ffmpeg_lookup(FfmpegLookup::CheckingSibling, false, Some(beside)) == (
            FfmpegLookup::ProbingPath,
            FfmpegAction::ProbePath,
        ),
        spec_ffmpeg_lookup(FfmpegLookup::ProbingPath, false, Some(on_path)) == (
            FfmpegLookup::Done,
            if on_path {
                FfmpegAction::UsePath
            } else {
                FfmpegAction::Missing
            },
        ),
{
}

} // verus!
