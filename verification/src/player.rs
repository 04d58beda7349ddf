use vstd::prelude::*;
use base64::Engine;

use crate::convert::ConversionOptions;
use crate::text::{chars_of, hex_char, hex_digit, str_eq, string_from_chars};

verus! {

/// Largest SoundGIF the desktop player opens.
pub const MAX_UI_SOUNDGIF_BYTES: u64 = 64 * 1024 * 1024;

/// Requests the player's web interface sends to the native host.
#[derive(Clone, Copy, Debug, PartialEq, Eq, Structural)]
pub enum UiAction {
    PickVideo,
    PickGif,
    Save,
    WindowClose,
    WindowDrag,
    WindowMinimize,
    WindowToggleMaximize,
    QualityCompact,
    QualityBalanced,
    QualityHigh,
}

/// The action an IPC message names.
pub open spec fn spec_action(m: Seq<char>) -> Option<UiAction> {
    if m == "pick-video"@ {
        Some(UiAction::PickVideo)
    } else if m == "pick-gif"@ {
        Some(UiAction::PickGif)
    } else if m == "save"@ {
        Some(UiAction::Save)
    } else if m == "window:close"@ {
        Some(UiAction::WindowClose)
    } else if m == "window:drag"@ {
        Some(UiAction::WindowDrag)
    } else if m == "window:minimize"@ {
        Some(UiAction::WindowMinimize)
    } else if m == "window:toggle-maximize"@ {
        Some(UiAction::WindowToggleMaximize)
    } else if m == "quality:compact"@ {
        Some(UiAction::QualityCompact)
    } else if m == "quality:balanced"@ {
        Some(UiAction::QualityBalanced)
    } else if m == "quality:high"@ {
        Some(UiAction::QualityHigh)
    } else {
        None
    }
}

/// Which message names which request: each of the ten messages of the web interface selects
/// its own action, and every other message selects none.
pub proof fn law_ui_messages(m: Seq<char>)
    ensures
        spec_action(m) == Some(UiAction::PickVideo) <==> m == "pick-video"@,
        spec_action(m) == Some(UiAction::PickGif) <==> m == "pick-gif"@,
        spec_action(m) == Some(UiAction::Save) <==> m == "save"@,
        spec_action(m) == Some(UiAction::WindowClose) <==> m == "window:close"@,
        spec_action(m) == Some(UiAction::WindowDrag) <==> m == "window:drag"@,
        spec_action(m) == Some(UiAction::WindowMinimize) <==> m == "window:minimize"@,
        spec_action(m) == Some(UiAction::WindowToggleMaximize) <==> m == "window:toggle-maximize"@,
        spec_action(m) == Some(UiAction::QualityCompact) <==> m == "quality:compact"@,
        spec_action(m) == Some(UiAction::QualityBalanced) <==> m == "quality:balanced"@,
        spec_action(m) == Some(UiAction::QualityHigh) <==> m == "quality:high"@,
{
    reveal_strlit("pick-video");
    reveal_strlit("pick-gif");
    reveal_strlit("save");
    reveal_strlit("window:close");
    reveal_strlit("window:drag");
    reveal_strlit("window:minimize");
    reveal_strlit("window:toggle-maximize");
    reveal_strlit("quality:compact");
    reveal_strlit("quality:balanced");
    reveal_strlit("quality:high");
    // The messages differ in their length or in one of these characters.
    if m.len() > 8 {
        let (a, b, c, d) = (m[0], m[5], m[7], m[8]);
        assert(m[0] == a && m[5] == b && m[7] == c && m[8] == d);
    } else if m.len() > 5 {
        let (a, b) = (m[0], m[5]);
        assert(m[0] == a && m[5] == b);
    } else if m.len() > 0 {
        let a = m[0];
        assert(m[0] == a);
    }
}

/// Maps an IPC message from the web interface to an action; unknown messages give `None`.
pub fn action_from_message(message: &str) -> (r: Option<UiAction>)
    ensures
        r == spec_action(message@),
{
    if str_eq(message, "pick-video") {
        Some(UiAction::PickVideo)
    } else if str_eq(message, "pick-gif") {
        Some(UiAction::PickGif)
    } else if str_eq(message, "save") {
        Some(UiAction::Save)
    } else if str_eq(message, "window:close") {
        Some(UiAction::WindowClose)
    } else if str_eq(message, "window:drag") {
        Some(UiAction::WindowDrag)
    } else if str_eq(message, "window:minimize") {
        Some(UiAction::WindowMinimize)
    } else if str_eq(message, "window:toggle-maximize") {
        Some(UiAction::WindowToggleMaximize)
    } else if str_eq(message, "quality:compact") {
        Some(UiAction::QualityCompact)
    } else if str_eq(message, "quality:balanced") {
        Some(UiAction::QualityBalanced)
    } else if str_eq(message, "quality:high") {
        Some(UiAction::QualityHigh)
    } else {
        None
    }
}

/// The conversion settings of a quality preset: `compact` and `high` change the frame rate,
/// width, palette and bitrate; any other name keeps the defaults.
pub fn options_for_quality(quality: &str) -> (r: ConversionOptions)
    ensures
        r.ffmpeg is None,
        quality@ == "compact"@ ==> r.fps == 12 && r.width == 480 && r.palette_colors == 96
            && r.audio_bitrate@ == "48k"@,
        quality@ == "high"@ ==> r.fps == 24 && r.width == 960 && r.palette_colors == 192
            && r.audio_bitrate@ == "96k"@,
        quality@ != "compact"@ && quality@ != "high"@ ==> r.fps == 15 && r.width == 640
            && r.palette_colors == 128 && r.audio_bitrate@ == "64k"@,
{
    proof {
        reveal_strlit("compact");
        reveal_strlit("high");
        assert("compact"@.len() == 7);
        assert("compact"@ != "high"@);
    }
    let mut options = ConversionOptions::default();
    if str_eq(quality, "compact") {
        options.fps = 12;
        options.width = 480;
        options.palette_colors = 96;
        options.audio_bitrate = "48k".to_owned();
    } else if str_eq(quality, "high") {
        options.fps = 24;
        options.width = 960;
        options.palette_colors = 192;
        options.audio_bitrate = "96k".to_owned();
    }
    options
}

/// The name offered when saving a converted video: its file stem (or `video`) followed by
/// `.sound.gif`.
pub fn suggested_output_name(stem: Option<&str>) -> (r: String)
    ensures
        r@ == (match stem {
            Some(s) => s@,
            None => "video"@,
        }) + ".sound.gif"@,
{
    let mut chars = match stem {
        Some(s) => chars_of(s),
        None => chars_of("video"),
    };
    let mut suffix = chars_of(".sound.gif");
    chars.append(&mut suffix);
    string_from_chars(chars)
}

/// Whether `c` is in the Unicode general category Cc (control): U+0000–U+001F and
/// U+007F–U+009F.
pub open spec fn is_control(c: char) -> bool {
    (c as u32) <= 0x1f || (0x7f <= (c as u32) <= 0x9f)
}

/// How one character is written inside a JavaScript string literal.
pub open spec fn js_escape(c: char) -> Seq<char> {
    if c == '"' {
        seq!['\\', '"']
    } else if c == '\\' {
        seq!['\\', '\\']
    } else if c == '\n' {
        seq!['\\', 'n']
    } else if c == '\r' {
        seq!['\\', 'r']
    } else if c == '\t' {
        seq!['\\', 't']
    } else if is_control(c) {
        seq!['\\', 'u', '0', '0', hex_digit(((c as u32) / 16) as int), hex_digit(((c as u32) % 16) as int)]
    } else {
        seq![c]
    }
}

/// Every character of `s` escaped.
pub open spec fn js_escaped(s: Seq<char>) -> Seq<char>
    decreases s.len(),
{
    if s.len() == 0 {
        Seq::empty()
    } else {
        js_escaped(s.drop_last()) + js_escape(s.last())
    }
}

/// Quotes `value` as a JavaScript string literal for scripts sent to the web view.
pub fn js_string(value: &str) -> (r: String)
    ensures
        r@ == seq!['"'] + js_escaped(value@) + seq!['"'],
{
    let chars = chars_of(value);
    let mut out: Vec<char> = Vec::new();
    out.push('"');
    let mut i: usize = 0;
    while i < chars.len()
        invariant
            i <= chars.len(),
            out@ == seq!['"'] + js_escaped(chars@.take(i as int)),
        decreases chars.len() - i,
    {
        let c = chars[i];
        let v = c as u32;
        let ghost before = out@;
        if c == '"' {
            out.push('\\');
            out.push('"');
        } else if c == '\\' {
            out.push('\\');
            out.push('\\');
        } else if c == '\n' {
            out.push('\\');
            out.push('n');
        } else if c == '\r' {
            out.push('\\');
            out.push('r');
        } else if c == '\t' {
            out.push('\\');
            out.push('t');
        } else if v <= 0x1f || (0x7f <= v && v <= 0x9f) {
            out.push('\\');
            out.push('u');
            out.push('0');
            out.push('0');
            out.push(hex_char(v / 16));
            out.push(hex_char(v % 16));
        } else {
            out.push(c);
        }
        assert(chars@.take(i + 1).drop_last() =~= chars@.take(i as int));
        assert(out@ =~= before + js_escape(c));
        i = i + 1;
    }
    assert(chars@.take(chars.len() as int) =~= chars@);
    out.push('"');
    string_from_chars(out)
}

/// Whether the player opens a file of `size` bytes.
pub fn check_player_file_size(size: u64) -> (r: bool)
    ensures
        r == (1 <= size <= MAX_UI_SOUNDGIF_BYTES),
{
    size != 0 && size <= MAX_UI_SOUNDGIF_BYTES
}

/// The base64 alphabet of RFC 4648 (`A`–`Z`, `a`–`z`, `0`–`9`, `+`, `/`).
pub open spec fn base64_symbol(v: int) -> char {
    if v < 26 {
        (65 + v) as char
    } else if v < 52 {
        (97 + v - 26) as char
    } else if v < 62 {
        (48 + v - 52) as char
    } else if v == 62 {
        '+'
    } else {
        '/'
    }
}

/// Standard padded base64 (RFC 4648, section 4) of `b`.
pub open spec fn base64_standard(b: Seq<u8>) -> Seq<char>
    decreases b.len(),
{
    if b.len() == 0 {
        Seq::empty()
    } else {
        let b0 = b[0] as int;
        let b1 = if b.len() > 1 { b[1] as int } else { 0 };
        let b2 = if b.len() > 2 { b[2] as int } else { 0 };
        if b.len() == 1 {
            seq![base64_symbol(b0 / 4), base64_symbol((b0 % 4) * 16), '=', '=']
        } else if b.len() == 2 {
            seq![
                base64_symbol(b0 / 4),
                base64_symbol((b0 % 4) * 16 + b1 / 16),
                base64_symbol((b1 % 16) * 4),
                '=',
            ]
        } else {
            seq![
                base64_symbol(b0 / 4),
                base64_symbol((b0 % 4) * 16 + b1 / 16),
                base64_symbol((b1 % 16) * 4 + b2 / 64),
                base64_symbol(b2 % 64),
            ] + base64_standard(b.subrange(3, b.len() as int))
        }
    }
}

/// Length of the padded base64 text of `n` bytes.
pub open spec fn base64_len(n: int) -> int {
    (n / 3) * 4 + if n % 3 > 0 {
        4int
    } else {
        0int
    }
}

/// `base64::Engine::encode` on `base64::engine::general_purpose::STANDARD`: the padded
/// standard-alphabet base64 text of `bytes`. The crate panics when the text's length would
/// overflow `usize`, which the precondition excludes.
#[verifier::external_body]
fn base64_encode(bytes: &[u8]) -> (r: String)
    requires
        base64_len(bytes.len() as int) <= usize::MAX,
    ensures
        r@ == base64_standard(bytes@),
{
    base64::engine::general_purpose::STANDARD.encode(bytes)
}

/// The base64 text the player's web view loads a SoundGIF from.
pub fn encode_for_player(bytes: &[u8]) -> (r: String)
    requires
        base64_len(bytes.len() as int) <= usize::MAX,
    ensures
        r@ == base64_standard(bytes@),
{
    base64_encode(bytes)
}

} // verus!
