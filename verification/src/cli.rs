use vstd::prelude::*;

use crate::text::{chars_of, push_str, str_eq, string_from_chars};

verus! {

/// The commands of the `soundgif` tool.
#[derive(Clone, Copy, Debug, PartialEq, Eq, Structural)]
pub enum CliCommand {
    Embed,
    Extract,
    Inspect,
    Strip,
    FromVideo,
    Ui,
    Help,
    Version,
    Unknown,
}

/// The options that take a value.
#[derive(Clone, Copy, Debug, PartialEq, Eq, Structural)]
pub enum CliOption {
    Output,
    Mime,
    StartMs,
    Ffmpeg,
    Fps,
    Width,
    Colors,
    AudioBitrate,
}

/// Why a command line is refused; `index` points into the command's arguments.
#[derive(Clone, Copy, Debug, PartialEq, Eq, Structural)]
pub enum CliError {
    /// The option is the last argument.
    MissingValue(CliOption),
    /// The value at `index` is not a number the option accepts.
    InvalidNumber { option: CliOption, index: usize },
    /// The argument at `index` starts with `-` and is no option of the command.
    UnknownOption { index: usize },
    /// The argument at `index` is a second input.
    UnexpectedArgument { index: usize },
    /// The command needs an input.
    MissingInput(CliCommand),
    /// The command needs `-o`.
    MissingOutput(CliCommand),
    /// `embed` needs exactly a GIF and an audio file.
    EmbedArity,
    /// `inspect` needs exactly one GIF.
    InspectArity,
    /// `ui` takes no arguments.
    UiArguments,
}

/// The command a word names.
pub open spec fn spec_command(w: Seq<char>) -> CliCommand {
    if w == "embed"@ || w == "encode"@ {
        CliCommand::Embed
    } else if w == "extract"@ {
        CliCommand::Extract
    } else if w == "inspect"@ || w == "info"@ {
        CliCommand::Inspect
    } else if w == "strip"@ {
        CliCommand::Strip
    } else if w == "from-video"@ || w == "convert"@ {
        CliCommand::FromVideo
    } else if w == "ui"@ || w == "view"@ {
        CliCommand::Ui
    } else if w == "help"@ || w == "--help"@ || w == "-h"@ {
        CliCommand::Help
    } else if w == "--version"@ || w == "-V"@ || w == "version"@ {
        CliCommand::Version
    } else {
        CliCommand::Unknown
    }
}

/// Which words name which command: `embed`/`encode`, `extract`, `inspect`/`info`, `strip`,
/// `from-video`/`convert`, `ui`/`view`, `help`/`--help`/`-h` and `--version`/`-V`/`version`;
/// any other word is unknown.
pub proof fn law_command_words(w: Seq<char>)
    ensures
        spec_command(w) == CliCommand::Embed <==> (w == "embed"@ || w == "encode"@),
        spec_command(w) == CliCommand::Extract <==> w == "extract"@,
        spec_command(w) == CliCommand::Inspect <==> (w == "inspect"@ || w == "info"@),
        spec_command(w) == CliCommand::Strip <==> w == "strip"@,
        spec_command(w) == CliCommand::FromVideo <==> (w == "from-video"@ || w == "convert"@),
        spec_command(w) == CliCommand::Ui <==> (w == "ui"@ || w == "view"@),
        spec_command(w) == CliCommand::Help <==> (w == "help"@ || w == "--help"@ || w == "-h"@),
        spec_command(w) == CliCommand::Version <==> (w == "--version"@ || w == "-V"@ || w
            == "version"@),
{
    reveal_strlit("embed");
    reveal_strlit("encode");
    reveal_strlit("extract");
    reveal_strlit("inspect");
    reveal_strlit("info");
    reveal_strlit("strip");
    reveal_strlit("from-video");
    reveal_strlit("convert");
    reveal_strlit("ui");
    reveal_strlit("view");
    reveal_strlit("help");
    reveal_strlit("--help");
    reveal_strlit("-h");
    reveal_strlit("--version");
    reveal_strlit("-V");
    reveal_strlit("version");
    // The words differ in their length or in one of their first three characters.
    if w.len() > 2 {
        let (a, b, c) = (w[0], w[1], w[2]);
        assert(w[0] == a && w[1] == b && w[2] == c);
    } else if w.len() > 1 {
        let (a, b) = (w[0], w[1]);
        assert(w[0] == a && w[1] == b);
    }
}

/// The command named by the first argument of the tool.
pub fn parse_command(word: &str) -> (r: CliCommand)
    ensures
        r == spec_command(word@),
{
    if str_eq(word, "embed") || str_eq(word, "encode") {
        CliCommand::Embed
    } else if str_eq(word, "extract") {
        CliCommand::Extract
    } else if str_eq(word, "inspect") || str_eq(word, "info") {
        CliCommand::Inspect
    } else if str_eq(word, "strip") {
        CliCommand::Strip
    } else if str_eq(word, "from-video") || str_eq(word, "convert") {
        CliCommand::FromVideo
    } else if str_eq(word, "ui") || str_eq(word, "view") {
        CliCommand::Ui
    } else if str_eq(word, "help") || str_eq(word, "--help") || str_eq(word, "-h") {
        CliCommand::Help
    } else if str_eq(word, "--version") || str_eq(word, "-V") || str_eq(word, "version") {
        CliCommand::Version
    } else {
        CliCommand::Unknown
    }
}

/// The views of the arguments.
pub open spec fn arg_views(args: Seq<String>) -> Seq<Seq<char>> {
    args.map_values(|a: String| a@)
}

/// Whether an argument looks like an option.
pub open spec fn is_dash(a: Seq<char>) -> bool {
    a.len() > 0 && a[0] == '-'
}

/// Whether an argument starts with `-`.
pub fn starts_with_dash(a: &str) -> (r: bool)
    ensures
        r == is_dash(a@),
{
    let chars = chars_of(a);
    chars.len() > 0 && chars[0] == '-'
}

/// Steps past an option and returns its value.
pub fn option_value(args: &[String], index: &mut usize, option: CliOption) -> (r: Result<
    String,
    CliError,
>)
    requires
        *old(index) < usize::MAX,
    ensures
        *final(index) == *old(index) + 1,
        *final(index) < args.len() ==> (r matches Ok(v) && v@ == args@[*final(index) as int]@),
        *final(index) >= args.len() ==> r == Err::<String, CliError>(CliError::MissingValue(option)),
{
    *index = *index + 1;
    if *index < args.len() {
        Ok(args[*index].clone())
    } else {
        Err(CliError::MissingValue(option))
    }
}

/// `0`–`9`.
pub open spec fn is_digit(c: char) -> bool {
    '0' <= c <= '9'
}

/// The value of a string of decimal digits.
pub open spec fn digits_value(s: Seq<char>) -> nat
    decreases s.len(),
{
    if s.len() == 0 {
        0
    } else {
        digits_value(s.drop_last()) * 10 + (s.last() as nat - 48) as nat
    }
}

/// `s` without a leading `+`.
pub open spec fn unsigned_digits(s: Seq<char>) -> Seq<char> {
    if s.len() > 0 && s[0] == '+' {
        s.drop_first()
    } else {
        s
    }
}

/// Every character is a decimal digit.
pub open spec fn all_digits(d: Seq<char>) -> bool {
    forall|i: int| 0 <= i < d.len() ==> is_digit(#[trigger] d[i])
}

/// What `str::parse` gives for an unsigned integer type whose largest value is `max`: an
/// optional `+` followed by at least one decimal digit, nothing else, and at most `max`.
pub open spec fn spec_parse_unsigned(s: Seq<char>, max: nat) -> Option<nat> {
    let d = unsigned_digits(s);
    if d.len() == 0 || !all_digits(d) || digits_value(d) > max {
        None
    } else {
        Some(digits_value(d))
    }
}

proof fn lemma_digits_prefix(s: Seq<char>, k: int)
    requires
        0 <= k <= s.len(),
        forall|i: int| 0 <= i < s.len() ==> is_digit(#[trigger] s[i]),
    ensures
        digits_value(s.take(k)) <= digits_value(s),
    decreases s.len() - k,
{
    if k < s.len() {
        assert(s.take(k + 1).drop_last() =~= s.take(k));
        lemma_digits_prefix(s, k + 1);
    } else {
        assert(s.take(k) =~= s);
    }
}

/// Parses an unsigned decimal number no larger than `max`.
pub fn parse_unsigned(s: &str, max: u64) -> (r: Option<u64>)
    requires
        max <= u32::MAX,
    ensures
        match spec_parse_unsigned(s@, max as nat) {
            Some(v) => r == Some(v as u64),
            None => r is None,
        },
{
    let chars = chars_of(s);
    let mut i: usize = 0;
    if chars.len() > 0 && chars[0] == '+' {
        i = 1;
    }
    let ghost d = unsigned_digits(s@);
    let start = i;
    assert(d =~= chars@.subrange(start as int, chars@.len() as int));
    if i == chars.len() {
        return None;
    }
    let mut value: u64 = 0;
    while i < chars.len()
        invariant
            start <= i <= chars.len(),
            max <= u32::MAX,
            chars@ == s@,
            d == unsigned_digits(s@),
            d == chars@.subrange(start as int, chars@.len() as int),
            value <= max,
            value == digits_value(d.take(i - start)),
            forall|j: int| 0 <= j < i - start ==> is_digit(#[trigger] d[j]),
        decreases chars.len() - i,
    {
        let c = chars[i];
        assert(c == d[i - start]);
        if !('0' <= c && c <= '9') {
            assert(!is_digit(d[i - start]));
            assert(!all_digits(d));
            return None;
        }
        assert(d.take(i - start + 1).drop_last() =~= d.take(i - start));
        let next = value * 10 + ((c as u8) - 48) as u64;
        assert(next == digits_value(d.take(i - start + 1)));
        if next > max {
            proof {
                if all_digits(d) {
                    lemma_digits_prefix(d, i - start + 1);
                }
            }
            return None;
        }
        value = next;
        i = i + 1;
    }
    assert(d.take(d.len() as int) =~= d);
    Some(value)
}

/// `-o` or `--output`.
pub open spec fn is_output_flag(a: Seq<char>) -> bool {
    a == "-o"@ || a == "--output"@
}

/// Scans the arguments of `extract` and `strip` from `i` on; gives the positions of the input
/// and of the output value.
pub open spec fn io_scan(a: Seq<Seq<char>>, i: int, input: Option<int>, output: Option<int>) -> Result<
    (Option<int>, Option<int>),
    CliError,
>
    decreases a.len() - i,
{
    if i < 0 || i >= a.len() {
        Ok((input, output))
    } else if is_output_flag(a[i]) {
        if i + 1 < a.len() {
            io_scan(a, i + 2, input, Some(i + 1))
        } else {
            Err(CliError::MissingValue(CliOption::Output))
        }
    } else if is_dash(a[i]) {
        Err(CliError::UnknownOption { index: i as usize })
    } else if input is None {
        io_scan(a, i + 1, Some(i), output)
    } else {
        Err(CliError::UnexpectedArgument { index: i as usize })
    }
}

/// Positions of the input and output arguments of `extract` and `strip`, or why there are none.
pub open spec fn spec_parse_io(a: Seq<Seq<char>>, command: CliCommand) -> Result<(int, int), CliError> {
    match io_scan(a, 0, None, None) {
        Err(e) => Err(e),
        Ok((None, _)) => Err(CliError::MissingInput(command)),
        Ok((Some(_), None)) => Err(CliError::MissingOutput(command)),
        Ok((Some(x), Some(y))) => Ok((x, y)),
    }
}

/// Reads `<input> -o <output>` (in any order) for `extract` and `strip`.
pub fn parse_input_output(args: &[String], command: CliCommand) -> (r: Result<
    (String, String),
    CliError,
>)
    ensures
        match spec_parse_io(arg_views(args@), command) {
            Ok((x, y)) => r matches Ok((i, o)) && i@ == args@[x]@ && o@ == args@[y]@,
            Err(e) => r == Err::<(String, String), CliError>(e),
        },
{
    let ghost a = arg_views(args@);
    let mut input: Option<String> = None;
    let mut output: Option<String> = None;
    let ghost mut gin: Option<int> = None;
    let ghost mut gout: Option<int> = None;
    let mut i: usize = 0;
    while i < args.len()
        invariant
            a == arg_views(args@),
            i <= args.len(),
            io_scan(a, 0, None, None) == io_scan(a, i as int, gin, gout),
            input is None <==> gin is None,
            input matches Some(v) ==> (gin matches Some(k) && 0 <= k < args.len() && v@ == a[k]),
            output is None <==> gout is None,
            output matches Some(v) ==> (gout matches Some(k) && 0 <= k < args.len() && v@ == a[k]),
        decreases args.len() - i,
    {
        let arg = args[i].as_str();
        if str_eq(arg, "-o") || str_eq(arg, "--output") {
            let value = option_value(args, &mut i, CliOption::Output)?;
            output = Some(value);
            proof {
                gout = Some(i as int);
            }
        } else if starts_with_dash(arg) {
            return Err(CliError::UnknownOption { index: i });
        } else if input.is_none() {
            input = Some(args[i].clone());
            proof {
                gin = Some(i as int);
            }
        } else {
            return Err(CliError::UnexpectedArgument { index: i });
        }
        i = i + 1;
    }
    match (input, output) {
        (None, _) => Err(CliError::MissingInput(command)),
        (Some(_), None) => Err(CliError::MissingOutput(command)),
        (Some(x), Some(y)) => Ok((x, y)),
    }
}

/// What the arguments of `embed` have set so far; positions point into the arguments.
pub struct EmbedScan {
    pub positional: Seq<int>,
    pub output: Option<int>,
    pub mime: Option<int>,
    pub start_ms: u32,
    pub loop_audio: bool,
}

/// Scans the arguments of `embed` from `i` on.
pub open spec fn embed_scan(a: Seq<Seq<char>>, i: int, st: EmbedScan) -> Result<EmbedScan, CliError>
    decreases a.len() - i,
{
    if i < 0 || i >= a.len() {
        Ok(st)
    } else if is_output_flag(a[i]) {
        if i + 1 < a.len() {
            embed_scan(a, i + 2, EmbedScan { output: Some(i + 1), ..st })
        } else {
            Err(CliError::MissingValue(CliOption::Output))
        }
    } else if a[i] == "--mime"@ {
        if i + 1 < a.len() {
            embed_scan(a, i + 2, EmbedScan { mime: Some(i + 1), ..st })
        } else {
            Err(CliError::MissingValue(CliOption::Mime))
        }
    } else if a[i] == "--start-ms"@ {
        if i + 1 < a.len() {
            match spec_parse_unsigned(a[i + 1], u32::MAX as nat) {
                Some(v) => embed_scan(a, i + 2, EmbedScan { start_ms: v as u32, ..st }),
                None => Err(
                    CliError::InvalidNumber { option: CliOption::StartMs, index: (i + 1) as usize },
                ),
            }
        } else {
            Err(CliError::MissingValue(CliOption::StartMs))
        }
    } else if a[i] == "--no-loop"@ {
        embed_scan(a, i + 1, EmbedScan { loop_audio: false, ..st })
    } else if is_dash(a[i]) {
        Err(CliError::UnknownOption { index: i as usize })
    } else {
        embed_scan(a, i + 1, EmbedScan { positional: st.positional.push(i), ..st })
    }
}

/// What the arguments of `embed` ask for, or why they are refused.
pub open spec fn spec_parse_embed(a: Seq<Seq<char>>) -> Result<EmbedScan, CliError> {
    match embed_scan(
        a,
        0,
        EmbedScan {
            positional: Seq::empty(),
            output: None,
            mime: None,
            start_ms: 0,
            loop_audio: true,
        },
    ) {
        Err(e) => Err(e),
        Ok(st) => if st.positional.len() != 2 {
            Err(CliError::EmbedArity)
        } else if st.output is None {
            Err(CliError::MissingOutput(CliCommand::Embed))
        } else {
            Ok(st)
        },
    }
}

/// The request of an `embed` command line.
#[derive(Debug)]
pub struct EmbedArgs {
    pub gif: String,
    pub audio: String,
    pub output: String,
    pub mime_override: Option<String>,
    pub start_ms: u32,
    pub loop_audio: bool,
}

/// `v` is the argument at position `k`, or both are absent.
pub open spec fn opt_arg(a: Seq<Seq<char>>, k: Option<int>, v: Option<String>) -> bool {
    match k {
        Some(k) => v matches Some(s) && 0 <= k < a.len() && s@ == a[k],
        None => v is None,
    }
}

/// Reads `<input.gif> <audio> -o <output> [--mime T] [--start-ms N] [--no-loop]`.
pub fn parse_embed_args(args: &[String]) -> (r: Result<EmbedArgs, CliError>)
    ensures
        match spec_parse_embed(arg_views(args@)) {
            Ok(st) => r matches Ok(e) && e.gif@ == arg_views(args@)[st.positional[0]]
                && e.audio@ == arg_views(args@)[st.positional[1]] && opt_arg(
                arg_views(args@),
                st.output,
                Some(e.output),
            ) && opt_arg(arg_views(args@), st.mime, e.mime_override) && e.start_ms
                == st.start_ms && e.loop_audio == st.loop_audio,
            Err(err) => r == Err::<EmbedArgs, CliError>(err),
        },
{
    let ghost a = arg_views(args@);
    let ghost init = EmbedScan {
        positional: Seq::empty(),
        output: None,
        mime: None,
        start_ms: 0,
        loop_audio: true,
    };
    let mut positional: Vec<String> = Vec::new();
    let mut output: Option<String> = None;
    let mut mime_override: Option<String> = None;
    let mut start_ms: u32 = 0;
    let mut loop_audio = true;
    let ghost mut st = init;
    let mut i: usize = 0;
    while i < args.len()
        invariant
            a == arg_views(args@),
            i <= args.len(),
            init == (EmbedScan {
                positional: Seq::empty(),
                output: None,
                mime: None,
                start_ms: 0,
                loop_audio: true,
            }),
            embed_scan(a, 0, init) == embed_scan(a, i as int, st),
            positional@.len() == st.positional.len(),
            forall|j: int|
                0 <= j < positional@.len() ==> 0 <= #[trigger] st.positional[j] < a.len()
                    && positional@[j]@ == a[st.positional[j]],
            opt_arg(a, st.output, output),
            opt_arg(a, st.mime, mime_override),
            start_ms == st.start_ms,
            loop_audio == st.loop_audio,
        decreases args.len() - i,
    {
        let arg = args[i].as_str();
        assert(arg@ == a[i as int]);
        if str_eq(arg, "-o") || str_eq(arg, "--output") {
            assert(is_output_flag(a[i as int]));
            let value = option_value(args, &mut i, CliOption::Output)?;
            output = Some(value);
            proof {
                st = EmbedScan { output: Some(i as int), ..st };
            }
        } else if str_eq(arg, "--mime") {
            let value = option_value(args, &mut i, CliOption::Mime)?;
            mime_override = Some(value);
            proof {
                st = EmbedScan { mime: Some(i as int), ..st };
            }
        } else if str_eq(arg, "--start-ms") {
            let value = option_value(args, &mut i, CliOption::StartMs)?;
            match parse_unsigned(value.as_str(), u32::MAX as u64) {
                Some(v) => {
                    start_ms = v as u32;
                    proof {
                        st = EmbedScan { start_ms: v as u32, ..st };
                    }
                },
                None => {
                    return Err(CliError::InvalidNumber { option: CliOption::StartMs, index: i });
                },
            }
        } else if str_eq(arg, "--no-loop") {
            loop_audio = false;
            proof {
                st = EmbedScan { loop_audio: false, ..st };
            }
        } else if starts_with_dash(arg) {
            assert(!is_output_flag(a[i as int]) && a[i as int] != "--mime"@ && a[i as int]
                != "--start-ms"@ && a[i as int] != "--no-loop"@ && is_dash(a[i as int]));
            return Err(CliError::UnknownOption { index: i });
        } else {
            positional.push(args[i].clone());
            proof {
                st = EmbedScan { positional: st.positional.push(i as int), ..st };
            }
        }
        i = i + 1;
    }
    if positional.len() != 2 {
        return Err(CliError::EmbedArity);
    }
    let output = match output {
        Some(o) => o,
        None => return Err(CliError::MissingOutput(CliCommand::Embed)),
    };
    let audio = positional.pop().unwrap();
    let gif = positional.pop().unwrap();
    Ok(EmbedArgs { gif, audio, output, mime_override, start_ms, loop_audio })
}

/// What the arguments of `from-video` have set so far; positions point into the arguments.
pub struct ConvertScan {
    pub input: Option<int>,
    pub output: Option<int>,
    pub ffmpeg: Option<int>,
    pub fps: u32,
    pub width: u32,
    pub colors: u16,
    pub bitrate: Option<int>,
}

/// Scans the arguments of `from-video` from `i` on.
pub open spec fn convert_scan(a: Seq<Seq<char>>, i: int, st: ConvertScan) -> Result<ConvertScan, CliError>
    decreases a.len() - i,
{
    if i < 0 || i >= a.len() {
        Ok(st)
    } else if is_output_flag(a[i]) {
        if i + 1 < a.len() {
            convert_scan(a, i + 2, ConvertScan { output: Some(i + 1), ..st })
        } else {
            Err(CliError::MissingValue(CliOption::Output))
        }
    } else if a[i] == "--ffmpeg"@ {
        if i + 1 < a.len() {
            convert_scan(a, i + 2, ConvertScan { ffmpeg: Some(i + 1), ..st })
        } else {
            Err(CliError::MissingValue(CliOption::Ffmpeg))
        }
    } else if a[i] == "--fps"@ {
        if i + 1 < a.len() {
            match spec_parse_unsigned(a[i + 1], u32::MAX as nat) {
                Some(v) => convert_scan(a, i + 2, ConvertScan { fps: v as u32, ..st }),
                None => Err(
                    CliError::InvalidNumber { option: CliOption::Fps, index: (i + 1) as usize },
                ),
            }
        } else {
            Err(CliError::MissingValue(CliOption::Fps))
        }
    } else if a[i] == "--width"@ {
        if i + 1 < a.len() {
            match spec_parse_unsigned(a[i + 1], u32::MAX as nat) {
                Some(v) => convert_scan(a, i + 2, ConvertScan { width: v as u32, ..st }),
                None => Err(
                    CliError::InvalidNumber { option: CliOption::Width, index: (i + 1) as usize },
                ),
            }
        } else {
            Err(CliError::MissingValue(CliOption::Width))
        }
    } else if a[i] == "--colors"@ {
        if i + 1 < a.len() {
            match spec_parse_unsigned(a[i + 1], u16::MAX as nat) {
                Some(v) => convert_scan(a, i + 2, ConvertScan { colors: v as u16, ..st }),
                None => Err(
                    CliError::InvalidNumber { option: CliOption::Colors, index: (i + 1) as usize },
                ),
            }
        } else {
            Err(CliError::MissingValue(CliOption::Colors))
        }
    } else if a[i] == "--audio-bitrate"@ {
        if i + 1 < a.len() {
            convert_scan(a, i + 2, ConvertScan { bitrate: Some(i + 1), ..st })
        } else {
            Err(CliError::MissingValue(CliOption::AudioBitrate))
        }
    } else if is_dash(a[i]) {
        Err(CliError::UnknownOption { index: i as usize })
    } else if st.input is None {
        convert_scan(a, i + 1, ConvertScan { input: Some(i), ..st })
    } else {
        Err(CliError::UnexpectedArgument { index: i as usize })
    }
}

/// What the arguments of `from-video` ask for, or why they are refused. Options left out keep
/// the defaults of `ConversionOptions`.
pub open spec fn spec_parse_convert(a: Seq<Seq<char>>) -> Result<ConvertScan, CliError> {
    match convert_scan(
        a,
        0,
        ConvertScan {
            input: None,
            output: None,
            ffmpeg: None,
            fps: 15,
            width: 640,
            colors: 128,
            bitrate: None,
        },
    ) {
        Err(e) => Err(e),
        Ok(st) => if st.input is None {
            Err(CliError::MissingInput(CliCommand::FromVideo))
        } else if st.output is None {
            Err(CliError::MissingOutput(CliCommand::FromVideo))
        } else {
            Ok(st)
        },
    }
}

/// The request of a `from-video` command line.
#[derive(Debug)]
pub struct ConvertArgs {
    pub input: String,
    pub output: String,
    pub ffmpeg: Option<String>,
    pub fps: u32,
    pub width: u32,
    pub palette_colors: u16,
    pub audio_bitrate: String,
}

/// Reads `<input-video> -o <output.gif>` and the video options.
pub fn parse_convert_args(args: &[String]) -> (r: Result<ConvertArgs, CliError>)
    ensures
        match spec_parse_convert(arg_views(args@)) {
            Ok(st) => r matches Ok(c) && opt_arg(arg_views(args@), st.input, Some(c.input)) && opt_arg(
                arg_views(args@),
                st.output,
                Some(c.output),
            ) && opt_arg(arg_views(args@), st.ffmpeg, c.ffmpeg) && c.fps == st.fps && c.width
                == st.width && c.palette_colors == st.colors && match st.bitrate {
                Some(k) => c.audio_bitrate@ == arg_views(args@)[k],
                None => c.audio_bitrate@ == "64k"@,
            },
            Err(err) => r == Err::<ConvertArgs, CliError>(err),
        },
{
    let ghost a = arg_views(args@);
    let ghost init = ConvertScan {
        input: None,
        output: None,
        ffmpeg: None,
        fps: 15,
        width: 640,
        colors: 128,
        bitrate: None,
    };
    let mut input: Option<String> = None;
    let mut output: Option<String> = None;
    let mut ffmpeg: Option<String> = None;
    let mut fps: u32 = 15;
    let mut width: u32 = 640;
    let mut palette_colors: u16 = 128;
    let mut bitrate: Option<String> = None;
    let ghost mut st = init;
    let mut i: usize = 0;
    while i < args.len()
        invariant
            a == arg_views(args@),
            i <= args.len(),
            init == (ConvertScan {
                input: None,
                output: None,
                ffmpeg: None,
                fps: 15,
                width: 640,
                colors: 128,
                bitrate: None,
            }),
            convert_scan(a, 0, init) == convert_scan(a, i as int, st),
            opt_arg(a, st.input, input),
            opt_arg(a, st.output, output),
            opt_arg(a, st.ffmpeg, ffmpeg),
            opt_arg(a, st.bitrate, bitrate),
            fps == st.fps,
            width == st.width,
            palette_colors == st.colors,
        decreases args.len() - i,
    {
        let arg = args[i].as_str();
        assert(arg@ == a[i as int]);
        if str_eq(arg, "-o") || str_eq(arg, "--output") {
            assert(is_output_flag(a[i as int]));
            let value = option_value(args, &mut i, CliOption::Output)?;
            output = Some(value);
            proof {
                st = ConvertScan { output: Some(i as int), ..st };
            }
        } else if str_eq(arg, "--ffmpeg") {
            let value = option_value(args, &mut i, CliOption::Ffmpeg)?;
            ffmpeg = Some(value);
            proof {
                st = ConvertScan { ffmpeg: Some(i as int), ..st };
            }
        } else if str_eq(arg, "--fps") {
            let value = option_value(args, &mut i, CliOption::Fps)?;
            match parse_unsigned(value.as_str(), u32::MAX as u64) {
                Some(v) => {
                    fps = v as u32;
                    proof {
                        st = ConvertScan { fps: v as u32, ..st };
                    }
                },
                None => {
                    return Err(CliError::InvalidNumber { option: CliOption::Fps, index: i });
                },
            }
        } else if str_eq(arg, "--width") {
            let value = option_value(args, &mut i, CliOption::Width)?;
            match parse_unsigned(value.as_str(), u32::MAX as u64) {
                Some(v) => {
                    width = v as u32;
                    proof {
                        st = ConvertScan { width: v as u32, ..st };
                    }
                },
                None => {
                    return Err(CliError::InvalidNumber { option: CliOption::Width, index: i });
                },
            }
        } else if str_eq(arg, "--colors") {
            let value = option_value(args, &mut i, CliOption::Colors)?;
            match parse_unsigned(value.as_str(), u16::MAX as u64) {
                Some(v) => {
                    palette_colors = v as u16;
                    proof {
                        st = ConvertScan { colors: v as u16, ..st };
                    }
                },
                None => {
                    return Err(CliError::InvalidNumber { option: CliOption::Colors, index: i });
                },
            }
        } else if str_eq(arg, "--audio-bitrate") {
            let value = option_value(args, &mut i, CliOption::AudioBitrate)?;
            bitrate = Some(value);
            proof {
                st = ConvertScan { bitrate: Some(i as int), ..st };
            }
        } else if starts_with_dash(arg) {
            assert(!is_output_flag(a[i as int]) && a[i as int] != "--ffmpeg"@ && a[i as int]
                != "--fps"@ && a[i as int] != "--width"@ && a[i as int] != "--colors"@ && a[i as int]
                != "--audio-bitrate"@ && is_dash(a[i as int]));
            return Err(CliError::UnknownOption { index: i });
        } else if input.is_none() {
            input = Some(args[i].clone());
            proof {
                st = ConvertScan { input: Some(i as int), ..st };
            }
        } else {
            return Err(CliError::UnexpectedArgument { index: i });
        }
        i = i + 1;
    }
    let input = match input {
        Some(x) => x,
        None => return Err(CliError::MissingInput(CliCommand::FromVideo)),
    };
    let output = match output {
        Some(x) => x,
        None => return Err(CliError::MissingOutput(CliCommand::FromVideo)),
    };
    let audio_bitrate = match bitrate {
        Some(b) => b,
        None => "64k".to_owned(),
    };
    Ok(ConvertArgs { input, output, ffmpeg, fps, width, palette_colors, audio_bitrate })
}

/// `inspect` takes exactly one GIF.
pub fn parse_inspect_args(args: &[String]) -> (r: Result<String, CliError>)
    ensures
        args.len() == 1 ==> (r matches Ok(v) && v@ == args@[0]@),
        args.len() != 1 ==> r == Err::<String, CliError>(CliError::InspectArity),
{
    if args.len() != 1 {
        return Err(CliError::InspectArity);
    }
    Ok(args[0].clone())
}

/// `ui` takes no arguments.
pub fn parse_ui_args(args: &[String]) -> (r: Result<(), CliError>)
    ensures
        args.len() == 0 ==> r is Ok,
        args.len() != 0 ==> r == Err::<(), CliError>(CliError::UiArguments),
{
    if args.len() != 0 {
        return Err(CliError::UiArguments);
    }
    Ok(())
}

/// The name an option is written with, after `--`.
pub open spec fn option_text(o: CliOption) -> Seq<char> {
    match o {
        CliOption::Output => "output"@,
        CliOption::Mime => "mime"@,
        CliOption::StartMs => "start-ms"@,
        CliOption::Ffmpeg => "ffmpeg"@,
        CliOption::Fps => "fps"@,
        CliOption::Width => "width"@,
        CliOption::Colors => "colors"@,
        CliOption::AudioBitrate => "audio-bitrate"@,
    }
}

impl CliOption {
    /// The name this option is written with, after `--`.
    pub fn name(&self) -> (r: &'static str)
        ensures
            r@ == option_text(*self),
    {
        match self {
            CliOption::Output => "output",
            CliOption::Mime => "mime",
            CliOption::StartMs => "start-ms",
            CliOption::Ffmpeg => "ffmpeg",
            CliOption::Fps => "fps",
            CliOption::Width => "width",
            CliOption::Colors => "colors",
            CliOption::AudioBitrate => "audio-bitrate",
        }
    }
}

/// The canonical name of a command.
pub open spec fn command_text(c: CliCommand) -> Seq<char> {
    match c {
        CliCommand::Embed => "embed"@,
        CliCommand::Extract => "extract"@,
        CliCommand::Inspect => "inspect"@,
        CliCommand::Strip => "strip"@,
        CliCommand::FromVideo => "from-video"@,
        CliCommand::Ui => "ui"@,
        CliCommand::Help => "help"@,
        CliCommand::Version => "version"@,
        CliCommand::Unknown => "soundgif"@,
    }
}

impl CliCommand {
    /// The canonical name of this command.
    pub fn name(&self) -> (r: &'static str)
        ensures
            r@ == command_text(*self),
    {
        match self {
            CliCommand::Embed => "embed",
            CliCommand::Extract => "extract",
            CliCommand::Inspect => "inspect",
            CliCommand::Strip => "strip",
            CliCommand::FromVideo => "from-video",
            CliCommand::Ui => "ui",
            CliCommand::Help => "help",
            CliCommand::Version => "version",
            CliCommand::Unknown => "soundgif",
        }
    }
}

/// Whether the positions an error names lie among the arguments.
pub open spec fn error_in_args(e: CliError, len: nat) -> bool {
    match e {
        CliError::InvalidNumber { index, .. } => index < len,
        CliError::UnknownOption { index } => index < len,
        CliError::UnexpectedArgument { index } => index < len,
        _ => true,
    }
}

/// The message shown for a refused command line `a`.
pub open spec fn cli_error_text(e: CliError, a: Seq<Seq<char>>) -> Seq<char> {
    match e {
        CliError::MissingValue(o) => "--"@ + option_text(o) + " requires a value"@,
        CliError::InvalidNumber { option, index } => "invalid --"@ + option_text(option)
            + " value '"@ + a[index as int] + "'"@,
        CliError::UnknownOption { index } => "unknown option '"@ + a[index as int] + "'"@,
        CliError::UnexpectedArgument { index } => "unexpected argument '"@ + a[index as int] + "'"@,
        CliError::MissingInput(c) => command_text(c) + (if c == CliCommand::FromVideo {
            " requires <input-video>"@
        } else {
            " requires <input.gif>"@
        }),
        CliError::MissingOutput(c) => command_text(c) + (if c == CliCommand::Embed || c
            == CliCommand::FromVideo {
            " requires -o <output.gif>"@
        } else {
            " requires -o <output>"@
        }),
        CliError::EmbedArity => "embed requires <input.gif> and <audio>"@,
        CliError::InspectArity => "inspect requires exactly one <input.gif>"@,
        CliError::UiArguments => "ui does not accept any options"@,
    }
}

impl CliError {
    /// The message shown for this error, given the arguments it was found in.
    pub fn message(&self, args: &[String]) -> (r: String)
        requires
            error_in_args(*self, args@.len()),
        ensures
            r@ == cli_error_text(*self, arg_views(args@)),
    {
        let mut out: Vec<char> = Vec::new();
        match *self {
            CliError::MissingValue(o) => {
                push_str(&mut out, "--");
                push_str(&mut out, o.name());
                push_str(&mut out, " requires a value");
            },
            CliError::InvalidNumber { option, index } => {
                push_str(&mut out, "invalid --");
                push_str(&mut out, option.name());
                push_str(&mut out, " value '");
                push_str(&mut out, args[index].as_str());
                push_str(&mut out, "'");
            },
            CliError::UnknownOption { index } => {
                push_str(&mut out, "unknown option '");
                push_str(&mut out, args[index].as_str());
                push_str(&mut out, "'");
            },
            CliError::UnexpectedArgument { index } => {
                push_str(&mut out, "unexpected argument '");
                push_str(&mut out, args[index].as_str());
                push_str(&mut out, "'");
            },
            CliError::MissingInput(c) => {
                push_str(&mut out, c.name());
                if c == CliCommand::FromVideo {
                    push_str(&mut out, " requires <input-video>");
                } else {
                    push_str(&mut out, " requires <input.gif>");
                }
            },
            CliError::MissingOutput(c) => {
                push_str(&mut out, c.name());
                if c == CliCommand::Embed || c == CliCommand::FromVideo {
                    push_str(&mut out, " requires -o <output.gif>");
                } else {
                    push_str(&mut out, " requires -o <output>");
                }
            },
            CliError::EmbedArity => push_str(&mut out, "embed requires <input.gif> and <audio>"),
            CliError::InspectArity => push_str(&mut out, "inspect requires exactly one <input.gif>"),
            CliError::UiArguments => push_str(&mut out, "ui does not accept any options"),
        }
        string_from_chars(out)
    }
}

} // verus!
