//! Reading a tool's arguments: which text names the input files and which
//! the output directory.
//!
//! An argument is a flag, `-i` or `--outdir` say, in any mix of upper and
//! lower case. Its value follows an equals sign in the same argument or,
//! where there is none, is the next argument as it stands. Arguments that
//! do not name the input are refused before any work begins.

use crate::text::{
    ascii_lowercase, chars_equal, from_chars, law_split, lowercase_chars, rows, split,
    split_chars, strip_quotes, texts, to_chars, without_quotes,
};
use vstd::prelude::*;

verus! {

/// Why the arguments name no work.
#[derive(Debug, Clone, Copy, PartialEq, Eq, Structural)]
pub enum ArgumentError {
    /// The tool was run without arguments.
    NoParameters,
    /// The last argument is a flag whose value is missing.
    MissingValue,
    /// No argument names the input files.
    MissingInput,
}

/// The two texts that the arguments give.
#[derive(Debug, Clone, PartialEq, Eq)]
pub struct Request {
    /// The delimited list of input files, as the last input flag gives it.
    pub input_files: String,
    /// The output directory; empty where no argument names it.
    pub output_directory: String,
}

/// What a [`Request`] stands for.
pub struct RequestModel {
    pub input_files: Seq<char>,
    pub output_directory: Seq<char>,
}

impl View for Request {
    type V = RequestModel;

    open spec fn view(&self) -> RequestModel {
        RequestModel {
            input_files: self.input_files@,
            output_directory: self.output_directory@,
        }
    }
}

/// `s` with every pair of dashes, taken from the left, replaced by one dash.
pub open spec fn collapse_dashes(s: Seq<char>) -> Seq<char>
    decreases s.len(),
{
    if s.len() >= 2 && s[0] == '-' && s[1] == '-' {
        seq!['-'] + collapse_dashes(s.skip(2))
    } else if s.len() >= 1 {
        seq![s[0]] + collapse_dashes(s.skip(1))
    } else {
        s
    }
}

/// The parts of an argument: the argument without quote characters, cut at
/// its equals signs.
pub open spec fn argument_parts(argument: Seq<char>) -> Seq<Seq<char>> {
    split(without_quotes(argument), '=')
}

/// The flag that an argument names: its first part in lower case, with
/// double dashes collapsed.
pub open spec fn flag_of(argument: Seq<char>) -> Seq<char> {
    collapse_dashes(ascii_lowercase(argument_parts(argument)[0]))
}

/// Whether `flag` names the input files.
pub open spec fn is_input_flag(flag: Seq<char>) -> bool {
    flag == "-i"@ || flag == "-inputs"@ || flag == "-input"@
}

/// Whether `flag` names the output directory.
pub open spec fn is_directory_flag(flag: Seq<char>) -> bool {
    flag == "-outdir"@
}

/// The value of the flag in argument `i`: the second part of that argument
/// where it has one, else the argument after it, if there is one.
pub open spec fn value_at(arguments: Seq<Seq<char>>, i: int) -> Option<Seq<char>>
    recommends
        0 <= i < arguments.len(),
{
    let parts = argument_parts(arguments[i]);
    if parts.len() > 1 {
        Some(parts[1])
    } else if i + 1 < arguments.len() {
        Some(arguments[i + 1])
    } else {
        None
    }
}

/// The request after argument `i` is read into `request`. An argument that
/// names neither flag changes nothing.
pub open spec fn read_argument(
    request: RequestModel,
    arguments: Seq<Seq<char>>,
    i: int,
) -> Result<RequestModel, ArgumentError>
    recommends
        0 <= i < arguments.len(),
{
    let flag = flag_of(arguments[i]);
    if is_input_flag(flag) {
        match value_at(arguments, i) {
            Some(value) => Ok(
                RequestModel { input_files: value, output_directory: request.output_directory },
            ),
            None => Err(ArgumentError::MissingValue),
        }
    } else if is_directory_flag(flag) {
        match value_at(arguments, i) {
            Some(value) => Ok(
                RequestModel { input_files: request.input_files, output_directory: value },
            ),
            None => Err(ArgumentError::MissingValue),
        }
    } else {
        Ok(request)
    }
}

/// The request after the first `k` arguments are read in order: a later
/// flag replaces what an earlier one gave.
pub open spec fn read_arguments(arguments: Seq<Seq<char>>, k: nat) -> Result<
    RequestModel,
    ArgumentError,
>
    recommends
        k <= arguments.len(),
    decreases k,
{
    if k == 0 {
        Ok(RequestModel { input_files: Seq::empty(), output_directory: Seq::empty() })
    } else {
        match read_arguments(arguments, (k - 1) as nat) {
            Ok(request) => read_argument(request, arguments, k - 1),
            Err(error) => Err(error),
        }
    }
}

/// Whether one of the first `k` arguments names the input files.
pub open spec fn input_named(arguments: Seq<Seq<char>>, k: nat) -> bool {
    exists|i: int| 0 <= i < k && i < arguments.len() && is_input_flag(flag_of(#[trigger] arguments[i]))
}

/// What the arguments ask for.
///
/// Running the tool without arguments is an error, and so is a flag without
/// a value. Arguments that read well but do not name the input files are an
/// error too: there is nothing to convert.
pub open spec fn requested(arguments: Seq<Seq<char>>) -> Result<RequestModel, ArgumentError> {
    if arguments.len() == 0 {
        Err(ArgumentError::NoParameters)
    } else {
        match read_arguments(arguments, arguments.len()) {
            Ok(request) => if input_named(arguments, arguments.len()) {
                Ok(request)
            } else {
                Err(ArgumentError::MissingInput)
            },
            Err(error) => Err(error),
        }
    }
}

/// The message of an argument error.
pub open spec fn argument_error_text(error: ArgumentError) -> Seq<char> {
    match error {
        ArgumentError::NoParameters => "Tool run with no parameters."@,
        ArgumentError::MissingValue => "Flag given without a value."@,
        ArgumentError::MissingInput => "No input files were named."@,
    }
}

impl ArgumentError {
    /// The message of this error.
    pub fn message(&self) -> (text: String)
        ensures
            text@ == argument_error_text(*self),
    {
        match self {
            ArgumentError::NoParameters => String::from_str("Tool run with no parameters."),
            ArgumentError::MissingValue => String::from_str("Flag given without a value."),
            ArgumentError::MissingInput => String::from_str("No input files were named."),
        }
    }
}

/// Copies `s` with every pair of dashes, taken from the left, replaced by
/// one dash.
pub fn collapse_dashes_in(s: &Vec<char>) -> (out: Vec<char>)
    ensures
        out@ == collapse_dashes(s@),
{
    let mut out: Vec<char> = Vec::new();
    let mut i: usize = 0;
    let n = s.len();
    assert(s@.skip(0) == s@);
    while i < n
        invariant
            i <= n == s.len(),
            collapse_dashes(s@) == out@ + collapse_dashes(s@.skip(i as int)),
        decreases n - i,
    {
        let ghost rest = s@.skip(i as int);
        if s[i] == '-' && n - i >= 2 && s[i + 1] == '-' {
            assert(rest.skip(2) == s@.skip(i + 2));
            out.push('-');
            i += 2;
        } else {
            assert(rest.skip(1) == s@.skip(i + 1));
            out.push(s[i]);
            i += 1;
        }
        assert(collapse_dashes(s@) == out@ + collapse_dashes(s@.skip(i as int)));
    }
    assert(out@ + Seq::<char>::empty() == out@);
    out
}

/// Which flag an argument names, as far as the tool knows it.
#[derive(Debug, Clone, Copy, PartialEq, Eq, Structural)]
pub enum Flag {
    InputFiles,
    OutputDirectory,
    Other,
}

/// Tells which flag the text of a flag names.
pub fn classify_flag(flag: &Vec<char>) -> (kind: Flag)
    ensures
        kind == Flag::InputFiles <==> is_input_flag(flag@),
        kind == Flag::OutputDirectory <==> is_directory_flag(flag@),
{
    proof {
        reveal_strlit("-i");
        reveal_strlit("-inputs");
        reveal_strlit("-input");
        reveal_strlit("-outdir");
    }
    if chars_equal(flag, &to_chars("-i")) || chars_equal(flag, &to_chars("-inputs"))
        || chars_equal(flag, &to_chars("-input")) {
        assert(flag@ != "-outdir"@) by {
            assert("-outdir"@.len() == 7 && "-outdir"@[1] == 'o');
            assert("-i"@.len() == 2);
            assert("-input"@.len() == 6);
            assert("-inputs"@[1] == 'i');
        }
        Flag::InputFiles
    } else if chars_equal(flag, &to_chars("-outdir")) {
        Flag::OutputDirectory
    } else {
        Flag::Other
    }
}

/// The flag that argument `i` names, and the value that goes with it.
fn flag_and_value(arguments: &Vec<String>, i: usize) -> (found: (Vec<char>, Option<String>))
    requires
        i < arguments.len(),
    ensures
        found.0@ == flag_of(texts(arguments@)[i as int]),
        match found.1 {
            Some(value) => value_at(texts(arguments@), i as int) == Some(value@),
            None => value_at(texts(arguments@), i as int) is None,
        },
{
    let ghost all = texts(arguments@);
    let chars = to_chars(arguments[i].as_str());
    let bare = strip_quotes(&chars);
    let parts = split_chars(&bare, '=');
    proof {
        law_split(bare@, '=');
        assert(all[i as int] == arguments@[i as int]@);
        assert(rows(parts@) == argument_parts(all[i as int]));
        assert(rows(parts@)[0] == parts@[0]@);
    }
    let lowered = lowercase_chars(&parts[0]);
    let flag = collapse_dashes_in(&lowered);
    let value = if parts.len() > 1 {
        assert(rows(parts@)[1] == parts@[1]@);
        Some(from_chars(&parts[1]))
    } else if arguments.len() - i > 1 {
        assert(all[i + 1] == arguments@[i + 1]@);
        Some(arguments[i + 1].clone())
    } else {
        None
    };
    (flag, value)
}

/// Reads the arguments of one run of the converter.
pub fn read_request(arguments: &Vec<String>) -> (request: Result<Request, ArgumentError>)
    ensures
        match request {
            Ok(r) => requested(texts(arguments@)) == Ok::<RequestModel, ArgumentError>(r@),
            Err(e) => requested(texts(arguments@)) == Err::<RequestModel, ArgumentError>(e),
        },
{
    let n = arguments.len();
    if n == 0 {
        return Err(ArgumentError::NoParameters);
    }
    let ghost all = texts(arguments@);
    let mut request = Request { input_files: String::new(), output_directory: String::new() };
    let mut named = false;
    let mut i: usize = 0;
    while i < n
        invariant
            i <= n == arguments.len(),
            all == texts(arguments@),
            read_arguments(all, i as nat) == Ok::<RequestModel, ArgumentError>(request@),
            named == input_named(all, i as nat),
        decreases n - i,
    {
        let (flag, value) = flag_and_value(arguments, i);
        match classify_flag(&flag) {
            Flag::Other => {},
            Flag::InputFiles => {
                match value {
                    Some(text) => {
                        request.input_files = text;
                        named = true;
                    },
                    None => {
                        return Err(ArgumentError::MissingValue);
                    },
                }
            },
            Flag::OutputDirectory => {
                match value {
                    Some(text) => {
                        request.output_directory = text;
                    },
                    None => {
                        return Err(ArgumentError::MissingValue);
                    },
                }
            },
        }
        i += 1;
    }
    if named {
        Ok(request)
    } else {
        Err(ArgumentError::MissingInput)
    }
}

/// Whether `flag` names the one input file of a tool that takes one.
pub open spec fn is_file_flag(flag: Seq<char>) -> bool {
    flag == "-i"@ || flag == "-input"@
}

/// The input file after argument `i` is read: its value where it names the
/// input file, else the file named before.
pub open spec fn read_file_argument(file: Option<Seq<char>>, arguments: Seq<Seq<char>>, i: int) -> Result<
    Option<Seq<char>>,
    ArgumentError,
>
    recommends
        0 <= i < arguments.len(),
{
    if is_file_flag(flag_of(arguments[i])) {
        match value_at(arguments, i) {
            Some(value) => Ok(Some(value)),
            None => Err(ArgumentError::MissingValue),
        }
    } else {
        Ok(file)
    }
}

/// The input file after the first `k` arguments are read in order.
pub open spec fn read_file_arguments(arguments: Seq<Seq<char>>, k: nat) -> Result<
    Option<Seq<char>>,
    ArgumentError,
>
    recommends
        k <= arguments.len(),
    decreases k,
{
    if k == 0 {
        Ok(None)
    } else {
        match read_file_arguments(arguments, (k - 1) as nat) {
            Ok(file) => read_file_argument(file, arguments, k - 1),
            Err(error) => Err(error),
        }
    }
}

/// The input file that the arguments of a one-file tool name. Running the
/// tool without arguments is an error, and so are a flag without a value
/// and arguments that name no input file.
pub open spec fn requested_file(arguments: Seq<Seq<char>>) -> Result<Seq<char>, ArgumentError> {
    if arguments.len() == 0 {
        Err(ArgumentError::NoParameters)
    } else {
        match read_file_arguments(arguments, arguments.len()) {
            Ok(Some(file)) => Ok(file),
            Ok(None) => Err(ArgumentError::MissingInput),
            Err(error) => Err(error),
        }
    }
}

/// Reads the arguments of one run of a tool that takes one input file.
pub fn read_input_file(arguments: &Vec<String>) -> (file: Result<String, ArgumentError>)
    ensures
        match file {
            Ok(f) => requested_file(texts(arguments@)) == Ok::<Seq<char>, ArgumentError>(f@),
            Err(e) => requested_file(texts(arguments@)) == Err::<Seq<char>, ArgumentError>(e),
        },
{
    let n = arguments.len();
    if n == 0 {
        return Err(ArgumentError::NoParameters);
    }
    let ghost all = texts(arguments@);
    let mut file: Option<String> = None;
    let mut i: usize = 0;
    while i < n
        invariant
            i <= n == arguments.len(),
            all == texts(arguments@),
            read_file_arguments(all, i as nat) == Ok::<Option<Seq<char>>, ArgumentError>(
                match file {
                    Some(f) => Some(f@),
                    None => None,
                },
            ),
        decreases n - i,
    {
        let (flag, value) = flag_and_value(arguments, i);
        proof {
            reveal_strlit("-i");
            reveal_strlit("-input");
        }
        if chars_equal(&flag, &to_chars("-i")) || chars_equal(&flag, &to_chars("-input")) {
            match value {
                Some(text) => {
                    file = Some(text);
                },
                None => {
                    return Err(ArgumentError::MissingValue);
                },
            }
        }
        i += 1;
    }
    match file {
        Some(f) => Ok(f),
        None => Err(ArgumentError::MissingInput),
    }
}

} // verus!
