//! The tools as the toolbox sees them: their names, their parameters, the
//! usage lines shown to the user and the banners that verbose runs open
//! with.

use crate::descriptor::{
    parameter_models, parameters_document, render_parameters, ParameterFileType, ParameterModel,
    ParameterType, ToolParameter, VectorGeometryType,
};
use crate::text::{
    contains_text, find_text, from_chars, push_chars, push_str, remove_all, remove_char,
    remove_char_in, remove_text, replace_char, replace_char_in, texts, to_chars,
};
use vstd::prelude::*;

verus! {

/// The name of the tool.
pub open spec fn tool_name() -> Seq<char> {
    "ZlidarToLas"@
}

/// The toolbox that the tool belongs to.
pub open spec fn toolbox_name() -> Seq<char> {
    "LiDAR Tools"@
}

/// What the tool does, in one sentence.
pub open spec fn tool_description() -> Seq<char> {
    "Converts one or more zlidar files into the LAS data format."@
}

/// The two parameters of the tool: the input files and the output
/// directory.
pub open spec fn tool_parameters() -> Seq<ParameterModel> {
    seq![
        ParameterModel {
            name: "Input ZLidar Files"@,
            flags: seq!["-i"@, "--inputs"@],
            description: "Input ZLidar files."@,
            parameter_type: ParameterType::FileList(ParameterFileType::Lidar),
            default_value: None,
            optional: false,
        },
        ParameterModel {
            name: "Output Directory"@,
            flags: seq!["--outdir"@],
            description: "Output directory into which zlidar files are created. If unspecified, it is assumed to be the same as the inputs."@,
            parameter_type: ParameterType::Directory,
            default_value: None,
            optional: true,
        },
    ]
}

/// The name of the executable as the usage line shows it: its path without
/// the current directory, without `.exe`, and without any dot or separator
/// that is left; `.exe` is put back at the end where the path held it.
pub open spec fn short_executable(
    current_directory: Seq<char>,
    executable: Seq<char>,
    separator: char,
) -> Seq<char> {
    let bare = remove_char(
        remove_char(remove_all(remove_all(executable, current_directory), ".exe"@), '.'),
        separator,
    );
    if contains_text(executable, ".exe"@) {
        bare + ".exe"@
    } else {
        bare
    }
}

/// The usage line, written with `*` for the separator. Every asterisk of
/// the line gives way to the separator, one in the name of the executable
/// too.
pub open spec fn usage_pattern(short_executable: Seq<char>, name: Seq<char>) -> Seq<char> {
    ">>.*"@ + short_executable + " -r="@ + name
        + " -v --wd=\"*path*to*data*\" -i=\"file1.zlidar, file2.zlidar, file3.zlidar\""@
}

/// The usage line for an executable run from a current directory.
pub open spec fn example_usage(
    current_directory: Seq<char>,
    executable: Seq<char>,
    separator: char,
) -> Seq<char> {
    replace_char(
        usage_pattern(short_executable(current_directory, executable, separator), tool_name()),
        '*',
        separator,
    )
}

/// A row of `n` asterisks.
pub open spec fn stars(n: nat) -> Seq<char> {
    Seq::new(n, |i: int| '*')
}

/// The banner that a verbose run opens with: the welcome line between two
/// rows of asterisks of its length.
pub open spec fn banner(name: Seq<char>) -> Seq<Seq<char>> {
    seq![stars(15 + name.len()), "* Welcome to "@ + name + " *"@, stars(15 + name.len())]
}

/// The name of the tool that rates the shape of polygons.
pub open spec fn ratio_tool_name() -> Seq<char> {
    "PerimeterAreaRatio"@
}

/// The toolbox that the shape tool belongs to.
pub open spec fn ratio_toolbox_name() -> Seq<char> {
    "GIS Analysis/Patch Shape Tools"@
}

/// What the shape tool does, in one sentence.
pub open spec fn ratio_tool_description() -> Seq<char> {
    "Calculates the perimeter-area ratio of vector polygons."@
}

/// The one parameter of the shape tool: the polygon file.
pub open spec fn ratio_tool_parameters() -> Seq<ParameterModel> {
    seq![
        ParameterModel {
            name: "Input Vector Polygon File"@,
            flags: seq!["-i"@, "--input"@],
            description: "Input vector polygon file."@,
            parameter_type: ParameterType::ExistingFile(
                ParameterFileType::Vector(VectorGeometryType::Polygon),
            ),
            default_value: None,
            optional: false,
        },
    ]
}

/// The usage line of the shape tool for an executable run from a current
/// directory.
pub open spec fn ratio_example_usage(
    current_directory: Seq<char>,
    executable: Seq<char>,
    separator: char,
) -> Seq<char> {
    replace_char(
        ">>.*"@ + short_executable(current_directory, executable, separator)
            + " -r=PerimeterAreaRatio -v --wd=\"*path*to*data*\" --input=polygons.shp"@,
        '*',
        separator,
    )
}

/// A row of `n` spaces.
pub open spec fn spaces(n: nat) -> Seq<char> {
    Seq::new(n, |i: int| ' ')
}

/// The width of the framed banner: that of the welcome line, and at least
/// that of the line that names the toolbox.
pub open spec fn frame_width(name: Seq<char>) -> nat {
    if name.len() >= 13 {
        15 + name.len()
    } else {
        28
    }
}

/// The framed banner: three lines, each filled up with spaces to the width
/// of the frame, between two rows of asterisks.
pub open spec fn framed_banner(name: Seq<char>) -> Seq<Seq<char>> {
    let width = frame_width(name);
    seq![
        stars(width),
        "* Welcome to "@ + name + " "@ + spaces((width - 15 - name.len()) as nat) + "*"@,
        "* Powered by WhiteboxTools "@ + spaces((width - 28) as nat) + "*"@,
        "* www.whiteboxgeo.com "@ + spaces((width - 23) as nat) + "*"@,
        stars(width),
    ]
}

/// What a tool stands for.
pub struct ToolModel {
    pub name: Seq<char>,
    pub description: Seq<char>,
    pub toolbox: Seq<char>,
    pub parameters: Seq<ParameterModel>,
    pub example_usage: Seq<char>,
}

/// Converts one or more zlidar files into the LAS data format.
pub struct ZlidarToLas {
    name: String,
    description: String,
    toolbox: String,
    parameters: Vec<ToolParameter>,
    example_usage: String,
}

impl View for ZlidarToLas {
    type V = ToolModel;

    closed spec fn view(&self) -> ToolModel {
        ToolModel {
            name: self.name@,
            description: self.description@,
            toolbox: self.toolbox@,
            parameters: parameter_models(self.parameters@),
            example_usage: self.example_usage@,
        }
    }
}

fn short_executable_of(current_directory: &str, executable: &str, separator: char) -> (short:
    Vec<char>)
    ensures
        short@ == short_executable(current_directory@, executable@, separator),
{
    let exe = to_chars(executable);
    let suffix = to_chars(".exe");
    let without_directory = remove_text(&exe, &to_chars(current_directory));
    let without_suffix = remove_text(&without_directory, &suffix);
    let without_dots = remove_char_in(&without_suffix, '.');
    let mut short = remove_char_in(&without_dots, separator);
    if find_text(&exe, &suffix) {
        push_chars(&mut short, &suffix);
    }
    short
}

fn push_row(out: &mut Vec<char>, c: char, n: usize)
    ensures
        final(out)@ == old(out)@ + Seq::new(n as nat, |i: int| c),
{
    let ghost before = out@;
    let mut i: usize = 0;
    assert(out@ == before + Seq::new(0, |i: int| c));
    while i < n
        invariant
            i <= n,
            out@ == before + Seq::new(i as nat, |i: int| c),
        decreases n - i,
    {
        out.push(c);
        i += 1;
        assert(out@ == before + Seq::new(i as nat, |i: int| c));
    }
}

fn stars_of(n: usize) -> (row: Vec<char>)
    ensures
        row@ == stars(n as nat),
{
    let mut row: Vec<char> = Vec::new();
    push_row(&mut row, '*', n);
    assert(row@ == stars(n as nat));
    row
}

impl ZlidarToLas {
    /// The tool, with the usage line for `executable` run from
    /// `current_directory` on a platform whose separator is `separator`.
    pub fn new(current_directory: &str, executable: &str, separator: char) -> (tool: ZlidarToLas)
        ensures
            tool@.name == tool_name(),
            tool@.description == tool_description(),
            tool@.toolbox == toolbox_name(),
            tool@.parameters == tool_parameters(),
            tool@.example_usage == example_usage(current_directory@, executable@, separator),
    {
        let mut parameters: Vec<ToolParameter> = Vec::new();
        let mut input_flags: Vec<String> = Vec::new();
        input_flags.push(String::from_str("-i"));
        input_flags.push(String::from_str("--inputs"));
        assert(texts(input_flags@) == seq!["-i"@, "--inputs"@]);
        parameters.push(
            ToolParameter {
                name: String::from_str("Input ZLidar Files"),
                flags: input_flags,
                description: String::from_str("Input ZLidar files."),
                parameter_type: ParameterType::FileList(ParameterFileType::Lidar),
                default_value: None,
                optional: false,
            },
        );
        let mut directory_flags: Vec<String> = Vec::new();
        directory_flags.push(String::from_str("--outdir"));
        assert(texts(directory_flags@) == seq!["--outdir"@]);
        parameters.push(
            ToolParameter {
                name: String::from_str("Output Directory"),
                flags: directory_flags,
                description: String::from_str(
                    "Output directory into which zlidar files are created. If unspecified, it is assumed to be the same as the inputs.",
                ),
                parameter_type: ParameterType::Directory,
                default_value: None,
                optional: true,
            },
        );
        assert(parameter_models(parameters@) == tool_parameters());

        let short = short_executable_of(current_directory, executable, separator);
        let mut pattern: Vec<char> = Vec::new();
        push_str(&mut pattern, ">>.*");
        push_chars(&mut pattern, &short);
        push_str(&mut pattern, " -r=");
        push_str(&mut pattern, "ZlidarToLas");
        push_str(
            &mut pattern,
            " -v --wd=\"*path*to*data*\" -i=\"file1.zlidar, file2.zlidar, file3.zlidar\"",
        );
        let usage = replace_char_in(&pattern, '*', separator);

        ZlidarToLas {
            name: String::from_str("ZlidarToLas"),
            description: String::from_str(
                "Converts one or more zlidar files into the LAS data format.",
            ),
            toolbox: String::from_str("LiDAR Tools"),
            parameters,
            example_usage: from_chars(&usage),
        }
    }

    /// The name of the tool.
    pub fn get_tool_name(&self) -> (name: String)
        ensures
            name@ == self@.name,
    {
        self.name.clone()
    }

    /// What the tool does, in one sentence.
    pub fn get_tool_description(&self) -> (description: String)
        ensures
            description@ == self@.description,
    {
        self.description.clone()
    }

    /// The toolbox that the tool belongs to.
    pub fn get_toolbox(&self) -> (toolbox: String)
        ensures
            toolbox@ == self@.toolbox,
    {
        self.toolbox.clone()
    }

    /// The usage line shown to the user.
    pub fn get_example_usage(&self) -> (usage: String)
        ensures
            usage@ == self@.example_usage,
    {
        self.example_usage.clone()
    }

    /// The parameters of the tool as one JSON document.
    pub fn get_tool_parameters(&self) -> (document: String)
        ensures
            document@ == parameters_document(self@.parameters),
    {
        render_parameters(&self.parameters)
    }

    /// The banner that a verbose run opens with.
    pub fn welcome_banner(&self) -> (lines: Vec<String>)
        ensures
            texts(lines@) == banner(self@.name),
    {
        let name = to_chars(self.name.as_str());
        let mut lines: Vec<String> = Vec::new();
        let mut row = stars_of(15);
        let tail = stars_of(name.len());
        push_chars(&mut row, &tail);
        assert(row@ == stars(15 + name@.len()));
        let mut welcome: Vec<char> = Vec::new();
        push_str(&mut welcome, "* Welcome to ");
        push_chars(&mut welcome, &name);
        push_str(&mut welcome, " *");
        let first = from_chars(&row);
        let second = from_chars(&welcome);
        let third = from_chars(&row);
        lines.push(first);
        lines.push(second);
        lines.push(third);
        assert(texts(lines@) == seq![first@, second@, third@]);
        lines
    }
}

/// Calculates the perimeter-area ratio of vector polygons.
pub struct PerimeterAreaRatio {
    name: String,
    description: String,
    toolbox: String,
    parameters: Vec<ToolParameter>,
    example_usage: String,
}

impl View for PerimeterAreaRatio {
    type V = ToolModel;

    closed spec fn view(&self) -> ToolModel {
        ToolModel {
            name: self.name@,
            description: self.description@,
            toolbox: self.toolbox@,
            parameters: parameter_models(self.parameters@),
            example_usage: self.example_usage@,
        }
    }
}

impl PerimeterAreaRatio {
    /// The tool, with the usage line for `executable` run from
    /// `current_directory` on a platform whose separator is `separator`.
    pub fn new(current_directory: &str, executable: &str, separator: char) -> (tool:
        PerimeterAreaRatio)
        ensures
            tool@.name == ratio_tool_name(),
            tool@.description == ratio_tool_description(),
            tool@.toolbox == ratio_toolbox_name(),
            tool@.parameters == ratio_tool_parameters(),
            tool@.example_usage == ratio_example_usage(
                current_directory@,
                executable@,
                separator,
            ),
    {
        let mut parameters: Vec<ToolParameter> = Vec::new();
        let mut flags: Vec<String> = Vec::new();
        flags.push(String::from_str("-i"));
        flags.push(String::from_str("--input"));
        assert(texts(flags@) == seq!["-i"@, "--input"@]);
        parameters.push(
            ToolParameter {
                name: String::from_str("Input Vector Polygon File"),
                flags,
                description: String::from_str("Input vector polygon file."),
                parameter_type: ParameterType::ExistingFile(
                    ParameterFileType::Vector(VectorGeometryType::Polygon),
                ),
                default_value: None,
                optional: false,
            },
        );
        assert(parameter_models(parameters@) == ratio_tool_parameters());

        let short = short_executable_of(current_directory, executable, separator);
        let mut pattern: Vec<char> = Vec::new();
        push_str(&mut pattern, ">>.*");
        push_chars(&mut pattern, &short);
        push_str(
            &mut pattern,
            " -r=PerimeterAreaRatio -v --wd=\"*path*to*data*\" --input=polygons.shp",
        );
        let usage = replace_char_in(&pattern, '*', separator);

        PerimeterAreaRatio {
            name: String::from_str("PerimeterAreaRatio"),
            description: String::from_str(
                "Calculates the perimeter-area ratio of vector polygons.",
            ),
            toolbox: String::from_str("GIS Analysis/Patch Shape Tools"),
            parameters,
            example_usage: from_chars(&usage),
        }
    }

    /// The name of the tool.
    pub fn get_tool_name(&self) -> (name: String)
        ensures
            name@ == self@.name,
    {
        self.name.clone()
    }

    /// What the tool does, in one sentence.
    pub fn get_tool_description(&self) -> (description: String)
        ensures
            description@ == self@.description,
    {
        self.description.clone()
    }

    /// The toolbox that the tool belongs to.
    pub fn get_toolbox(&self) -> (toolbox: String)
        ensures
            toolbox@ == self@.toolbox,
    {
        self.toolbox.clone()
    }

    /// The usage line shown to the user.
    pub fn get_example_usage(&self) -> (usage: String)
        ensures
            usage@ == self@.example_usage,
    {
        self.example_usage.clone()
    }

    /// The parameters of the tool as one JSON document.
    pub fn get_tool_parameters(&self) -> (document: String)
        ensures
            document@ == parameters_document(self@.parameters),
    {
        render_parameters(&self.parameters)
    }

    /// The framed banner that a verbose run opens with.
    pub fn welcome_banner(&self) -> (lines: Vec<String>)
        ensures
            texts(lines@) == framed_banner(self@.name),
    {
        let name = to_chars(self.name.as_str());
        let n = name.len();
        let ghost width = frame_width(name@);
        // What the frame is wider than the three lines, split so that no sum
        // is formed that the name's length could push past the largest number.
        let beyond: usize = if n >= 13 { n - 13 } else { 0 };
        let short: usize = if n >= 13 { 0 } else { 13 - n };

        let mut row: Vec<char> = Vec::new();
        push_row(&mut row, '*', 28);
        push_row(&mut row, '*', beyond);
        assert(row@ == stars(width));

        let mut welcome: Vec<char> = Vec::new();
        push_str(&mut welcome, "* Welcome to ");
        push_chars(&mut welcome, &name);
        push_str(&mut welcome, " ");
        push_row(&mut welcome, ' ', short);
        push_str(&mut welcome, "*");
        assert(spaces(short as nat) == spaces((width - 15 - name@.len()) as nat));

        let mut powered: Vec<char> = Vec::new();
        push_str(&mut powered, "* Powered by WhiteboxTools ");
        push_row(&mut powered, ' ', beyond);
        push_str(&mut powered, "*");
        assert(spaces(beyond as nat) == spaces((width - 28) as nat));

        let mut address: Vec<char> = Vec::new();
        push_str(&mut address, "* www.whiteboxgeo.com ");
        let ghost head = address@;
        push_row(&mut address, ' ', 5);
        push_row(&mut address, ' ', beyond);
        assert(address@ == head + spaces((width - 23) as nat));
        push_str(&mut address, "*");

        let mut lines: Vec<String> = Vec::new();
        let first = from_chars(&row);
        let second = from_chars(&welcome);
        let third = from_chars(&powered);
        let fourth = from_chars(&address);
        let fifth = from_chars(&row);
        lines.push(first);
        lines.push(second);
        lines.push(third);
        lines.push(fourth);
        lines.push(fifth);
        assert(texts(lines@) == seq![first@, second@, third@, fourth@, fifth@]);
        lines
    }
}

} // verus!
