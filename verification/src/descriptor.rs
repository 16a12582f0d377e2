//! Parameter descriptors: what a tool tells a front end about its
//! arguments, and their rendering as JSON.

use crate::text::{from_chars, joined, push_joined, push_str, rows, texts, to_chars};
use vstd::prelude::*;

verus! {

/// The kind of geometry that a vector file holds.
#[derive(Debug, Clone, Copy, PartialEq, Eq, Structural)]
pub enum VectorGeometryType {
    Any,
    Point,
    Line,
    Polygon,
    LineOrPolygon,
}

/// The kind of file that a parameter names.
#[derive(Debug, Clone, Copy, PartialEq, Eq, Structural)]
pub enum ParameterFileType {
    Any,
    Lidar,
    Raster,
    Text,
    Vector(VectorGeometryType),
}

/// The kind of value that a parameter takes.
#[derive(Debug, Clone, Copy, PartialEq, Eq, Structural)]
pub enum ParameterType {
    ExistingFile(ParameterFileType),
    NewFile(ParameterFileType),
    FileList(ParameterFileType),
    Directory,
}

/// The description of one parameter of a tool.
#[derive(Debug, Clone, PartialEq, Eq)]
pub struct ToolParameter {
    pub name: String,
    pub flags: Vec<String>,
    pub description: String,
    pub parameter_type: ParameterType,
    pub default_value: Option<String>,
    pub optional: bool,
}

/// What a [`ToolParameter`] stands for.
pub struct ParameterModel {
    pub name: Seq<char>,
    pub flags: Seq<Seq<char>>,
    pub description: Seq<char>,
    pub parameter_type: ParameterType,
    pub default_value: Option<Seq<char>>,
    pub optional: bool,
}

impl View for ToolParameter {
    type V = ParameterModel;

    open spec fn view(&self) -> ParameterModel {
        ParameterModel {
            name: self.name@,
            flags: texts(self.flags@),
            description: self.description@,
            parameter_type: self.parameter_type,
            default_value: match self.default_value {
                Some(value) => Some(value@),
                None => None,
            },
            optional: self.optional,
        }
    }
}

/// The models of a vector of parameters.
pub open spec fn parameter_models(parameters: Seq<ToolParameter>) -> Seq<ParameterModel> {
    parameters.map_values(|p: ToolParameter| p@)
}

/// The character for the hexadecimal digit `d`, in lower case.
pub open spec fn hex_digit(d: nat) -> char
    recommends
        d < 16,
{
    if d < 10 {
        ((48 + d) as u8) as char
    } else {
        ((87 + d) as u8) as char
    }
}

/// How a character stands inside a JSON string: the quote and the backslash
/// behind a backslash, a control character by its short escape where it has
/// one and by its code otherwise, any other character as it is.
pub open spec fn escaped_char(c: char) -> Seq<char> {
    let code = c as u32;
    if c == '"' {
        seq!['\\', '"']
    } else if c == '\\' {
        seq!['\\', '\\']
    } else if code == 0x08 {
        seq!['\\', 'b']
    } else if code == 0x09 {
        seq!['\\', 't']
    } else if code == 0x0A {
        seq!['\\', 'n']
    } else if code == 0x0C {
        seq!['\\', 'f']
    } else if code == 0x0D {
        seq!['\\', 'r']
    } else if code < 0x20 {
        seq!['\\', 'u', '0', '0', hex_digit((code / 16) as nat), hex_digit((code % 16) as nat)]
    } else {
        seq![c]
    }
}

/// The characters of `s` as they stand inside a JSON string.
pub open spec fn escaped(s: Seq<char>) -> Seq<char>
    decreases s.len(),
{
    if s.len() == 0 {
        Seq::empty()
    } else {
        escaped(s.drop_last()) + escaped_char(s.last())
    }
}

/// `s` as a JSON string.
pub open spec fn json_string(s: Seq<char>) -> Seq<char> {
    seq!['"'] + escaped(s) + seq!['"']
}

/// The JSON strings of `items`, as a JSON array.
pub open spec fn json_string_array(items: Seq<Seq<char>>) -> Seq<char> {
    seq!['['] + joined(items.map_values(|s: Seq<char>| json_string(s)), ',') + seq![']']
}

/// The name of a kind of geometry.
pub open spec fn geometry_name(geometry: VectorGeometryType) -> Seq<char> {
    match geometry {
        VectorGeometryType::Any => "Any"@,
        VectorGeometryType::Point => "Point"@,
        VectorGeometryType::Line => "Line"@,
        VectorGeometryType::Polygon => "Polygon"@,
        VectorGeometryType::LineOrPolygon => "LineOrPolygon"@,
    }
}

/// A file type as JSON: its name as a string, and for a vector file an
/// object from `Vector` to the name of its geometry.
pub open spec fn file_type_json(file_type: ParameterFileType) -> Seq<char> {
    match file_type {
        ParameterFileType::Any => json_string("Any"@),
        ParameterFileType::Lidar => json_string("Lidar"@),
        ParameterFileType::Raster => json_string("Raster"@),
        ParameterFileType::Text => json_string("Text"@),
        ParameterFileType::Vector(geometry) => "{\"Vector\":"@ + json_string(
            geometry_name(geometry),
        ) + "}"@,
    }
}

/// A parameter type as JSON: a kind without a file type is its name as a
/// string, a kind with one an object from the kind to the file type.
pub open spec fn parameter_type_json(parameter_type: ParameterType) -> Seq<char> {
    match parameter_type {
        ParameterType::ExistingFile(file_type) => "{\"ExistingFile\":"@ + file_type_json(file_type) + "}"@,
        ParameterType::NewFile(file_type) => "{\"NewFile\":"@ + file_type_json(file_type) + "}"@,
        ParameterType::FileList(file_type) => "{\"FileList\":"@ + file_type_json(file_type) + "}"@,
        ParameterType::Directory => "\"Directory\""@,
    }
}

/// A default value as JSON: the string, or `null` where there is none.
pub open spec fn default_value_json(value: Option<Seq<char>>) -> Seq<char> {
    match value {
        Some(text) => json_string(text),
        None => "null"@,
    }
}

/// A truth value as JSON.
pub open spec fn bool_json(b: bool) -> Seq<char> {
    if b {
        "true"@
    } else {
        "false"@
    }
}

/// A parameter as a JSON object, its fields in the order of the struct.
pub open spec fn parameter_json(parameter: ParameterModel) -> Seq<char> {
    "{\"name\":"@ + json_string(parameter.name) + ",\"flags\":"@ + json_string_array(
        parameter.flags,
    ) + ",\"description\":"@ + json_string(parameter.description) + ",\"parameter_type\":"@
        + parameter_type_json(parameter.parameter_type) + ",\"default_value\":"@
        + default_value_json(parameter.default_value) + ",\"optional\":"@ + bool_json(
        parameter.optional,
    ) + "}"@
}

/// The parameters of a tool as one JSON document.
pub open spec fn parameters_document(parameters: Seq<ParameterModel>) -> Seq<char> {
    "{\"parameters\": ["@ + joined(
        parameters.map_values(|p: ParameterModel| parameter_json(p)),
        ',',
    ) + "]}"@
}

fn hex_digit_char(d: u8) -> (c: char)
    requires
        d < 16,
    ensures
        c == hex_digit(d as nat),
{
    if d < 10 {
        (48u8 + d) as char
    } else {
        (87u8 + d) as char
    }
}

fn push_escaped_char(out: &mut Vec<char>, c: char)
    ensures
        final(out)@ == old(out)@ + escaped_char(c),
{
    let ghost before = out@;
    let code: u32 = c as u32;
    if c == '"' || c == '\\' {
        out.push('\\');
        out.push(c);
    } else if code == 0x08 {
        out.push('\\');
        out.push('b');
    } else if code == 0x09 {
        out.push('\\');
        out.push('t');
    } else if code == 0x0A {
        out.push('\\');
        out.push('n');
    } else if code == 0x0C {
        out.push('\\');
        out.push('f');
    } else if code == 0x0D {
        out.push('\\');
        out.push('r');
    } else if code < 0x20 {
        out.push('\\');
        out.push('u');
        out.push('0');
        out.push('0');
        out.push(hex_digit_char((code / 16) as u8));
        out.push(hex_digit_char((code % 16) as u8));
    } else {
        out.push(c);
    }
    assert(out@ == before + escaped_char(c));
}

fn push_json_string(out: &mut Vec<char>, s: &str)
    ensures
        final(out)@ == old(out)@ + json_string(s@),
{
    let ghost before = out@;
    out.push('"');
    let chars = to_chars(s);
    let mut i: usize = 0;
    assert(chars@.take(0) == Seq::<char>::empty());
    assert(out@ == before + seq!['"'] + escaped(chars@.take(0)));
    while i < chars.len()
        invariant
            i <= chars.len(),
            out@ == before + seq!['"'] + escaped(chars@.take(i as int)),
        decreases chars.len() - i,
    {
        assert(chars@.take(i + 1).drop_last() == chars@.take(i as int));
        push_escaped_char(out, chars[i]);
        i += 1;
        assert(out@ == before + seq!['"'] + escaped(chars@.take(i as int)));
    }
    assert(chars@.take(chars.len() as int) == chars@);
    out.push('"');
    assert(out@ == before + json_string(s@));
}

fn json_string_of(s: &str) -> (out: Vec<char>)
    ensures
        out@ == json_string(s@),
{
    let mut out: Vec<char> = Vec::new();
    push_json_string(&mut out, s);
    out
}

fn push_json_string_array(out: &mut Vec<char>, items: &Vec<String>)
    ensures
        final(out)@ == old(out)@ + json_string_array(texts(items@)),
{
    let ghost before = out@;
    let ghost wanted = texts(items@).map_values(|s: Seq<char>| json_string(s));
    let mut rendered: Vec<Vec<char>> = Vec::new();
    let mut i: usize = 0;
    while i < items.len()
        invariant
            i <= items.len(),
            wanted == texts(items@).map_values(|s: Seq<char>| json_string(s)),
            rows(rendered@) == wanted.take(i as int),
        decreases items.len() - i,
    {
        let ghost so_far = rows(rendered@);
        let item = json_string_of(items[i].as_str());
        rendered.push(item);
        assert(rows(rendered@) == so_far.push(item@));
        assert(wanted[i as int] == json_string(items@[i as int]@));
        i += 1;
        assert(rows(rendered@) == wanted.take(i as int));
    }
    assert(wanted.take(items.len() as int) == wanted);
    out.push('[');
    push_joined(out, &rendered, ',');
    out.push(']');
    assert(out@ == before + json_string_array(texts(items@)));
}

fn geometry_text(geometry: VectorGeometryType) -> (name: &'static str)
    ensures
        name@ == geometry_name(geometry),
{
    match geometry {
        VectorGeometryType::Any => "Any",
        VectorGeometryType::Point => "Point",
        VectorGeometryType::Line => "Line",
        VectorGeometryType::Polygon => "Polygon",
        VectorGeometryType::LineOrPolygon => "LineOrPolygon",
    }
}

fn push_file_type(out: &mut Vec<char>, file_type: ParameterFileType)
    ensures
        final(out)@ == old(out)@ + file_type_json(file_type),
{
    let ghost before = out@;
    match file_type {
        ParameterFileType::Any => {
            push_json_string(out, "Any");
        },
        ParameterFileType::Lidar => {
            push_json_string(out, "Lidar");
        },
        ParameterFileType::Raster => {
            push_json_string(out, "Raster");
        },
        ParameterFileType::Text => {
            push_json_string(out, "Text");
        },
        ParameterFileType::Vector(geometry) => {
            push_str(out, "{\"Vector\":");
            push_json_string(out, geometry_text(geometry));
            push_str(out, "}");
            assert(out@ == before + file_type_json(file_type));
        },
    }
}

fn push_parameter_type(out: &mut Vec<char>, parameter_type: ParameterType)
    ensures
        final(out)@ == old(out)@ + parameter_type_json(parameter_type),
{
    let ghost before = out@;
    match parameter_type {
        ParameterType::ExistingFile(file_type) => {
            push_str(out, "{\"ExistingFile\":");
            push_file_type(out, file_type);
            push_str(out, "}");
        },
        ParameterType::NewFile(file_type) => {
            push_str(out, "{\"NewFile\":");
            push_file_type(out, file_type);
            push_str(out, "}");
        },
        ParameterType::FileList(file_type) => {
            push_str(out, "{\"FileList\":");
            push_file_type(out, file_type);
            push_str(out, "}");
        },
        ParameterType::Directory => {
            push_str(out, "\"Directory\"");
        },
    }
    assert(out@ == before + parameter_type_json(parameter_type));
}

impl ToolParameter {
    /// This parameter as a JSON object.
    pub fn to_string(&self) -> (json: String)
        ensures
            json@ == parameter_json(self@),
    {
        from_chars(&self.to_json())
    }

    fn to_json(&self) -> (json: Vec<char>)
        ensures
            json@ == parameter_json(self@),
    {
        let mut out: Vec<char> = Vec::new();
        push_str(&mut out, "{\"name\":");
        push_json_string(&mut out, self.name.as_str());
        push_str(&mut out, ",\"flags\":");
        push_json_string_array(&mut out, &self.flags);
        push_str(&mut out, ",\"description\":");
        push_json_string(&mut out, self.description.as_str());
        push_str(&mut out, ",\"parameter_type\":");
        push_parameter_type(&mut out, self.parameter_type);
        push_str(&mut out, ",\"default_value\":");
        match &self.default_value {
            Some(value) => {
                push_json_string(&mut out, value.as_str());
            },
            None => {
                push_str(&mut out, "null");
            },
        }
        push_str(&mut out, ",\"optional\":");
        if self.optional {
            push_str(&mut out, "true");
        } else {
            push_str(&mut out, "false");
        }
        push_str(&mut out, "}");
        out
    }
}

/// Renders the parameters of a tool as one JSON document.
pub fn render_parameters(parameters: &Vec<ToolParameter>) -> (document: String)
    ensures
        document@ == parameters_document(parameter_models(parameters@)),
{
    let ghost wanted = parameter_models(parameters@).map_values(
        |p: ParameterModel| parameter_json(p),
    );
    let mut rendered: Vec<Vec<char>> = Vec::new();
    let mut i: usize = 0;
    while i < parameters.len()
        invariant
            i <= parameters.len(),
            wanted == parameter_models(parameters@).map_values(
                |p: ParameterModel| parameter_json(p),
            ),
            rows(rendered@) == wanted.take(i as int),
        decreases parameters.len() - i,
    {
        let ghost so_far = rows(rendered@);
        let item = parameters[i].to_json();
        rendered.push(item);
        assert(rows(rendered@) == so_far.push(item@));
        assert(wanted[i as int] == parameter_json(parameters@[i as int]@));
        i += 1;
        assert(rows(rendered@) == wanted.take(i as int));
    }
    assert(wanted.take(parameters.len() as int) == wanted);
    let mut document: Vec<char> = Vec::new();
    push_str(&mut document, "{\"parameters\": [");
    push_joined(&mut document, &rendered, ',');
    push_str(&mut document, "]}");
    from_chars(&document)
}

} // verus!
