//! Path rules: where a source file is looked for, what its extension is and
//! where its converted copy is written.
//!
//! Paths are plain text. Their components are separated by `/` or by the
//! separator of the platform, which the caller hands in. The final
//! component of a path is its last component that is not `.`: separators
//! and `.` components at the end of a path are passed over.

use crate::outcome::{BatchError, BatchErrorModel};
use crate::text::{
    ascii_lowercase, chars_equal, copy_range, from_chars, lowercase_chars, push_chars, push_str,
    to_chars,
};
use vstd::prelude::*;

verus! {

/// The characters that separate the components of a path: `/`, and the
/// separator of the platform.
pub open spec fn is_separator(c: char, separator: char) -> bool {
    c == '/' || c == separator
}

/// Whether `path` names a directory, that is, holds a separator.
pub open spec fn has_separator(path: Seq<char>, separator: char) -> bool {
    exists|i: int| 0 <= i < path.len() && is_separator(#[trigger] path[i], separator)
}

/// Whether `path` ends in something that belongs to no component: a
/// separator, or a `.` that stands alone behind a separator.
pub open spec fn ends_in_filler(path: Seq<char>, separator: char) -> bool {
    path.len() > 0 && (is_separator(path.last(), separator) || (path.len() >= 2 && path.last()
        == '.' && is_separator(path[path.len() - 2], separator)))
}

/// The position at which the final component of `path` ends: the length of
/// the path without the separators and `.` components at its end.
pub open spec fn file_name_end(path: Seq<char>, separator: char) -> int
    decreases path.len(),
{
    if ends_in_filler(path, separator) {
        file_name_end(path.drop_last(), separator)
    } else {
        path.len() as int
    }
}

/// The position at which the last component of `path` starts: one past the
/// last separator, or zero where there is none.
pub open spec fn component_start(path: Seq<char>, separator: char) -> int
    decreases path.len(),
{
    if path.len() == 0 {
        0
    } else if is_separator(path.last(), separator) {
        path.len() as int
    } else {
        component_start(path.drop_last(), separator)
    }
}

/// The position at which the final component of `path` starts.
pub open spec fn file_name_start(path: Seq<char>, separator: char) -> int {
    component_start(path.take(file_name_end(path, separator)), separator)
}

/// The final component of `path`.
pub open spec fn file_name(path: Seq<char>, separator: char) -> Seq<char> {
    path.subrange(file_name_start(path, separator), file_name_end(path, separator))
}

/// The position of the last `.` in `name`, or `-1` where there is none.
pub open spec fn last_dot(name: Seq<char>) -> int
    decreases name.len(),
{
    if name.len() == 0 {
        -1
    } else if name.last() == '.' {
        name.len() - 1
    } else {
        last_dot(name.drop_last())
    }
}

/// The position in `path` at which its extension starts, if it has one.
///
/// The extension is what follows the last `.` of the final component. A
/// final component without a `.`, one whose only `.` is its first character,
/// and the component `..` have no extension; nor has a path without a final
/// component.
pub open spec fn extension_start(path: Seq<char>, separator: char) -> Option<int> {
    let start = file_name_start(path, separator);
    let name = file_name(path, separator);
    let dot = last_dot(name);
    if dot <= 0 || name == seq!['.', '.'] {
        None
    } else {
        Some(start + dot + 1)
    }
}

/// The extension of `path`, without its dot.
pub open spec fn extension(path: Seq<char>, separator: char) -> Option<Seq<char>> {
    match extension_start(path, separator) {
        Some(at) => Some(path.subrange(at, file_name_end(path, separator))),
        None => None,
    }
}

/// The extension that source files carry, in lower case.
pub open spec fn source_extension() -> Seq<char> {
    seq!['z', 'l', 'i', 'd', 'a', 'r']
}

/// The extension that converted files are given.
pub open spec fn target_extension() -> Seq<char> {
    seq!['l', 'a', 's']
}

/// Whether `path` carries the source extension, in any mix of upper and
/// lower case.
pub open spec fn is_source_file(path: Seq<char>, separator: char) -> bool {
    match extension(path, separator) {
        Some(e) => ascii_lowercase(e) == source_extension(),
        None => false,
    }
}

/// Where the source file for a path token is looked for: a token that names
/// no directory is taken to lie in the working directory.
pub open spec fn resolved(
    token: Seq<char>,
    working_directory: Seq<char>,
    separator: char,
) -> Seq<char> {
    if has_separator(token, separator) {
        token
    } else {
        working_directory + token
    }
}

/// The output directory as the target paths use it: a directory that is
/// given and does not end in `separator` has it appended.
pub open spec fn normalized_directory(directory: Seq<char>, separator: char) -> Seq<char> {
    if directory.len() > 0 && directory.last() != separator {
        directory.push(separator)
    } else {
        directory
    }
}

/// Where the converted copy of `source` is written.
///
/// With an output directory it is the directory, the short name of the
/// source and the target extension. Without one it is the source path with
/// its own extension replaced where it stands.
pub open spec fn target_path(
    source: Seq<char>,
    short_name: Seq<char>,
    output_directory: Seq<char>,
    separator: char,
) -> Seq<char>
    recommends
        extension_start(source, separator) is Some,
{
    if output_directory.len() == 0 {
        source.take(extension_start(source, separator).unwrap()) + target_extension()
            + source.skip(file_name_end(source, separator))
    } else {
        output_directory + short_name + seq!['.'] + target_extension()
    }
}

/// The final component ends inside the path, and only separators and dots
/// follow it.
pub proof fn lemma_file_name_end(path: Seq<char>, separator: char)
    ensures
        0 <= file_name_end(path, separator) <= path.len(),
        !ends_in_filler(path.take(file_name_end(path, separator)), separator),
        forall|i: int|
            file_name_end(path, separator) <= i < path.len() ==> is_separator(
                #[trigger] path[i],
                separator,
            ) || path[i] == '.',
    decreases path.len(),
{
    if ends_in_filler(path, separator) {
        let front = path.drop_last();
        lemma_file_name_end(front, separator);
        let end = file_name_end(path, separator);
        assert(front.take(end) == path.take(end));
        assert forall|i: int| end <= i < path.len() implies is_separator(
            #[trigger] path[i],
            separator,
        ) || path[i] == '.' by {
            if i < front.len() {
                assert(path[i] == front[i]);
            }
        }
    } else {
        assert(path.take(path.len() as int) == path);
    }
}

/// The last component starts inside the path, just after a separator or at
/// the front, and holds no separator.
pub proof fn lemma_component_start(path: Seq<char>, separator: char)
    ensures
        0 <= component_start(path, separator) <= path.len(),
        component_start(path, separator) > 0 ==> is_separator(
            path[component_start(path, separator) - 1],
            separator,
        ),
        forall|i: int|
            component_start(path, separator) <= i < path.len() ==> !is_separator(
                #[trigger] path[i],
                separator,
            ),
    decreases path.len(),
{
    if path.len() > 0 && !is_separator(path.last(), separator) {
        let front = path.drop_last();
        lemma_component_start(front, separator);
        assert forall|i: int| component_start(path, separator) <= i < path.len() implies !is_separator(
            #[trigger] path[i],
            separator,
        ) by {
            if i < front.len() {
                assert(path[i] == front[i]);
            }
        }
    }
}

/// `last_dot` finds a dot after which no dot follows.
pub proof fn lemma_last_dot(name: Seq<char>)
    ensures
        -1 <= last_dot(name) < name.len(),
        last_dot(name) >= 0 ==> name[last_dot(name)] == '.',
        forall|i: int| last_dot(name) < i < name.len() ==> #[trigger] name[i] != '.',
    decreases name.len(),
{
    if name.len() > 0 && name.last() != '.' {
        let front = name.drop_last();
        lemma_last_dot(front);
        assert forall|i: int| last_dot(name) < i < name.len() implies #[trigger] name[i] != '.' by {
            if i < front.len() {
                assert(name[i] == front[i]);
            }
        }
    }
}

/// Where the extension stands: it starts after a dot of the final component
/// and runs to the end of that component; it holds neither a dot nor a
/// separator; and only separators and dots follow it in the path.
pub proof fn law_extension_stands_in_the_path(path: Seq<char>, separator: char)
    requires
        extension_start(path, separator) is Some,
    ensures
        1 <= extension_start(path, separator).unwrap() <= file_name_end(path, separator)
            <= path.len(),
        path[extension_start(path, separator).unwrap() - 1] == '.',
        forall|i: int|
            extension_start(path, separator).unwrap() <= i < file_name_end(path, separator)
                ==> path[i] != '.' && !is_separator(#[trigger] path[i], separator),
        forall|i: int|
            file_name_end(path, separator) <= i < path.len() ==> is_separator(
                #[trigger] path[i],
                separator,
            ) || path[i] == '.',
{
    let end = file_name_end(path, separator);
    let start = file_name_start(path, separator);
    let name = file_name(path, separator);
    let at = extension_start(path, separator).unwrap();
    lemma_file_name_end(path, separator);
    lemma_component_start(path.take(end), separator);
    lemma_last_dot(name);
    assert(path[at - 1] == name[at - 1 - start]);
    assert forall|i: int| at <= i < end implies path[i] != '.' && !is_separator(
        #[trigger] path[i],
        separator,
    ) by {
        assert(path[i] == name[i - start]);
        assert(path[i] == path.take(end)[i]);
    }
}

/// When two sources get distinct targets. Beside their sources, distinct
/// sources that carry the same extension, letter for letter, get distinct
/// targets. In an output directory, sources with distinct short names do.
/// Sources that differ only in the case of their extension, and sources in
/// different directories that share a short name, may share a target.
pub proof fn law_distinct_sources_have_distinct_targets(
    first: Seq<char>,
    second: Seq<char>,
    first_name: Seq<char>,
    second_name: Seq<char>,
    output_directory: Seq<char>,
    separator: char,
)
    requires
        extension(first, separator) is Some,
        extension(first, separator) == extension(second, separator),
    ensures
        output_directory.len() == 0 && first != second ==> target_path(
            first,
            first_name,
            output_directory,
            separator,
        ) != target_path(second, second_name, output_directory, separator),
        output_directory.len() > 0 && first_name != second_name ==> target_path(
            first,
            first_name,
            output_directory,
            separator,
        ) != target_path(second, second_name, output_directory, separator),
{
    let a = target_path(first, first_name, output_directory, separator);
    let b = target_path(second, second_name, output_directory, separator);
    if output_directory.len() == 0 {
        if a == b {
            law_extension_stands_in_the_path(first, separator);
            law_extension_stands_in_the_path(second, separator);
            let i = extension_start(first, separator).unwrap();
            let j = extension_start(second, separator).unwrap();
            let p = file_name_end(first, separator);
            let q = file_name_end(second, separator);
            assert(p - i == q - j) by {
                assert(first.subrange(i, p).len() == second.subrange(j, q).len());
            }
            if i < j {
                lemma_target_fixes_the_extension_start(first, second, separator);
            } else if j < i {
                lemma_target_fixes_the_extension_start(second, first, separator);
            }
            assert(i == j);
            assert(first.len() == second.len());
            assert forall|k: int| 0 <= k < first.len() implies first[k] == second[k] by {
                if k < i {
                    assert(a[k] == first[k]);
                    assert(b[k] == second[k]);
                } else if k < p {
                    assert(first.subrange(i, p)[k - i] == first[k]);
                    assert(second.subrange(j, q)[k - j] == second[k]);
                } else {
                    assert(a[i + 3 + (k - p)] == first[k]);
                    assert(b[j + 3 + (k - q)] == second[k]);
                }
            }
            assert(first == second);
        }
    } else {
        if a == b {
            let tail = seq!['.'] + target_extension();
            let n = output_directory.len() as int;
            assert(a == output_directory + first_name + tail);
            assert(b == output_directory + second_name + tail);
            assert(first_name.len() == second_name.len());
            assert forall|k: int| 0 <= k < first_name.len() implies first_name[k]
                == second_name[k] by {
                assert(a[n + k] == first_name[k]);
                assert(b[n + k] == second_name[k]);
            }
            assert(first_name == second_name);
        }
    }
}

/// Two sources with one target beside them have their extensions at one
/// position: the later extension start cannot lie behind the earlier.
proof fn lemma_target_fixes_the_extension_start(
    first: Seq<char>,
    second: Seq<char>,
    separator: char,
)
    requires
        extension_start(first, separator) is Some,
        extension_start(second, separator) is Some,
        target_path(first, Seq::empty(), Seq::empty(), separator) == target_path(
            second,
            Seq::empty(),
            Seq::empty(),
            separator,
        ),
    ensures
        extension_start(first, separator).unwrap() >= extension_start(second, separator).unwrap(),
{
    let a = target_path(first, Seq::empty(), Seq::empty(), separator);
    let b = target_path(second, Seq::empty(), Seq::empty(), separator);
    let i = extension_start(first, separator).unwrap();
    let j = extension_start(second, separator).unwrap();
    let p = file_name_end(first, separator);
    law_extension_stands_in_the_path(first, separator);
    law_extension_stands_in_the_path(second, separator);
    if i < j {
        // The dot before the later extension lies behind the earlier one's
        // new extension, among the separators and dots that follow it. So
        // does the later one's new extension, which holds no dot and two
        // different letters: they cannot both be the separator.
        let q = file_name_end(second, separator);
        let tail = first.skip(p);
        assert(a == first.take(i) + target_extension() + tail);
        assert(b == second.take(j) + target_extension() + second.skip(q));
        assert(a.len() == i + 3 + tail.len());
        assert(b.len() == j + 3 + (second.len() - q));
        assert(b[j - 1] == second[j - 1]);
        assert(a[i] == 'l' && a[i + 1] == 'a' && a[i + 2] == 's');
        assert(b[j] == 'l' && b[j + 1] == 'a');
        assert(j - 1 >= i + 3);
        assert(a[j] == tail[j - (i + 3)]);
        assert(a[j + 1] == tail[j + 1 - (i + 3)]);
        assert(tail[j - (i + 3)] == first[p + (j - (i + 3))]);
        assert(tail[j + 1 - (i + 3)] == first[p + (j + 1 - (i + 3))]);
        assert(is_separator('l', separator) && is_separator('a', separator));
    }
}

fn char_is_separator(c: char, separator: char) -> (b: bool)
    ensures
        b == is_separator(c, separator),
{
    c == '/' || c == separator
}

fn contains_separator(path: &Vec<char>, separator: char) -> (b: bool)
    ensures
        b == has_separator(path@, separator),
{
    let mut i: usize = 0;
    while i < path.len()
        invariant
            i <= path.len(),
            forall|j: int| 0 <= j < i ==> !is_separator(#[trigger] path@[j], separator),
        decreases path.len() - i,
    {
        if char_is_separator(path[i], separator) {
            return true;
        }
        i += 1;
    }
    false
}

fn filler_ends(path: &Vec<char>, end: usize, separator: char) -> (b: bool)
    requires
        end <= path.len(),
    ensures
        b == ends_in_filler(path@.take(end as int), separator),
{
    if end == 0 {
        false
    } else if char_is_separator(path[end - 1], separator) {
        true
    } else {
        end >= 2 && path[end - 1] == '.' && char_is_separator(path[end - 2], separator)
    }
}

fn find_file_name_end(path: &Vec<char>, separator: char) -> (end: usize)
    ensures
        end == file_name_end(path@, separator),
        end <= path.len(),
{
    let mut end: usize = path.len();
    assert(path@.take(end as int) == path@);
    while filler_ends(path, end, separator)
        invariant
            end <= path.len(),
            file_name_end(path@, separator) == file_name_end(path@.take(end as int), separator),
        decreases end,
    {
        assert(path@.take(end as int).drop_last() == path@.take(end - 1));
        end -= 1;
    }
    end
}

fn find_component_start(path: &Vec<char>, end: usize, separator: char) -> (start: usize)
    requires
        end <= path.len(),
    ensures
        start == component_start(path@.take(end as int), separator),
        start <= end,
{
    let mut i: usize = end;
    while i > 0 && !char_is_separator(path[i - 1], separator)
        invariant
            i <= end <= path.len(),
            component_start(path@.take(end as int), separator) == component_start(
                path@.take(i as int),
                separator,
            ),
        decreases i,
    {
        assert(path@.take(i as int).drop_last() == path@.take(i - 1));
        i -= 1;
    }
    i
}

/// The positions between which the extension of `path` stands.
fn find_extension(path: &Vec<char>, separator: char) -> (found: Option<(usize, usize)>)
    ensures
        match found {
            Some((at, end)) => {
                &&& extension_start(path@, separator) == Some(at as int)
                &&& end == file_name_end(path@, separator)
                &&& 1 <= at <= end <= path.len()
            },
            None => extension_start(path@, separator) is None,
        },
{
    let end = find_file_name_end(path, separator);
    let start = find_component_start(path, end, separator);
    let ghost name = file_name(path@, separator);
    let mut j: usize = end;
    assert(name.take(end - start) == name);
    while j > start && path[j - 1] != '.'
        invariant
            start <= j <= end <= path.len(),
            name == path@.subrange(start as int, end as int),
            last_dot(name) == last_dot(name.take(j - start)),
        decreases j,
    {
        assert(name.take(j - start).drop_last() == name.take(j - 1 - start));
        j -= 1;
    }
    if j - start <= 1 {
        // No dot in the final component, or only a leading one.
        None
    } else if end - start == 2 && path[start] == '.' {
        assert(name == seq!['.', '.']);
        None
    } else {
        assert(name != seq!['.', '.']) by {
            if name == seq!['.', '.'] {
                assert(name.len() == 2);
                assert(name[0] == '.');
            }
        }
        Some((j, end))
    }
}

/// Returns the file extension.
///
/// `separator` is the separator of the platform; `/` separates on every
/// platform. A path without an extension is not accepted: see
/// [`file_extension`].
pub fn get_file_extension(file_name: &str, separator: char) -> (ext: String)
    requires
        extension(file_name@, separator) is Some,
    ensures
        Some(ext@) == extension(file_name@, separator),
{
    let path = to_chars(file_name);
    let (at, end) = find_extension(&path, separator).unwrap();
    let ext = copy_range(&path, at, end);
    from_chars(&ext)
}

/// The file extension of `file_name`, where it has one.
pub fn file_extension(file_name: &str, separator: char) -> (ext: Option<String>)
    ensures
        match ext {
            Some(e) => extension(file_name@, separator) == Some(e@),
            None => extension(file_name@, separator) is None,
        },
{
    let path = to_chars(file_name);
    match find_extension(&path, separator) {
        Some((at, end)) => {
            let ext = copy_range(&path, at, end);
            Some(from_chars(&ext))
        },
        None => None,
    }
}

/// Where the source file for a path token is looked for.
pub fn resolve(token: &str, working_directory: &str, separator: char) -> (source: String)
    ensures
        source@ == resolved(token@, working_directory@, separator),
{
    let chars = to_chars(token);
    if contains_separator(&chars, separator) {
        String::from_str(token)
    } else {
        let mut source: Vec<char> = Vec::new();
        push_str(&mut source, working_directory);
        push_str(&mut source, token);
        from_chars(&source)
    }
}

/// The output directory as the target paths use it.
pub fn append_separator(directory: &str, separator: char) -> (normalized: String)
    ensures
        normalized@ == normalized_directory(directory@, separator),
{
    let mut chars = to_chars(directory);
    let n = chars.len();
    if n > 0 && chars[n - 1] != separator {
        chars.push(separator);
        from_chars(&chars)
    } else {
        String::from_str(directory)
    }
}

/// Whether `path` carries the source extension, in any mix of upper and
/// lower case.
pub fn has_source_extension(path: &str, separator: char) -> (b: bool)
    ensures
        b == is_source_file(path@, separator),
{
    let chars = to_chars(path);
    match find_extension(&chars, separator) {
        Some((at, end)) => {
            let ext = copy_range(&chars, at, end);
            let lowered = lowercase_chars(&ext);
            let expected: Vec<char> = vec!['z', 'l', 'i', 'd', 'a', 'r'];
            chars_equal(&lowered, &expected)
        },
        None => false,
    }
}

/// Where the converted copy of `source` is written, or the error that ends
/// the batch where `source` does not carry the source extension.
pub fn place_target(
    source: &str,
    short_name: &str,
    output_directory: &str,
    separator: char,
) -> (target: Result<String, BatchError>)
    ensures
        match target {
            Ok(path) => is_source_file(source@, separator) && path@ == target_path(
                source@,
                short_name@,
                output_directory@,
                separator,
            ),
            Err(error) => !is_source_file(source@, separator) && error@
                == BatchErrorModel::WrongExtension,
        },
{
    if !has_source_extension(source, separator) {
        return Err(BatchError::WrongExtension);
    }
    let mut path: Vec<char> = Vec::new();
    if output_directory.is_empty() {
        let chars = to_chars(source);
        let (at, end) = find_extension(&chars, separator).unwrap();
        path = copy_range(&chars, 0, at);
        path.push('l');
        path.push('a');
        path.push('s');
        let rest = copy_range(&chars, end, chars.len());
        push_chars(&mut path, &rest);
    } else {
        push_str(&mut path, output_directory);
        push_str(&mut path, short_name);
        path.push('.');
        path.push('l');
        path.push('a');
        path.push('s');
    }
    Ok(from_chars(&path))
}

} // verus!
