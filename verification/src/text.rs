//! Character-level rules shared by the argument and path handling.
//!
//! Strings are modelled as sequences of characters. The executable helpers
//! work on `Vec<char>` so that every scan is linear in the length of the text.

use vstd::prelude::*;

verus! {

/// The two quote characters.
pub open spec fn is_quote(c: char) -> bool {
    c == '"' || c == '\''
}

/// The characters that count as white space: the code points that Unicode
/// gives the property White_Space.
pub open spec fn is_whitespace(c: char) -> bool {
    let u = c as u32;
    ||| 0x09 <= u <= 0x0D
    ||| u == 0x20
    ||| u == 0x85
    ||| u == 0xA0
    ||| u == 0x1680
    ||| 0x2000 <= u <= 0x200A
    ||| u == 0x2028
    ||| u == 0x2029
    ||| u == 0x202F
    ||| u == 0x205F
    ||| u == 0x3000
}

/// `c` with an upper-case ASCII letter replaced by its lower-case form.
pub open spec fn ascii_lower(c: char) -> char {
    if 'A' <= c <= 'Z' {
        ((c as u8) + 32) as char
    } else {
        c
    }
}

/// `s` with every upper-case ASCII letter replaced by its lower-case form.
pub open spec fn ascii_lowercase(s: Seq<char>) -> Seq<char> {
    s.map_values(|c: char| ascii_lower(c))
}

/// `s` without its quote characters; the other characters keep their order.
pub open spec fn without_quotes(s: Seq<char>) -> Seq<char> {
    s.filter(|c: char| !is_quote(c))
}

/// The characters that are taken off both ends of a path token: white space
/// and quotes.
pub open spec fn is_padding(c: char) -> bool {
    is_whitespace(c) || is_quote(c)
}

/// `s` without its leading padding.
pub open spec fn trim_start(s: Seq<char>) -> Seq<char>
    decreases s.len(),
{
    if s.len() > 0 && is_padding(s[0]) {
        trim_start(s.skip(1))
    } else {
        s
    }
}

/// `s` without its trailing padding.
pub open spec fn trim_end(s: Seq<char>) -> Seq<char>
    decreases s.len(),
{
    if s.len() > 0 && is_padding(s.last()) {
        trim_end(s.drop_last())
    } else {
        s
    }
}

/// `s` without the white space and quotes around it. What stands between
/// the first and the last character that is neither is kept as it is.
pub open spec fn trim(s: Seq<char>) -> Seq<char> {
    trim_end(trim_start(s))
}

/// The pieces of `s` between occurrences of `delimiter`, read left to right:
/// every delimiter closes the current piece and opens a new, empty one.
pub open spec fn split(s: Seq<char>, delimiter: char) -> Seq<Seq<char>>
    decreases s.len(),
{
    if s.len() == 0 {
        seq![Seq::<char>::empty()]
    } else {
        let before = split(s.drop_last(), delimiter);
        if s.last() == delimiter {
            before.push(Seq::<char>::empty())
        } else {
            before.drop_last().push(before.last().push(s.last()))
        }
    }
}

/// The character sequences held by a vector of character vectors.
pub open spec fn rows(v: Seq<Vec<char>>) -> Seq<Seq<char>> {
    v.map_values(|r: Vec<char>| r@)
}

/// The character sequences held by a vector of strings.
pub open spec fn texts(v: Seq<String>) -> Seq<Seq<char>> {
    v.map_values(|s: String| s@)
}

/// The characters of `s`, in order.
pub fn to_chars(s: &str) -> (out: Vec<char>)
    ensures
        out@ == s@,
{
    let mut out: Vec<char> = Vec::new();
    for c in it: s.chars()
        invariant
            it.seq() == s@,
            out@ == s@.take(it.index() as int),
    {
        out.push(c);
    }
    out
}

/// Collects characters into a `String` through std's `FromIterator<&char>`
/// impl for `String`: the result holds exactly the given characters, in the
/// given order.
#[verifier::external_body]
pub(crate) fn from_chars(chars: &Vec<char>) -> (out: String)
    ensures
        out@ == chars@,
{
    chars.iter().collect()
}

/// Whether `c` is a quote character.
pub fn char_is_quote(c: char) -> (b: bool)
    ensures
        b == is_quote(c),
{
    c == '"' || c == '\''
}

/// Whether `c` counts as white space.
pub fn char_is_whitespace(c: char) -> (b: bool)
    ensures
        b == is_whitespace(c),
{
    let u: u32 = c as u32;
    (0x09 <= u && u <= 0x0D) || u == 0x20 || u == 0x85 || u == 0xA0 || u == 0x1680 || (0x2000 <= u
        && u <= 0x200A) || u == 0x2028 || u == 0x2029 || u == 0x202F || u == 0x205F || u
        == 0x3000
}

/// `c` with an upper-case ASCII letter replaced by its lower-case form.
pub fn char_ascii_lower(c: char) -> (out: char)
    ensures
        out == ascii_lower(c),
{
    if 'A' <= c && c <= 'Z' {
        ((c as u8) + 32) as char
    } else {
        c
    }
}

/// Copies `s` without its quote characters.
pub fn strip_quotes(s: &Vec<char>) -> (out: Vec<char>)
    ensures
        out@ == without_quotes(s@),
{
    let mut out: Vec<char> = Vec::new();
    let mut i: usize = 0;
    proof {
        reveal(Seq::filter);
    }
    while i < s.len()
        invariant
            i <= s.len(),
            out@ == without_quotes(s@.take(i as int)),
        decreases s.len() - i,
    {
        let c = s[i];
        proof {
            reveal(Seq::filter);
            assert(s@.take(i + 1).drop_last() == s@.take(i as int));
        }
        if !char_is_quote(c) {
            out.push(c);
        }
        i += 1;
    }
    assert(s@.take(s.len() as int) == s@);
    out
}

/// Copies `s` with its upper-case ASCII letters lowered.
pub fn lowercase_chars(s: &Vec<char>) -> (out: Vec<char>)
    ensures
        out@ == ascii_lowercase(s@),
{
    let mut out: Vec<char> = Vec::new();
    let mut i: usize = 0;
    while i < s.len()
        invariant
            i <= s.len(),
            out@ == ascii_lowercase(s@.take(i as int)),
        decreases s.len() - i,
    {
        out.push(char_ascii_lower(s[i]));
        i += 1;
        assert(out@ == ascii_lowercase(s@.take(i as int)));
    }
    assert(s@.take(s.len() as int) == s@);
    out
}

/// Copies the characters of `s` from position `from` up to, not including,
/// position `to`.
pub fn copy_range(s: &Vec<char>, from: usize, to: usize) -> (out: Vec<char>)
    requires
        from <= to <= s.len(),
    ensures
        out@ == s@.subrange(from as int, to as int),
{
    let mut out: Vec<char> = Vec::new();
    let mut i: usize = from;
    while i < to
        invariant
            from <= i <= to <= s.len(),
            out@ == s@.subrange(from as int, i as int),
        decreases to - i,
    {
        out.push(s[i]);
        i += 1;
    }
    out
}

/// Whether `c` is taken off the ends of a path token.
pub fn char_is_padding(c: char) -> (b: bool)
    ensures
        b == is_padding(c),
{
    char_is_whitespace(c) || char_is_quote(c)
}

/// Copies `s` without the white space and quotes around it.
pub fn trim_chars(s: &Vec<char>) -> (out: Vec<char>)
    ensures
        out@ == trim(s@),
{
    let n = s.len();
    let mut lo: usize = 0;
    assert(s@.skip(0) == s@);
    while lo < n && char_is_padding(s[lo])
        invariant
            lo <= n == s.len(),
            trim_start(s@) == trim_start(s@.skip(lo as int)),
        decreases n - lo,
    {
        assert(s@.skip(lo as int).skip(1) == s@.skip(lo + 1));
        lo += 1;
    }
    let mut hi: usize = n;
    assert(s@.skip(lo as int) == s@.subrange(lo as int, hi as int));
    while hi > lo && char_is_padding(s[hi - 1])
        invariant
            lo <= hi <= n == s.len(),
            trim(s@) == trim_end(s@.subrange(lo as int, hi as int)),
        decreases hi,
    {
        assert(s@.subrange(lo as int, hi as int).drop_last() == s@.subrange(
            lo as int,
            hi - 1,
        ));
        hi -= 1;
    }
    copy_range(s, lo, hi)
}

/// Cuts `s` at every occurrence of `delimiter`.
pub fn split_chars(s: &Vec<char>, delimiter: char) -> (pieces: Vec<Vec<char>>)
    ensures
        rows(pieces@) == split(s@, delimiter),
{
    let mut pieces: Vec<Vec<char>> = Vec::new();
    let mut current: Vec<char> = Vec::new();
    let mut i: usize = 0;
    assert(rows(pieces@).push(current@) == split(s@.take(0), delimiter));
    while i < s.len()
        invariant
            i <= s.len(),
            rows(pieces@).push(current@) == split(s@.take(i as int), delimiter),
        decreases s.len() - i,
    {
        let c = s[i];
        proof {
            assert(s@.take(i + 1).drop_last() == s@.take(i as int));
            assert(rows(pieces@).push(current@).drop_last() == rows(pieces@));
        }
        if c == delimiter {
            let ghost before = rows(pieces@);
            pieces.push(current);
            current = Vec::new();
            assert(rows(pieces@) == before.push(pieces@.last()@));
        } else {
            current.push(c);
        }
        i += 1;
    }
    assert(s@.take(s.len() as int) == s@);
    let ghost before = rows(pieces@);
    pieces.push(current);
    assert(rows(pieces@) == before.push(current@));
    pieces
}

/// Whether two character vectors hold the same text.
pub fn chars_equal(a: &Vec<char>, b: &Vec<char>) -> (same: bool)
    ensures
        same == (a@ == b@),
{
    if a.len() != b.len() {
        return false;
    }
    let mut i: usize = 0;
    while i < a.len()
        invariant
            i <= a.len() == b.len(),
            a@.take(i as int) == b@.take(i as int),
        decreases a.len() - i,
    {
        if a[i] != b[i] {
            return false;
        }
        assert(a@.take(i + 1) == a@.take(i as int).push(a@[i as int]));
        assert(b@.take(i + 1) == b@.take(i as int).push(b@[i as int]));
        i += 1;
    }
    assert(a@.take(a.len() as int) == a@);
    assert(b@.take(b.len() as int) == b@);
    true
}

/// The character for the decimal digit `d`.
pub open spec fn digit(d: nat) -> char
    recommends
        d < 10,
{
    ((48 + d) as u8) as char
}

/// The decimal numeral of `n`, without sign or leading zeros.
pub open spec fn decimal(n: nat) -> Seq<char>
    decreases n,
{
    if n < 10 {
        seq![digit(n)]
    } else {
        decimal(n / 10).push(digit(n % 10))
    }
}

/// Appends the decimal numeral of `n` to `out`.
pub fn push_decimal(out: &mut Vec<char>, n: usize)
    ensures
        final(out)@ == old(out)@ + decimal(n as nat),
    decreases n,
{
    if n >= 10 {
        push_decimal(out, n / 10);
    }
    let d: u8 = (n % 10) as u8;
    out.push((48u8 + d) as char);
}

/// Appends the characters of `s` to `out`.
pub fn push_str(out: &mut Vec<char>, s: &str)
    ensures
        final(out)@ == old(out)@ + s@,
{
    let ghost before = out@;
    for c in it: s.chars()
        invariant
            it.seq() == s@,
            out@ == before + s@.take(it.index() as int),
    {
        out.push(c);
    }
}

/// Appends the characters of `s` to `out`.
pub fn push_chars(out: &mut Vec<char>, s: &Vec<char>)
    ensures
        final(out)@ == old(out)@ + s@,
{
    let ghost before = out@;
    let mut i: usize = 0;
    while i < s.len()
        invariant
            i <= s.len(),
            out@ == before + s@.take(i as int),
        decreases s.len() - i,
    {
        out.push(s[i]);
        i += 1;
    }
    assert(s@.take(s.len() as int) == s@);
}

/// Whether `pattern` stands in `s` at position `at`.
pub open spec fn occurs_at(s: Seq<char>, pattern: Seq<char>, at: int) -> bool {
    0 <= at && at + pattern.len() <= s.len() && s.subrange(at, at + pattern.len()) == pattern
}

/// Whether `pattern` stands somewhere in `s`.
pub open spec fn contains_text(s: Seq<char>, pattern: Seq<char>) -> bool {
    exists|at: int| occurs_at(s, pattern, at)
}

/// `s` without the occurrences of `pattern`, found from the left without
/// overlap. An empty pattern removes nothing.
pub open spec fn remove_all(s: Seq<char>, pattern: Seq<char>) -> Seq<char>
    decreases s.len(),
{
    if pattern.len() == 0 || s.len() == 0 {
        s
    } else if occurs_at(s, pattern, 0) {
        remove_all(s.skip(pattern.len() as int), pattern)
    } else {
        seq![s[0]] + remove_all(s.skip(1), pattern)
    }
}

/// `s` without the character `c`.
pub open spec fn remove_char(s: Seq<char>, c: char) -> Seq<char> {
    s.filter(|x: char| x != c)
}

/// `s` with every `from` replaced by `to`.
pub open spec fn replace_char(s: Seq<char>, from: char, to: char) -> Seq<char> {
    s.map_values(
        |c: char|
            if c == from {
                to
            } else {
                c
            },
    )
}

/// Whether `pattern` stands in `s` at position `at`.
pub fn matches_at(s: &Vec<char>, pattern: &Vec<char>, at: usize) -> (b: bool)
    requires
        at <= s.len(),
    ensures
        b == occurs_at(s@, pattern@, at as int),
{
    let m = pattern.len();
    if s.len() - at < m {
        return false;
    }
    let mut j: usize = 0;
    while j < m
        invariant
            j <= m == pattern.len(),
            at + m <= s.len(),
            s@.subrange(at as int, at + j) == pattern@.take(j as int),
        decreases m - j,
    {
        if s[at + j] != pattern[j] {
            assert(s@.subrange(at as int, at + m)[j as int] != pattern@[j as int]);
            return false;
        }
        assert(s@.subrange(at as int, at + j + 1) == s@.subrange(at as int, at + j).push(
            s@[at + j],
        ));
        assert(pattern@.take(j + 1) == pattern@.take(j as int).push(pattern@[j as int]));
        j += 1;
    }
    assert(pattern@.take(m as int) == pattern@);
    true
}

/// Whether `pattern` stands somewhere in `s`.
pub fn find_text(s: &Vec<char>, pattern: &Vec<char>) -> (b: bool)
    ensures
        b == contains_text(s@, pattern@),
{
    let mut i: usize = 0;
    while i < s.len()
        invariant
            i <= s.len(),
            forall|at: int| 0 <= at < i ==> !occurs_at(s@, pattern@, at),
        decreases s.len() - i,
    {
        if matches_at(s, pattern, i) {
            return true;
        }
        i += 1;
    }
    matches_at(s, pattern, i)
}

/// Copies `s` without the occurrences of `pattern`.
pub fn remove_text(s: &Vec<char>, pattern: &Vec<char>) -> (out: Vec<char>)
    ensures
        out@ == remove_all(s@, pattern@),
{
    let n = s.len();
    let m = pattern.len();
    let mut out: Vec<char> = Vec::new();
    if m == 0 {
        push_chars(&mut out, s);
        return out;
    }
    let mut i: usize = 0;
    assert(s@.skip(0) == s@);
    while i < n
        invariant
            i <= n == s.len(),
            0 < m == pattern.len(),
            remove_all(s@, pattern@) == out@ + remove_all(s@.skip(i as int), pattern@),
        decreases n - i,
    {
        let ghost rest = s@.skip(i as int);
        let found = matches_at(s, pattern, i);
        proof {
            if i + m <= n {
                assert(rest.subrange(0, m as int) == s@.subrange(i as int, i + m));
            }
            assert(found == occurs_at(rest, pattern@, 0));
        }
        if found {
            assert(rest.skip(m as int) == s@.skip(i + m));
            i += m;
        } else {
            assert(rest.skip(1) == s@.skip(i + 1));
            out.push(s[i]);
            i += 1;
        }
        assert(remove_all(s@, pattern@) == out@ + remove_all(s@.skip(i as int), pattern@));
    }
    assert(out@ + Seq::<char>::empty() == out@);
    out
}

/// Copies `s` without the character `c`.
pub fn remove_char_in(s: &Vec<char>, c: char) -> (out: Vec<char>)
    ensures
        out@ == remove_char(s@, c),
{
    let mut out: Vec<char> = Vec::new();
    let mut i: usize = 0;
    proof {
        reveal(Seq::filter);
    }
    while i < s.len()
        invariant
            i <= s.len(),
            out@ == remove_char(s@.take(i as int), c),
        decreases s.len() - i,
    {
        proof {
            reveal(Seq::filter);
            assert(s@.take(i + 1).drop_last() == s@.take(i as int));
        }
        if s[i] != c {
            out.push(s[i]);
        }
        i += 1;
    }
    assert(s@.take(s.len() as int) == s@);
    out
}

/// Copies `s` with every `from` replaced by `to`.
pub fn replace_char_in(s: &Vec<char>, from: char, to: char) -> (out: Vec<char>)
    ensures
        out@ == replace_char(s@, from, to),
{
    let mut out: Vec<char> = Vec::new();
    let mut i: usize = 0;
    while i < s.len()
        invariant
            i <= s.len(),
            out@ == replace_char(s@.take(i as int), from, to),
        decreases s.len() - i,
    {
        let c = s[i];
        out.push(if c == from { to } else { c });
        i += 1;
        assert(out@ == replace_char(s@.take(i as int), from, to));
    }
    assert(s@.take(s.len() as int) == s@);
    out
}

/// `pieces` written out with `delimiter` between neighbours.
pub open spec fn joined(pieces: Seq<Seq<char>>, delimiter: char) -> Seq<char>
    decreases pieces.len(),
{
    if pieces.len() == 0 {
        Seq::empty()
    } else if pieces.len() == 1 {
        pieces[0]
    } else {
        joined(pieces.drop_last(), delimiter).push(delimiter) + pieces.last()
    }
}

/// Appends `pieces` to `out`, with `delimiter` between neighbours.
pub fn push_joined(out: &mut Vec<char>, pieces: &Vec<Vec<char>>, delimiter: char)
    ensures
        final(out)@ == old(out)@ + joined(rows(pieces@), delimiter),
{
    let ghost before = out@;
    let ghost all = rows(pieces@);
    let mut i: usize = 0;
    assert(all.take(0) == Seq::<Seq<char>>::empty());
    assert(before + joined(all.take(0), delimiter) == before);
    while i < pieces.len()
        invariant
            i <= pieces.len(),
            all == rows(pieces@),
            out@ == before + joined(all.take(i as int), delimiter),
        decreases pieces.len() - i,
    {
        proof {
            assert(all.take(i + 1).drop_last() == all.take(i as int));
            assert(all.take(i + 1).last() == pieces@[i as int]@);
            if i == 0 {
                assert(all.take(1)[0] == pieces@[0]@);
            }
        }
        if i > 0 {
            out.push(delimiter);
        }
        push_chars(out, &pieces[i]);
        i += 1;
        assert(out@ == before + joined(all.take(i as int), delimiter));
    }
    assert(all.take(pieces.len() as int) == all);
}

/// The number of times `c` occurs in `s`.
pub open spec fn occurrences(s: Seq<char>, c: char) -> nat
    decreases s.len(),
{
    if s.len() == 0 {
        0
    } else {
        occurrences(s.drop_last(), c) + if s.last() == c {
            1nat
        } else {
            0nat
        }
    }
}

/// Splitting yields one piece more than there are delimiters; no piece holds
/// the delimiter; and the pieces joined by the delimiter give the text back.
pub proof fn law_split(s: Seq<char>, delimiter: char)
    ensures
        split(s, delimiter).len() == occurrences(s, delimiter) + 1,
        forall|i: int, j: int|
            0 <= i < split(s, delimiter).len() && 0 <= j < split(s, delimiter)[i].len() ==> (
            #[trigger] split(s, delimiter)[i][j]) != delimiter,
        joined(split(s, delimiter), delimiter) == s,
    decreases s.len(),
{
    let pieces = split(s, delimiter);
    if s.len() == 0 {
        assert(joined(pieces, delimiter) == s);
    } else {
        let front = s.drop_last();
        let before = split(front, delimiter);
        law_split(front, delimiter);
        if s.last() == delimiter {
            assert(pieces.drop_last() == before);
            assert(joined(pieces, delimiter) == joined(before, delimiter).push(delimiter)
                + Seq::<char>::empty());
            assert(joined(pieces, delimiter) == front.push(delimiter));
            assert(front.push(delimiter) == s);
        } else {
            let last = before.last().push(s.last());
            assert(pieces == before.drop_last().push(last));
            assert(pieces.drop_last() == before.drop_last());
            if before.len() == 1 {
                assert(joined(before, delimiter) == before[0]);
                assert(joined(pieces, delimiter) == last);
                assert(last == s);
            } else {
                let head = joined(before.drop_last(), delimiter).push(delimiter);
                assert(joined(before, delimiter) == head + before.last());
                assert(joined(pieces, delimiter) == head + last);
                assert(head + last == (head + before.last()).push(s.last()));
                assert(front.push(s.last()) == s);
            }
            assert forall|i: int, j: int|
                0 <= i < pieces.len() && 0 <= j < pieces[i].len() implies (
            #[trigger] pieces[i][j]) != delimiter by {
                if i < pieces.len() - 1 {
                    assert(pieces[i] == before[i]);
                } else if j < before.last().len() {
                    assert(pieces[i][j] == before.last()[j]);
                }
            }
        }
    }
}

/// What is left of `s` without its leading padding is a tail of `s` that
/// does not start with padding.
pub proof fn lemma_trim_start(s: Seq<char>)
    ensures
        trim_start(s).len() <= s.len(),
        trim_start(s) == s.skip(s.len() - trim_start(s).len()),
        trim_start(s).len() > 0 ==> !is_padding(trim_start(s)[0]),
    decreases s.len(),
{
    if s.len() > 0 && is_padding(s[0]) {
        let rest = s.skip(1);
        lemma_trim_start(rest);
        assert(rest.skip(rest.len() - trim_start(rest).len()) == s.skip(
            s.len() - trim_start(s).len(),
        ));
    } else {
        assert(s.skip(0) == s);
    }
}

/// What is left of `s` without its trailing padding is a front of `s` that
/// does not end in padding.
pub proof fn lemma_trim_end(s: Seq<char>)
    ensures
        trim_end(s).len() <= s.len(),
        trim_end(s) == s.take(trim_end(s).len() as int),
        trim_end(s).len() > 0 ==> !is_padding(trim_end(s).last()),
    decreases s.len(),
{
    if s.len() > 0 && is_padding(s.last()) {
        let front = s.drop_last();
        lemma_trim_end(front);
        assert(front.take(trim_end(front).len() as int) == s.take(trim_end(s).len() as int));
    } else {
        assert(s.take(s.len() as int) == s);
    }
}

} // verus!
