//! The input list: the path tokens named by one delimited argument.

use crate::text::{
    from_chars, is_padding, law_split, lemma_trim_end, lemma_trim_start, occurrences, rows, split,
    split_chars, texts, to_chars, trim, trim_chars, trim_end, trim_start,
};
use vstd::prelude::*;

verus! {

/// A path token as the batch uses it: the piece without the white space and
/// quotes around it. Quotes and white space inside the token stay.
pub open spec fn clean_token(piece: Seq<char>) -> Seq<char> {
    trim(piece)
}

/// The pieces that the argument is cut into: at its semicolons, or at its
/// commas where it holds no semicolon.
pub open spec fn list_pieces(input_files: Seq<char>) -> Seq<Seq<char>> {
    let by_semicolon = split(input_files, ';');
    if by_semicolon.len() == 1 {
        split(input_files, ',')
    } else {
        by_semicolon
    }
}

/// The path tokens named by the argument, in its order.
pub open spec fn input_list(input_files: Seq<char>) -> Seq<Seq<char>> {
    list_pieces(input_files).map_values(|piece: Seq<char>| clean_token(piece))
}

/// The input list is never empty: an argument without a delimiter names one
/// token, and every semicolon, or every comma where there is no semicolon,
/// adds one.
pub proof fn law_input_list_len(input_files: Seq<char>)
    ensures
        input_list(input_files).len() >= 1,
        input_list(input_files).len() == if occurrences(input_files, ';') > 0 {
            occurrences(input_files, ';') + 1
        } else {
            occurrences(input_files, ',') + 1
        },
{
    law_split(input_files, ';');
    law_split(input_files, ',');
}

/// A clean token is a stretch of its piece that neither starts nor ends
/// with white space or a quote, and nothing but white space and quotes is
/// taken off: a piece without either at its ends is its own token.
pub proof fn law_clean_token(piece: Seq<char>)
    ensures
        clean_token(piece).len() > 0 ==> !is_padding(clean_token(piece)[0]) && !is_padding(
            clean_token(piece).last(),
        ),
        exists|from: int|
            0 <= from && from + clean_token(piece).len() <= piece.len() && clean_token(piece)
                == #[trigger] piece.subrange(from, from + clean_token(piece).len()),
        piece.len() > 0 && !is_padding(piece[0]) && !is_padding(piece.last()) ==> clean_token(piece)
            == piece,
{
    let tail = trim_start(piece);
    let token = trim_end(tail);
    lemma_trim_start(piece);
    lemma_trim_end(tail);
    if token.len() > 0 {
        assert(token[0] == tail[0]);
    }
    let from = piece.len() - tail.len();
    assert(token == piece.subrange(from, from + token.len()));
}

/// The path tokens named by a delimited argument.
pub fn split_input_list(input_files: &str) -> (list: Vec<String>)
    ensures
        texts(list@) == input_list(input_files@),
        list.len() >= 1,
{
    let chars = to_chars(input_files);
    let mut pieces = split_chars(&chars, ';');
    if pieces.len() == 1 {
        pieces = split_chars(&chars, ',');
    }
    proof {
        law_input_list_len(input_files@);
    }
    assert(rows(pieces@) == list_pieces(input_files@));
    let mut list: Vec<String> = Vec::new();
    let mut i: usize = 0;
    while i < pieces.len()
        invariant
            i <= pieces.len(),
            rows(pieces@) == list_pieces(input_files@),
            texts(list@) == input_list(input_files@).take(i as int),
        decreases pieces.len() - i,
    {
        let token = trim_chars(&pieces[i]);
        let ghost before = texts(list@);
        list.push(from_chars(&token));
        assert(rows(pieces@)[i as int] == pieces@[i as int]@);
        assert(texts(list@) == before.push(token@));
        i += 1;
        assert(texts(list@) == input_list(input_files@).take(i as int));
    }
    assert(input_list(input_files@).take(pieces.len() as int) == input_list(input_files@));
    list
}

} // verus!
