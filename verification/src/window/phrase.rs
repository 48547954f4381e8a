//! Phrases that are put together from messages in the window's language and
//! from texts that are the same in all of them.

use crate::table::Table;
use crate::text::{decimal, push_decimal, push_text};
use vstd::prelude::*;

verus! {

/// A piece of a phrase.
#[derive(Debug)]
pub enum Piece {
    /// A message of the catalog, by its key.
    Message(&'static str),
    /// A text that stands as it is.
    Text(String),
    /// A fixed text, such as a mark between two others.
    Mark(&'static str),
    Number(u64),
}

/// What a [`Piece`] holds.
pub enum PieceView {
    Message(Seq<char>),
    Text(Seq<char>),
    Number(nat),
}

impl View for Piece {
    type V = PieceView;

    open spec fn view(&self) -> PieceView {
        match self {
            Piece::Message(key) => PieceView::Message(key@),
            Piece::Text(text) => PieceView::Text(text@),
            Piece::Mark(mark) => PieceView::Text(mark@),
            Piece::Number(number) => PieceView::Number(*number as nat),
        }
    }
}

/// What a phrase holds.
pub open spec fn phrase(pieces: Seq<Piece>) -> Seq<PieceView> {
    pieces.map_values(|piece: Piece| piece@)
}

/// A piece as it is written, with `messages` the catalog. A message that the
/// catalog lacks is written as its key.
pub open spec fn spelled(piece: PieceView, messages: Map<Seq<char>, String>) -> Seq<char> {
    match piece {
        PieceView::Message(key) => if messages.contains_key(key) {
            messages[key]@
        } else {
            key
        },
        PieceView::Text(text) => text,
        PieceView::Number(number) => decimal(number),
    }
}

/// The first `upto` pieces of a phrase as they are written, one after another.
pub open spec fn composed(
    pieces: Seq<PieceView>,
    messages: Map<Seq<char>, String>,
    upto: int,
) -> Seq<char>
    decreases upto,
{
    if upto <= 0 {
        seq![]
    } else {
        composed(pieces, messages, upto - 1) + spelled(pieces[upto - 1], messages)
    }
}

/// A phrase as it is written.
pub fn compose(pieces: &Vec<Piece>, messages: &Table<String>) -> (text: String)
    ensures
        text@ == composed(phrase(pieces@), messages@, pieces@.len() as int),
{
    let mut text = String::new();
    let mut i: usize = 0;
    while i < pieces.len()
        invariant
            i <= pieces@.len(),
            text@ == composed(phrase(pieces@), messages@, i as int),
        decreases pieces@.len() - i,
    {
        let ghost before = text@;
        match &pieces[i] {
            Piece::Message(key) => match messages.get(key) {
                Some(message) => push_text(&mut text, message.as_str()),
                None => push_text(&mut text, key),
            },
            Piece::Text(written) => push_text(&mut text, written.as_str()),
            Piece::Mark(mark) => push_text(&mut text, mark),
            Piece::Number(number) => push_decimal(&mut text, *number),
        }
        assert(text@ == before + spelled(phrase(pieces@)[i as int], messages@));
        i += 1;
    }
    text
}

/// Puts a phrase behind another.
pub fn append(pieces: &mut Vec<Piece>, more: Vec<Piece>)
    ensures
        phrase(final(pieces)@) == phrase(old(pieces)@) + phrase(more@),
{
    let mut rest = more;
    pieces.append(&mut rest);
    assert(phrase(pieces@) =~= phrase(old(pieces)@) + phrase(more@));
}

/// Puts a piece behind a phrase.
pub fn push(pieces: &mut Vec<Piece>, piece: Piece)
    ensures
        phrase(final(pieces)@) == phrase(old(pieces)@).push(piece@),
{
    pieces.push(piece);
    assert(phrase(pieces@) =~= phrase(old(pieces)@).push(piece@));
}

} // verus!
