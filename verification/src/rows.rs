//! What is decided of a row of the table before any of its counters is
//! drawn: whether it is read at all, for which nationality, and which piece
//! it names.

use vstd::prelude::*;
use crate::colors::{colors_of, nationality_to_colors, Colors};
use crate::overrides::{NOVR_ANNOUNCE, NOVR_IGNORE, NOVR_NATIONALITY};
use crate::scan::{contains_text, same_chars, split_once_text, to_chars, to_text};
use crate::text::{occurs_in, split_once_at};
use crate::utils::{extract_from, value_for};

verus! {

/// What is done with a row.
#[derive(PartialEq, Eq, Structural, Clone, Copy, Debug)]
pub enum RowAction {
    /// The row holds an announcement, which is printed.
    Announce,
    /// The row is passed over.
    Skip,
    /// The counters of the row are drawn.
    Generate,
}

/// What is done with a row whose override column is `overrides`: a column
/// that is the word `announce` makes the row an announcement; one that
/// holds the word `ignore` has the row passed over.
pub open spec fn row_action_of(overrides: Seq<char>) -> RowAction {
    if overrides == NOVR_ANNOUNCE@ {
        RowAction::Announce
    } else if occurs_in(NOVR_IGNORE@, overrides) {
        RowAction::Skip
    } else {
        RowAction::Generate
    }
}

/// What is done with a row whose override column is `overrides`.
pub fn row_action(overrides: &str) -> (r: RowAction)
    ensures
        r == row_action_of(overrides@),
{
    let o = to_chars(overrides);
    if same_chars(&o, &to_chars(NOVR_ANNOUNCE)) {
        RowAction::Announce
    } else if contains_text(&o, &to_chars(NOVR_IGNORE)) {
        RowAction::Skip
    } else {
        RowAction::Generate
    }
}

/// Whether a row with a nationality column is read: it is where the column
/// is filled and the override column does not hold the word `ignore`.
pub open spec fn row_is_read(nationality: Seq<char>, overrides: Seq<char>) -> bool {
    nationality.len() > 0 && !occurs_in(NOVR_IGNORE@, overrides)
}

/// Whether a row with a nationality column is read.
pub fn check_row_is_read(nationality: &str, overrides: &str) -> (r: bool)
    ensures
        r == row_is_read(nationality@, overrides@),
{
    !nationality.is_empty() && !contains_text(&to_chars(overrides), &to_chars(NOVR_IGNORE))
}

/// The first of the two texts that is not empty.
pub open spec fn chosen(preferred: Seq<char>, fallback: Seq<char>) -> Seq<char> {
    if preferred.len() > 0 {
        preferred
    } else {
        fallback
    }
}

/// The first of the two texts that is not empty.
pub fn first_filled(preferred: &str, fallback: &str) -> (r: String)
    ensures
        r@ == chosen(preferred@, fallback@),
{
    if !preferred.is_empty() {
        preferred.to_owned()
    } else {
        fallback.to_owned()
    }
}

/// The nationality of a row without a nationality column: the one asked
/// for, else the one that its overrides name.
pub fn row_nationality(asked: &str, overrides: &str) -> (r: String)
    ensures
        r@ == chosen(asked@, value_for(overrides@, NOVR_NATIONALITY@)),
{
    if !asked.is_empty() {
        asked.to_owned()
    } else {
        extract_from(overrides, NOVR_NATIONALITY)
    }
}

/// The colours of a row: those of the background that its overrides name,
/// else those of its nationality.
pub fn row_colors(background: &String, nationality: &String) -> (r: Colors)
    ensures
        r@ == colors_of(chosen(background@, nationality@)),
{
    if !background.as_str().is_empty() {
        nationality_to_colors(background)
    } else {
        nationality_to_colors(nationality)
    }
}

/// Whether a column holds the word `yes`.
pub fn is_yes(value: &str) -> (r: bool)
    ensures
        r == (value@ == "yes"@),
{
    same_chars(&to_chars(value), &to_chars("yes"))
}

/// The piece that an entry of the piece column names, and the nationality
/// for which it is drawn where the entry gives one behind an `@`.
pub open spec fn piece_target_of(piece: Seq<char>) -> (Seq<char>, Option<Seq<char>>) {
    match split_once_at(piece, "@"@) {
        Some((name, nationality)) => (name, Some(nationality)),
        None => (piece, None),
    }
}

/// The piece that an entry of the piece column names, and the nationality
/// for which it is drawn.
pub fn piece_target(piece: &str) -> (r: (String, Option<String>))
    ensures
        r.0@ == piece_target_of(piece@).0,
        match r.1 {
            Some(n) => piece_target_of(piece@).1 == Some(n@),
            None => piece_target_of(piece@).1 is None,
        },
{
    match split_once_text(&to_chars(piece), &to_chars("@")) {
        Some((name, nationality)) => (to_text(&name), Some(to_text(&nationality))),
        None => (piece.to_owned(), None),
    }
}

/// What is done for one piece of a row.
#[derive(PartialEq, Eq, Structural, Clone, Copy, Debug)]
pub enum PieceAction {
    /// A counter that exists is copied.
    Copy,
    /// The counter is drawn.
    Draw,
    /// The row names no nationality: nothing can be drawn.
    MissingNationality,
}

/// What is done for one piece: a row that asks for a copy gets one; any
/// other is drawn where it has a nationality.
pub open spec fn piece_action_of(copy: bool, nationality: Seq<char>) -> PieceAction {
    if copy {
        PieceAction::Copy
    } else if nationality.len() > 0 {
        PieceAction::Draw
    } else {
        PieceAction::MissingNationality
    }
}

/// What is done for one piece.
pub fn piece_action(copy: bool, nationality: &str) -> (r: PieceAction)
    ensures
        r == piece_action_of(copy, nationality@),
{
    if copy {
        PieceAction::Copy
    } else if !nationality.is_empty() {
        PieceAction::Draw
    } else {
        PieceAction::MissingNationality
    }
}

} // verus!
