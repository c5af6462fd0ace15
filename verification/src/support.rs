//! What is particular to support weapons: how the columns of their rows are
//! read.

use vstd::prelude::*;
use crate::classes::{count_of, parse_count};
use crate::metrics::{parse_size_delta, size_delta};
use crate::overrides::{MOD_DELIMITER1, MOD_DELIMITER2};
use crate::scan::{contains_char, replace_text, split_once_text, strip_char, to_chars, to_text};
use crate::text::{replaced, split_once_at, without};
use crate::text_field::{FIVE_LOBED_ASTERISK_TAG, FIVE_LOBED_ASTERISK_UC};
use crate::utils::{entries_of, extract_vector, lemma_entries_of_split};

verus! {

/// Where the portage points stand where the row names no place.
pub const PP_X_POSITION: i64 = 3000;

pub const PP_Y_POSITION: i64 = 2400;

/// Where the mark of a weapon that no leader directs stands where the row
/// names no place.
pub const LEADERSHIP_X_POSITION: i64 = 3900;

pub const LEADERSHIP_Y_POSITION: i64 = 2200;

/// A range or a rate of fire as it is drawn: the five-lobed tag becomes its
/// glyph.
pub fn sanitize_value(value: &str) -> (r: String)
    ensures
        r@ == replaced(value@, FIVE_LOBED_ASTERISK_TAG@, FIVE_LOBED_ASTERISK_UC@),
{
    to_text(
        &replace_text(
            &to_chars(value),
            &to_chars(FIVE_LOBED_ASTERISK_TAG),
            &to_chars(FIVE_LOBED_ASTERISK_UC),
        ),
    )
}

/// The breakdown number of a support weapon and whether its ammunition is
/// low: parentheses round the number say so, and leave it.
pub open spec fn breakdown_of(breakdown: Seq<char>) -> (Seq<char>, bool) {
    if breakdown.contains('(') {
        (without(without(breakdown, '('), ')'), true)
    } else {
        (breakdown, false)
    }
}

/// Reads the breakdown number of a support weapon.
pub fn sanitize_breakdown(breakdown: &str) -> (r: (String, bool))
    ensures
        (r.0@, r.1) == breakdown_of(breakdown@),
{
    let b = to_chars(breakdown);
    if contains_char(&b, '(') {
        (to_text(&strip_char(&strip_char(&b, '('), ')')), true)
    } else {
        (to_text(&b), false)
    }
}

/// The repair and disablement numbers of a support weapon, and the texts
/// that stand for them where neither is a number.
pub struct RepairNumbers {
    pub repair: usize,
    pub disable: usize,
    pub repair_text: String,
    pub disable_text: String,
}

/// What the repair column of a support weapon says: nothing where it is
/// empty; the two counts around a slash, and the two texts where both
/// counts are zero; or one count that holds for both.
pub open spec fn repair_of(repair: Seq<char>) -> (int, int, Seq<char>, Seq<char>) {
    if repair.len() == 0 {
        (0, 0, Seq::empty(), Seq::empty())
    } else {
        match split_once_at(repair, "/"@) {
            Some((left, right)) => if count_of(left) == 0 && count_of(right) == 0 {
                (0, 0, left, right)
            } else {
                (count_of(left), count_of(right), Seq::empty(), Seq::empty())
            },
            None => (count_of(repair), count_of(repair), Seq::empty(), Seq::empty()),
        }
    }
}

/// Reads the repair column of a support weapon.
pub fn sanitize_repair(repair: &str) -> (r: RepairNumbers)
    ensures
        (r.repair as int, r.disable as int, r.repair_text@, r.disable_text@) == repair_of(
            repair@,
        ),
{
    let t = to_chars(repair);
    let mut r = RepairNumbers {
        repair: 0,
        disable: 0,
        repair_text: String::new(),
        disable_text: String::new(),
    };
    if t.len() != 0 {
        match split_once_text(&t, &to_chars("/")) {
            Some((left, right)) => {
                r.repair = parse_count(&left);
                r.disable = parse_count(&right);
                if r.repair == 0 && r.disable == 0 {
                    r.repair_text = to_text(&left);
                    r.disable_text = to_text(&right);
                }
            },
            None => {
                r.repair = parse_count(&t);
                r.disable = r.repair;
            },
        }
    }
    r
}

/// The place that the second entry of a column names: its two numbers
/// round the colon, in hundredths of a pixel; zero for one that is missing
/// or no number.
pub open spec fn place_of(entries: Seq<Seq<char>>) -> (int, int) {
    if entries.len() < 2 {
        (0, 0)
    } else {
        let parts = entries_of(entries[1], MOD_DELIMITER1);
        (
            if parts.len() > 0 {
                size_delta(parts[0])
            } else {
                0
            },
            if parts.len() > 1 {
                size_delta(parts[1])
            } else {
                0
            },
        )
    }
}

/// The place that the second entry of a column names.
fn read_place(entries: &Vec<String>) -> (r: (i64, i64))
    ensures
        (r.0 as int, r.1 as int) == place_of(entries.deep_view()),
{
    if entries.len() < 2 {
        return (0, 0);
    }
    assert(entries.deep_view()[1] == entries[1]@);
    let parts = extract_vector(&entries[1], MOD_DELIMITER1);
    let x = if parts.len() > 0 {
        assert(parts.deep_view()[0] == parts[0]@);
        parse_size_delta(&to_chars(parts[0].as_str()))
    } else {
        0
    };
    let y = if parts.len() > 1 {
        assert(parts.deep_view()[1] == parts[1]@);
        parse_size_delta(&to_chars(parts[1].as_str()))
    } else {
        0
    };
    (x, y)
}

/// The portage points of a support weapon and where they stand: the count
/// that the column names, at the usual place; or, where the column holds
/// the modifier delimiter, the count before it at the place named behind
/// it.
pub open spec fn portage_of(pp: Seq<char>) -> (int, int, int) {
    if !pp.contains(MOD_DELIMITER2) {
        (count_of(pp), PP_X_POSITION as int, PP_Y_POSITION as int)
    } else {
        let entries = entries_of(pp, MOD_DELIMITER2);
        (count_of(entries[0]), place_of(entries).0, place_of(entries).1)
    }
}

/// Reads the portage points of a support weapon.
pub fn sanitize_pp(pp: &str) -> (r: (usize, i64, i64))
    ensures
        (r.0 as int, r.1 as int, r.2 as int) == portage_of(pp@),
{
    let text = pp.to_string();
    if !contains_char(&to_chars(pp), MOD_DELIMITER2) {
        (parse_count(&to_chars(pp)), PP_X_POSITION, PP_Y_POSITION)
    } else {
        let entries = extract_vector(&text, MOD_DELIMITER2);
        proof {
            lemma_entries_of_split(pp@, MOD_DELIMITER2);
        }
        assert(entries.deep_view()[0] == entries[0]@);
        let place = read_place(&entries);
        (parse_count(&to_chars(entries[0].as_str())), place.0, place.1)
    }
}

/// Whether a support weapon shows the mark of a weapon that no leader
/// directs, and where: it does where the column holds anything, at the
/// usual place or at the place named behind the modifier delimiter.
pub open spec fn leadership_of(leadership: Seq<char>) -> (bool, int, int) {
    if leadership.contains(MOD_DELIMITER2) {
        (
            true,
            place_of(entries_of(leadership, MOD_DELIMITER2)).0,
            place_of(entries_of(leadership, MOD_DELIMITER2)).1,
        )
    } else {
        (leadership.len() > 0, LEADERSHIP_X_POSITION as int, LEADERSHIP_Y_POSITION as int)
    }
}

/// Reads the leadership column of a support weapon.
pub fn sanitize_leadership(leadership: &str) -> (r: (bool, i64, i64))
    ensures
        (r.0, r.1 as int, r.2 as int) == leadership_of(leadership@),
{
    let text = leadership.to_string();
    if contains_char(&to_chars(leadership), MOD_DELIMITER2) {
        let entries = extract_vector(&text, MOD_DELIMITER2);
        let place = read_place(&entries);
        (true, place.0, place.1)
    } else {
        (!leadership.is_empty(), LEADERSHIP_X_POSITION, LEADERSHIP_Y_POSITION)
    }
}

} // verus!
