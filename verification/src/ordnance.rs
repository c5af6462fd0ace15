//! Guns: the columns of a gun's row and what they are read as, the
//! nationality of a piece, and the gun type that is drawn.

use vstd::prelude::*;
use crate::armament::{
    build_if_overridden, gun_type_field, mounted, sanitize_gun_type, sanitize_mount,
    shown_if_overridden, ArmamentView,
};
use crate::colors::{Colors, ColorsView};
use crate::common_record::{
    record_colors, record_initialized, CommonRecord, CommonRecordView, NOTE_NUMBER_PATTERN,
};
use crate::limber::{limber_parts, limbered_gun, limbered_gun_fault, reinitialize_limbered_data};
use crate::malfunction::malfunction_unknown;
use crate::metrics::{integer_or_zero, parse_integer};
use crate::movement::{
    manhandling_sanitized, repair_values, sanitize_repair_numbers, OrdnanceMovementValues,
    OrdnanceMovementValuesView, RepairValues, RepairValuesView,
};
use crate::overrides::{
    applied_all, first_unrecognized, DirectiveError, DirectiveErrorView, Overrides, OverridesView,
    MOD_DELIMITER2, NOVR_NATIONALITY, OVERRIDE_DELIMITER,
};
use crate::pattern::regex_captured;
use crate::scan::{contains_text, slice_chars, strip_char, to_chars, to_text};
use crate::text::{occurs_in, without};
use crate::text_field::{TextField, TextFieldView, DAGGER};
use crate::utils::{entries_of, extract_from, value_for};

verus! {

pub const GT_FONT_SIZE: i64 = 1100;

pub const LIMBERED_FONT_SIZE: i64 = 700;

/// The nationality of a piece: the override where there is one, else the
/// first two characters of the piece's name.
pub open spec fn nationality_of(source: Seq<char>, nationality: Seq<char>) -> Seq<char> {
    if nationality.len() > 0 {
        nationality
    } else if source.len() < 2 {
        source
    } else {
        source.subrange(0, 2)
    }
}

pub fn extract_nationality(source: &String, nationality: &String) -> (result: String)
    ensures
        result@ == nationality_of(source@, nationality@),
{
    if !nationality.as_str().is_empty() {
        nationality.clone()
    } else {
        let s = to_chars(source.as_str());
        if s.len() < 2 {
            source.clone()
        } else {
            to_text(&slice_chars(&s, 0, 2))
        }
    }
}

/// The nationality of a gun's row: the one that the override column names;
/// else the one asked for; else the first two characters of the piece's
/// name.
pub open spec fn gun_nationality_of(
    asked: Seq<char>,
    piece: Seq<char>,
    overrides: Seq<char>,
) -> Seq<char> {
    if occurs_in(NOVR_NATIONALITY@, overrides) {
        value_for(overrides, NOVR_NATIONALITY@)
    } else if asked.len() > 0 {
        asked
    } else {
        nationality_of(piece, Seq::empty())
    }
}

/// The nationality of a gun's row.
pub fn gun_nationality(asked: &String, piece: &String, overrides: &String) -> (r: String)
    ensures
        r@ == gun_nationality_of(asked@, piece@, overrides@),
{
    if contains_text(&to_chars(overrides.as_str()), &to_chars(NOVR_NATIONALITY)) {
        extract_from(overrides.as_str(), NOVR_NATIONALITY)
    } else if !asked.as_str().is_empty() {
        asked.clone()
    } else {
        let nothing = String::new();
        assert(nothing@ =~= Seq::<char>::empty());
        extract_nationality(piece, &nothing)
    }
}

/// The gun type that is drawn: the override where there is one, else the
/// row's.
pub fn shown_gun_type(gun_type: &TextField, gt_override: &String) -> (r: String)
    ensures
        r@ == if gt_override@.len() > 0 {
            gt_override@
        } else {
            gun_type.text@
        },
{
    if !gt_override.as_str().is_empty() {
        gt_override.clone()
    } else {
        gun_type.text.clone()
    }
}

/// The columns of a gun's row.
#[derive(Debug)]
pub struct GunRow {
    pub name: String,
    pub gun_type: String,
    pub target_size: String,
    pub manhandling: String,
    pub special: String,
    pub caliber: String,
    pub range: String,
    pub rof_ife: String,
    pub breakdown: String,
    pub r_x: String,
    pub limbered: String,
    pub notes: String,
    pub version: String,
    pub piece: String,
    pub overrides: String,
    pub svg_image_transform: String,
    pub comments: String,
}

/// What a `GunRecord` holds.
pub struct GunRecordView {
    pub common: CommonRecordView,
    pub gun_type: TextFieldView,
    pub movement: OrdnanceMovementValuesView,
    pub repair_or_disable: RepairValuesView,
    pub limbered: bool,
    pub limbered_data: Seq<char>,
}

/// A gun's row, read and ready to be drawn.
#[derive(Debug)]
pub struct GunRecord {
    pub common: CommonRecord,
    pub gun_type: TextField,
    pub movement: OrdnanceMovementValues,
    pub repair_or_disable: RepairValues,
    pub limbered: bool,
    pub limbered_data: String,
}

impl View for GunRecord {
    type V = GunRecordView;

    open spec fn view(&self) -> GunRecordView {
        GunRecordView {
            common: self.common@,
            gun_type: self.gun_type@,
            movement: self.movement@,
            repair_or_disable: self.repair_or_disable@,
            limbered: self.limbered,
            limbered_data: self.limbered_data@,
        }
    }
}

/// What the override column of a row overrides.
pub open spec fn gun_overrides(row: GunRow) -> OverridesView {
    applied_all(OverridesView::empty(), entries_of(row.overrides@, OVERRIDE_DELIMITER))
}

/// The colours of a row.
pub open spec fn gun_colors(row: GunRow, asked: Seq<char>) -> ColorsView {
    record_colors(gun_nationality_of(asked, row.piece@, row.overrides@), gun_overrides(row))
}

/// Why a row cannot be read, where it cannot; the first of: an entry of
/// the override column that names no key; a note column without a note
/// number; a directive of the breakdown override that is not recognized.
pub open spec fn gun_fault(row: GunRow) -> Option<DirectiveErrorView> {
    let entries = entries_of(row.overrides@, OVERRIDE_DELIMITER);
    let o = gun_overrides(row);
    if first_unrecognized(entries) is Some {
        Some(DirectiveErrorView::UnrecognizedDirective(entries[first_unrecognized(entries)->0]))
    } else if regex_captured(NOTE_NUMBER_PATTERN@, row.notes@, "keep"@) is None {
        Some(DirectiveErrorView::PatternMismatch(row.notes@))
    } else if malfunction_unknown(o.ma) is Some {
        Some(
            DirectiveErrorView::UnrecognizedDirective(
                entries_of(o.ma.malf.text, MOD_DELIMITER2)[malfunction_unknown(o.ma)->0],
            ),
        )
    } else {
        None
    }
}

/// The common part of a row that can be read: the row's fields, then the
/// mount, which the special column names, and the special ammunition,
/// which only an override gives.
#[verifier::opaque]
pub open spec fn gun_common(row: GunRow, asked: Seq<char>) -> CommonRecordView {
    let o = gun_overrides(row);
    let filled = record_initialized(
        CommonRecordView { overrides: o, ..CommonRecordView::blank() },
        gun_nationality_of(asked, row.piece@, row.overrides@),
        regex_captured(NOTE_NUMBER_PATTERN@, row.notes@, "keep"@)->0,
        row.name@,
        row.caliber@,
        row.range@,
        row.rof_ife@,
        row.breakdown@,
        row.version@,
        row.piece@,
        row.svg_image_transform@,
        row.comments@,
    );
    CommonRecordView {
        turret: mounted(row.special@, o, filled.colors),
        ma: ArmamentView {
            special_ammo: shown_if_overridden(Seq::empty(), o.special_ammo, filled.colors.text),
            ..filled.ma
        },
        ..filled
    }
}

/// How the gun of a row is moved by hand: its target size is read without
/// daggers.
#[verifier::opaque]
pub open spec fn gun_movement(row: GunRow, asked: Seq<char>) -> OrdnanceMovementValuesView {
    manhandling_sanitized(
        OrdnanceMovementValuesView::blank(),
        row.manhandling@,
        integer_or_zero(without(row.target_size@, DAGGER)),
        row.special@,
        gun_overrides(row),
        gun_colors(row, asked),
    )
}

/// What a row that can be read is read as; the gun is not limbered, and
/// the limbered column is kept as it stands.
pub open spec fn gun_record(row: GunRow, asked: Seq<char>) -> GunRecordView {
    GunRecordView {
        common: gun_common(row, asked),
        gun_type: gun_type_field(
            row.gun_type@,
            gun_overrides(row).ma.ignore,
            gun_colors(row, asked).text,
        ),
        movement: gun_movement(row, asked),
        repair_or_disable: repair_values(row.r_x@, gun_colors(row, asked).text),
        limbered: false,
        limbered_data: row.limbered@,
    }
}

/// Reads the common part of a gun's row.
fn read_gun_common(row: &GunRow, asked: &String) -> (r: Result<CommonRecord, DirectiveError>)
    ensures
        match r {
            Ok(common) => gun_fault(*row) is None && common@ == gun_common(*row, asked@)
                && common.overrides@ == gun_overrides(*row) && common.colors@ == gun_colors(
                *row,
                asked@,
            ),
            Err(e) => gun_fault(*row) == Some(e@),
        },
{
    reveal(gun_common);
    let mut common = CommonRecord::default();
    match common.overrides.sanitize(&row.overrides) {
        Err(e) => {
            return Err(e);
        },
        Ok(_) => {},
    }
    let nationality = gun_nationality(asked, &row.piece, &row.overrides);
    match common.initialize(
        &nationality,
        &row.notes,
        &row.name,
        &row.caliber,
        &row.range,
        &row.rof_ife,
        &row.breakdown,
        &row.version,
        &row.piece,
        &row.svg_image_transform,
        &row.comments,
    ) {
        Err(e) => {
            return Err(e);
        },
        Ok(_) => {},
    }
    let nothing = String::new();
    assert(nothing@ =~= Seq::<char>::empty());
    common.turret = sanitize_mount(&row.special, &common.overrides, &common.colors);
    common.ma.special_ammo = build_if_overridden(
        &nothing,
        &common.overrides.special_ammo,
        &common.colors,
    );
    Ok(common)
}

/// Reads how the gun of a row is moved by hand.
fn read_gun_movement(row: &GunRow, asked: &String, overrides: &Overrides, colors: &Colors) -> (r:
    OrdnanceMovementValues)
    requires
        overrides@ == gun_overrides(*row),
        colors@ == gun_colors(*row, asked@),
    ensures
        r@ == gun_movement(*row, asked@),
{
    reveal(gun_movement);
    let size = strip_char(&to_chars(row.target_size.as_str()), DAGGER);
    let mut movement = OrdnanceMovementValues::default();
    movement.sanitize(&row.manhandling, parse_integer(&size), &row.special, overrides, colors);
    movement
}

/// Reads the row of a gun, for the nationality `asked` where one is asked
/// for. The columns are read in a fixed order, and the first that cannot be
/// read ends the reading with its error.
pub fn sanitize_gun(row: &GunRow, asked: &String) -> (r: Result<GunRecord, DirectiveError>)
    ensures
        match r {
            Ok(record) => gun_fault(*row) is None && record@ == gun_record(*row, asked@),
            Err(e) => gun_fault(*row) == Some(e@),
        },
{
    let common = match read_gun_common(row, asked) {
        Ok(common) => common,
        Err(e) => {
            return Err(e);
        },
    };
    let gun_type = sanitize_gun_type(&row.gun_type, &common.overrides, &common.colors);
    let movement = read_gun_movement(row, asked, &common.overrides, &common.colors);
    let repair_or_disable = sanitize_repair_numbers(&row.r_x, &common.colors);
    Ok(
        GunRecord {
            common: common,
            gun_type: gun_type,
            movement: movement,
            repair_or_disable: repair_or_disable,
            limbered: false,
            limbered_data: row.limbered.clone(),
        },
    )
}

impl GunRecord {
    /// Turns the record into that of the gun when it is limbered: the
    /// record is marked, and its limbered column is read entry by entry. A
    /// directive that ends the reading comes back as an error; what was read
    /// before it stays.
    pub fn reinitialize_limbered_data(&mut self) -> (r: Result<(), DirectiveError>)
        ensures
            final(self).limbered,
            final(self).limbered_data == old(self).limbered_data,
            final(self).repair_or_disable == old(self).repair_or_disable,
            limber_parts(final(self).common@, final(self).gun_type@, final(self).movement@)
                == limbered_gun(
                limber_parts(old(self).common@, old(self).gun_type@, old(self).movement@),
                old(self).limbered_data@,
                old(self).common@.colors,
            ),
            final(self).common@ == (CommonRecordView {
                turret: final(self).common@.turret,
                overrides: final(self).common@.overrides,
                ma: final(self).common@.ma,
                malfunction: final(self).common@.malfunction,
                ..old(self).common@
            }),
            match limbered_gun_fault(
                limber_parts(old(self).common@, old(self).gun_type@, old(self).movement@),
                old(self).limbered_data@,
                old(self).common@.colors,
            ) {
                None => r is Ok,
                Some(t) => r matches Err(DirectiveError::UnrecognizedDirective(x)) && x@ == t,
            },
    {
        self.limbered = true;
        reinitialize_limbered_data(
            &mut self.common,
            &mut self.gun_type,
            &mut self.movement,
            &self.limbered_data,
        )
    }
}

} // verus!
