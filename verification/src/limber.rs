//! A gun that is limbered: the column of a row that says what changes when
//! the gun is hooked up, and the entries of that column applied in turn.

use vstd::prelude::*;
use crate::armament::{
    caliber_sanitized, ife_field, rof_field, sanitize_ife, sanitize_rof, Armament, ArmamentView,
};
use crate::colors::{Colors, ColorsView, BLACK, RED};
use crate::metrics::{integer_or_zero, parse_integer};
use crate::common_record::{CommonRecord, CommonRecordView};
use crate::malfunction::{malfunction_sanitized, malfunction_unknown, Malfunction, MalfunctionView};
use crate::movement::{
    manhandling_color, manhandling_mark, penalty_color, OrdnanceMovementValues,
    OrdnanceMovementValuesView,
};
use crate::overrides::{
    ArmamentOverridesView, DirectiveError, MalfunctionOverridesView, OverrideKey, Overrides,
    OverridesView, LIMBERED_NO_FIRE, MOD_DELIMITER2, NOVR_GT, NOVR_IFE, NOVR_MA, NOVR_MANHANDLING,
    NOVR_MB, NOVR_MOUNT, NOVR_RANGE, NOVR_ROF, NOVR_SIZE, OVERRIDE_DELIMITER,
};
use crate::scan::{contains_char, contains_text, strip_char, to_chars, to_text};
use crate::text::{occurs_in, without};
use crate::text_field::{
    built, Note, NoteAction, NoteView, TextField, TextFieldTraits, TextFieldView,
    FIVE_LOBED_ASTERISK, FIVE_LOBED_ASTERISK_UC, RANGE_FONTS,
};
use crate::turret::{string_to_turret_type, turret_type_of, Turret, TurretType, TurretView};
use crate::utils::{
    entries_of, extract_from, extract_string, extract_vector, text_between, value_for,
};

verus! {

/// The parts of a gun's row that the limbered column can change.
pub struct LimberView {
    pub turret: TurretView,
    pub gun_type: TextFieldView,
    pub overrides: OverridesView,
    pub ma: ArmamentView,
    pub malfunction: MalfunctionView,
    pub movement: OrdnanceMovementValuesView,
}

/// The parts of a row that the limbered column can change.
pub open spec fn limber_parts(
    common: CommonRecordView,
    gun_type: TextFieldView,
    movement: OrdnanceMovementValuesView,
) -> LimberView {
    LimberView {
        turret: common.turret,
        gun_type: gun_type,
        overrides: common.overrides,
        ma: common.ma,
        malfunction: common.malfunction,
        movement: movement,
    }
}

/// The key that an entry of the limbered column names: the first, in a
/// fixed order, of the keys that the column knows and that the entry
/// holds.
pub open spec fn limber_key_of(entry: Seq<char>) -> Option<OverrideKey> {
    if occurs_in(NOVR_MA@, entry) {
        Some(OverrideKey::MainArmament)
    } else if occurs_in(NOVR_MB@, entry) {
        Some(OverrideKey::MainBreakdown)
    } else if occurs_in(NOVR_GT@, entry) {
        Some(OverrideKey::GunType)
    } else if occurs_in(NOVR_SIZE@, entry) {
        Some(OverrideKey::TargetSize)
    } else if occurs_in(NOVR_MOUNT@, entry) {
        Some(OverrideKey::Mount)
    } else if occurs_in(NOVR_RANGE@, entry) {
        Some(OverrideKey::Range)
    } else if occurs_in(NOVR_ROF@, entry) {
        Some(OverrideKey::RateOfFire)
    } else if occurs_in(NOVR_IFE@, entry) {
        Some(OverrideKey::Ife)
    } else if occurs_in(NOVR_MANHANDLING@, entry) {
        Some(OverrideKey::Manhandling)
    } else {
        None
    }
}

/// The key that an entry of the limbered column names.
pub fn classify_limbered(entry: &String) -> (r: Option<OverrideKey>)
    ensures
        r == limber_key_of(entry@),
{
    let e = to_chars(entry.as_str());
    if contains_text(&e, &to_chars(NOVR_MA)) {
        Some(OverrideKey::MainArmament)
    } else if contains_text(&e, &to_chars(NOVR_MB)) {
        Some(OverrideKey::MainBreakdown)
    } else if contains_text(&e, &to_chars(NOVR_GT)) {
        Some(OverrideKey::GunType)
    } else if contains_text(&e, &to_chars(NOVR_SIZE)) {
        Some(OverrideKey::TargetSize)
    } else if contains_text(&e, &to_chars(NOVR_MOUNT)) {
        Some(OverrideKey::Mount)
    } else if contains_text(&e, &to_chars(NOVR_RANGE)) {
        Some(OverrideKey::Range)
    } else if contains_text(&e, &to_chars(NOVR_ROF)) {
        Some(OverrideKey::RateOfFire)
    } else if contains_text(&e, &to_chars(NOVR_IFE)) {
        Some(OverrideKey::Ife)
    } else if contains_text(&e, &to_chars(NOVR_MANHANDLING)) {
        Some(OverrideKey::Manhandling)
    } else {
        None
    }
}

/// The movement of a gun with the target size that the limbered column
/// gives, where it gives one: the colours of the manhandling number follow
/// the size.
pub open spec fn limbered_size(
    m: OrdnanceMovementValuesView,
    value: Seq<char>,
    colors: ColorsView,
) -> OrdnanceMovementValuesView {
    if value.len() == 0 {
        m
    } else {
        OrdnanceMovementValuesView {
            target_size: integer_or_zero(value),
            manhandling_number: TextFieldView {
                color: manhandling_color(integer_or_zero(value), colors),
                ..m.manhandling_number
            },
            unhooking_penalty_color: penalty_color(integer_or_zero(value), colors),
            ..m
        }
    }
}

/// The movement of a gun with the manhandling number that the limbered
/// column gives, where it gives one: a five-lobed glyph in it attaches the
/// mark, if none is attached yet, and leaves the number; a bold span counts
/// as an unhooking penalty, and what stands in it is the number.
pub open spec fn limbered_manhandling(
    m: OrdnanceMovementValuesView,
    value: Seq<char>,
) -> OrdnanceMovementValuesView {
    if value.len() == 0 {
        m
    } else {
        let number = without(value, FIVE_LOBED_ASTERISK);
        OrdnanceMovementValuesView {
            manhandling_number: TextFieldView {
                text: if occurs_in("<b>"@, number) {
                    text_between(number, "</b>"@, "<b>"@)
                } else {
                    number
                },
                note: if value.contains(FIVE_LOBED_ASTERISK) && m.manhandling_number.note.action
                    == NoteAction::Unset {
                    manhandling_mark()
                } else {
                    m.manhandling_number.note
                },
                ..m.manhandling_number
            },
            unhooking_penalty: occurs_in("<b>"@, number),
            ..m
        }
    }
}

/// Sets the target size that the limbered column gives.
pub fn limber_size(movement: &mut OrdnanceMovementValues, value: &String, colors: &Colors)
    ensures
        final(movement)@ == limbered_size(old(movement)@, value@, colors@),
{
    if !value.as_str().is_empty() {
        movement.target_size = parse_integer(&to_chars(value.as_str()));
        if 0 < movement.target_size {
            movement.manhandling_number.color = BLACK.to_owned();
            movement.unhooking_penalty_color = colors.unhooking_penalty_color.clone();
        } else if 0 == movement.target_size {
            movement.manhandling_number.color = colors.manhandling_fill.clone();
            movement.unhooking_penalty_color = colors.unhooking_penalty_color.clone();
        } else {
            movement.manhandling_number.color = RED.to_owned();
            movement.unhooking_penalty_color = RED.to_owned();
        }
    }
}

/// Sets the manhandling number that the limbered column gives.
pub fn limber_manhandling(movement: &mut OrdnanceMovementValues, value: &String)
    ensures
        final(movement)@ == limbered_manhandling(old(movement)@, value@),
{
    if !value.as_str().is_empty() {
        let v = to_chars(value.as_str());
        if contains_char(&v, FIVE_LOBED_ASTERISK) {
            match movement.manhandling_number.note.action {
                NoteAction::Unset => {
                    movement.manhandling_number.note = Note::new(
                        NoteAction::Infix,
                        FIVE_LOBED_ASTERISK_UC,
                    );
                },
                _ => {},
            }
        }
        let number = to_text(&strip_char(&v, FIVE_LOBED_ASTERISK));
        if contains_text(&to_chars(number.as_str()), &to_chars("<b>")) {
            movement.manhandling_number.text = extract_string(&number, "</b>", "<b>");
            movement.unhooking_penalty = true;
        } else {
            movement.manhandling_number.text = number;
            movement.unhooking_penalty = false;
        }
    }
}

/// The overrides with `text` as the override of the main armament.
pub open spec fn with_gun_text(o: OverridesView, text: Seq<char>) -> OverridesView {
    OverridesView { ma: ArmamentOverridesView { text: text, ..o.ma }, ..o }
}

/// The overrides with `text` as the override of the main armament's
/// breakdown number.
pub open spec fn with_breakdown_text(o: OverridesView, text: Seq<char>) -> OverridesView {
    OverridesView {
        ma: ArmamentOverridesView {
            malf: MalfunctionOverridesView { text: text, ..o.ma.malf },
            ..o.ma
        },
        ..o
    }
}

/// The overrides with `text` as the override of the range.
pub open spec fn with_range_text(o: OverridesView, text: Seq<char>) -> OverridesView {
    OverridesView { range_values: text, ..o }
}

/// The overrides of a gun that cannot fire: the main armament and its
/// breakdown number are ignored.
pub open spec fn without_fire(o: OverridesView) -> OverridesView {
    OverridesView {
        ma: ArmamentOverridesView {
            ignore: true,
            malf: MalfunctionOverridesView { ignore: true, ..o.ma.malf },
            ..o.ma
        },
        ..o
    }
}

/// The parts before any entry is applied: a column that holds `no_fire`
/// takes the mount and the gun type away and has the main armament and its
/// breakdown number ignored.
pub open spec fn limber_opened(s: LimberView, data: Seq<char>) -> LimberView {
    if occurs_in(LIMBERED_NO_FIRE@, data) {
        LimberView {
            turret: TurretView { speed: TurretType::NonTurreted, ..s.turret },
            gun_type: TextFieldView { text: Seq::empty(), ..s.gun_type },
            overrides: without_fire(s.overrides),
            ..s
        }
    } else {
        s
    }
}

/// The directive that ends the reading of `entry`: one of a breakdown
/// override that is not recognized.
#[verifier::opaque]
pub open spec fn limber_fault(s: LimberView, entry: Seq<char>) -> Option<Seq<char>> {
    if limber_key_of(entry) == Some(OverrideKey::MainBreakdown) {
        let o = with_breakdown_text(s.overrides, value_for(entry, NOVR_MB@));
        match malfunction_unknown(o.ma) {
            Some(k) => Some(entries_of(o.ma.malf.text, MOD_DELIMITER2)[k]),
            None => None,
        }
    } else {
        None
    }
}

/// The parts after one entry. The entry's key says what is read anew from
/// the entry's value: the caliber, the breakdown number, the gun type, the
/// target size with the colours that follow it, the mount, the range, the
/// rate of fire, the firepower, or the manhandling number. An empty gun
/// type or mount changes nothing, and neither does an entry without a key
/// that the column knows. A breakdown override with a directive that is not
/// recognized is stored, and the number is left as it was.
#[verifier::opaque]
pub open spec fn limbered(s: LimberView, entry: Seq<char>, colors: ColorsView) -> LimberView {
    match limber_key_of(entry) {
        Some(OverrideKey::MainArmament) => {
            let o = with_gun_text(s.overrides, value_for(entry, NOVR_MA@));
            LimberView { overrides: o, ma: caliber_sanitized(s.ma, s.ma.raw_caliber, o), ..s }
        },
        Some(OverrideKey::MainBreakdown) => {
            let o = with_breakdown_text(s.overrides, value_for(entry, NOVR_MB@));
            LimberView {
                overrides: o,
                malfunction: if malfunction_unknown(o.ma) is None {
                    malfunction_sanitized(s.malfunction, Seq::empty(), o.ma, colors.text)
                } else {
                    s.malfunction
                },
                ..s
            }
        },
        Some(OverrideKey::GunType) => {
            if value_for(entry, NOVR_GT@).len() > 0 {
                LimberView {
                    gun_type: TextFieldView { text: value_for(entry, NOVR_GT@), ..s.gun_type },
                    ..s
                }
            } else {
                s
            }
        },
        Some(OverrideKey::TargetSize) => LimberView {
            movement: limbered_size(s.movement, value_for(entry, NOVR_SIZE@), colors),
            ..s
        },
        Some(OverrideKey::Mount) => {
            if value_for(entry, NOVR_MOUNT@).len() > 0 {
                LimberView {
                    turret: TurretView {
                        speed: turret_type_of(value_for(entry, NOVR_MOUNT@)),
                        ..s.turret
                    },
                    ..s
                }
            } else {
                s
            }
        },
        Some(OverrideKey::Range) => {
            let text = value_for(entry, NOVR_RANGE@);
            LimberView {
                overrides: with_range_text(s.overrides, text),
                ma: ArmamentView {
                    range: TextFieldView {
                        is_set: s.ma.range.is_set,
                        ..built(Seq::empty(), text, RANGE_FONTS, colors.text, NoteView::unset())
                    },
                    ..s.ma
                },
                ..s
            }
        },
        Some(OverrideKey::RateOfFire) => LimberView {
            ma: ArmamentView { rof: rof_field(s.ma.rof.text, entry, colors.text), ..s.ma },
            ..s
        },
        Some(OverrideKey::Ife) => LimberView {
            ma: ArmamentView { ife: ife_field(s.ma.ife.text, entry, colors.text), ..s.ma },
            ..s
        },
        Some(OverrideKey::Manhandling) => LimberView {
            movement: limbered_manhandling(s.movement, value_for(entry, NOVR_MANHANDLING@)),
            ..s
        },
        _ => s,
    }
}

/// The parts after the entries were applied in their order, up to and with
/// the first entry whose reading a directive ends.
pub open spec fn limbered_all(
    s: LimberView,
    entries: Seq<Seq<char>>,
    colors: ColorsView,
) -> LimberView
    decreases entries.len(),
{
    if entries.len() == 0 {
        s
    } else if limber_fault(s, entries[0]) is Some {
        limbered(s, entries[0], colors)
    } else {
        limbered_all(limbered(s, entries[0], colors), entries.drop_first(), colors)
    }
}

/// The directive that ends the reading of the entries, where one does.
pub open spec fn limber_fault_all(
    s: LimberView,
    entries: Seq<Seq<char>>,
    colors: ColorsView,
) -> Option<Seq<char>>
    decreases entries.len(),
{
    if entries.len() == 0 {
        None
    } else if limber_fault(s, entries[0]) is Some {
        limber_fault(s, entries[0])
    } else {
        limber_fault_all(limbered(s, entries[0], colors), entries.drop_first(), colors)
    }
}

/// The parts of a gun that is limbered, by the column `data`.
pub open spec fn limbered_gun(s: LimberView, data: Seq<char>, colors: ColorsView) -> LimberView {
    limbered_all(limber_opened(s, data), entries_of(data, OVERRIDE_DELIMITER), colors)
}

/// The directive that ends the reading of the column `data`, where one
/// does.
pub open spec fn limbered_gun_fault(
    s: LimberView,
    data: Seq<char>,
    colors: ColorsView,
) -> Option<Seq<char>> {
    limber_fault_all(limber_opened(s, data), entries_of(data, OVERRIDE_DELIMITER), colors)
}

fn set_gun_text(overrides: &mut Overrides, text: String)
    ensures
        final(overrides)@ == with_gun_text(old(overrides)@, text@),
{
    overrides.ma.text = text;
}

fn set_breakdown_text(overrides: &mut Overrides, text: String)
    ensures
        final(overrides)@ == with_breakdown_text(old(overrides)@, text@),
{
    overrides.ma.malf.text = text;
}

fn set_range_text(overrides: &mut Overrides, text: String)
    ensures
        final(overrides)@ == with_range_text(old(overrides)@, text@),
{
    overrides.range_values = text;
}

fn set_without_fire(overrides: &mut Overrides)
    ensures
        final(overrides)@ == without_fire(old(overrides)@),
{
    overrides.ma.ignore = true;
    overrides.ma.malf.ignore = true;
}

/// Reads the caliber anew with the entry's value as its override.
fn limber_caliber(overrides: &mut Overrides, ma: &mut Armament, entry: &String)
    ensures
        final(overrides)@ == with_gun_text(old(overrides)@, value_for(entry@, NOVR_MA@)),
        final(ma)@ == caliber_sanitized(old(ma)@, old(ma)@.raw_caliber, final(overrides)@),
{
    set_gun_text(overrides, extract_from(entry.as_str(), NOVR_MA));
    let raw = ma.raw_caliber.clone();
    ma.sanitize_caliber(&raw, overrides);
}

/// Reads the breakdown number anew with the entry's value as its override.
fn limber_breakdown(
    overrides: &mut Overrides,
    malfunction: &mut Malfunction,
    colors: &Colors,
    entry: &String,
) -> (r: Result<(), DirectiveError>)
    ensures
        final(overrides)@ == with_breakdown_text(old(overrides)@, value_for(entry@, NOVR_MB@)),
        match malfunction_unknown(final(overrides)@.ma) {
            None => r is Ok && final(malfunction)@ == malfunction_sanitized(
                old(malfunction)@,
                Seq::empty(),
                final(overrides)@.ma,
                colors.text@,
            ),
            Some(k) => r matches Err(DirectiveError::UnrecognizedDirective(t)) && t@ == entries_of(
                final(overrides)@.ma.malf.text,
                MOD_DELIMITER2,
            )[k] && final(malfunction)@ == old(malfunction)@,
        },
{
    set_breakdown_text(overrides, extract_from(entry.as_str(), NOVR_MB));
    let nothing = String::new();
    assert(nothing@ =~= Seq::<char>::empty());
    malfunction.sanitize(&nothing, &overrides.ma, colors)
}

/// Reads the range anew from the entry's value.
fn limber_range(overrides: &mut Overrides, ma: &mut Armament, colors: &Colors, entry: &String)
    ensures
        final(overrides)@ == with_range_text(old(overrides)@, value_for(entry@, NOVR_RANGE@)),
        final(ma)@ == (ArmamentView {
            range: TextFieldView {
                is_set: old(ma)@.range.is_set,
                ..built(
                    Seq::empty(),
                    value_for(entry@, NOVR_RANGE@),
                    RANGE_FONTS,
                    colors.text@,
                    NoteView::unset(),
                )
            },
            ..old(ma)@
        }),
{
    let text = extract_from(entry.as_str(), NOVR_RANGE);
    let nothing = String::new();
    assert(nothing@ =~= Seq::<char>::empty());
    ma.range.sanitize(&nothing, &text, RANGE_FONTS, colors);
    set_range_text(overrides, text);
}

/// Reads the rate of fire anew from the entry.
fn limber_rof(ma: &mut Armament, colors: &Colors, entry: &String)
    ensures
        final(ma)@ == (ArmamentView {
            rof: rof_field(old(ma)@.rof.text, entry@, colors.text@),
            ..old(ma)@
        }),
{
    ma.rof = sanitize_rof(&ma.rof.text, entry, colors);
}

/// Reads the firepower anew from the entry.
fn limber_ife(ma: &mut Armament, colors: &Colors, entry: &String)
    ensures
        final(ma)@ == (ArmamentView {
            ife: ife_field(old(ma)@.ife.text, entry@, colors.text@),
            ..old(ma)@
        }),
{
    ma.ife = sanitize_ife(&ma.ife.text, entry, colors);
}

/// Sets the gun type that the entry gives, where it gives one.
fn limber_gun_type(gun_type: &mut TextField, entry: &String)
    ensures
        final(gun_type)@ == if value_for(entry@, NOVR_GT@).len() > 0 {
            TextFieldView { text: value_for(entry@, NOVR_GT@), ..old(gun_type)@ }
        } else {
            old(gun_type)@
        },
{
    let value = extract_from(entry.as_str(), NOVR_GT);
    if !value.as_str().is_empty() {
        gun_type.text = value;
    }
}

/// Sets the mount that the entry gives, where it gives one.
fn limber_mount(turret: &mut Turret, entry: &String)
    ensures
        final(turret)@ == if value_for(entry@, NOVR_MOUNT@).len() > 0 {
            TurretView { speed: turret_type_of(value_for(entry@, NOVR_MOUNT@)), ..old(turret)@ }
        } else {
            old(turret)@
        },
{
    let value = extract_from(entry.as_str(), NOVR_MOUNT);
    if !value.as_str().is_empty() {
        turret.speed = string_to_turret_type(&value);
    }
}

/// Takes away what a gun that cannot fire does not show.
fn limber_open(
    turret: &mut Turret,
    gun_type: &mut TextField,
    overrides: &mut Overrides,
    data: &String,
)
    ensures
        occurs_in(LIMBERED_NO_FIRE@, data@) ==> final(turret)@ == (TurretView {
            speed: TurretType::NonTurreted,
            ..old(turret)@
        }) && final(gun_type)@ == (TextFieldView { text: Seq::empty(), ..old(gun_type)@ })
            && final(overrides)@ == without_fire(old(overrides)@),
        !occurs_in(LIMBERED_NO_FIRE@, data@) ==> final(turret)@ == old(turret)@
            && final(gun_type)@ == old(gun_type)@ && final(overrides)@ == old(overrides)@,
{
    if contains_text(&to_chars(data.as_str()), &to_chars(LIMBERED_NO_FIRE)) {
        turret.speed = TurretType::NonTurreted;
        gun_type.text = String::new();
        set_without_fire(overrides);
    }
}

/// Applies one entry of the limbered column to the parts of a row.
pub fn limber_entry(
    turret: &mut Turret,
    gun_type: &mut TextField,
    overrides: &mut Overrides,
    ma: &mut Armament,
    malfunction: &mut Malfunction,
    movement: &mut OrdnanceMovementValues,
    colors: &Colors,
    entry: &String,
) -> (r: Result<(), DirectiveError>)
    ensures
        (LimberView {
            turret: final(turret)@,
            gun_type: final(gun_type)@,
            overrides: final(overrides)@,
            ma: final(ma)@,
            malfunction: final(malfunction)@,
            movement: final(movement)@,
        }) == limbered(
            LimberView {
                turret: old(turret)@,
                gun_type: old(gun_type)@,
                overrides: old(overrides)@,
                ma: old(ma)@,
                malfunction: old(malfunction)@,
                movement: old(movement)@,
            },
            entry@,
            colors@,
        ),
        match limber_fault(
            LimberView {
                turret: old(turret)@,
                gun_type: old(gun_type)@,
                overrides: old(overrides)@,
                ma: old(ma)@,
                malfunction: old(malfunction)@,
                movement: old(movement)@,
            },
            entry@,
        ) {
            None => r is Ok,
            Some(t) => r matches Err(DirectiveError::UnrecognizedDirective(x)) && x@ == t,
        },
{
    reveal(limbered);
    reveal(limber_fault);
    match classify_limbered(entry) {
        Some(OverrideKey::MainArmament) => {
            limber_caliber(overrides, ma, entry);
            Ok(())
        },
        Some(OverrideKey::MainBreakdown) => limber_breakdown(overrides, malfunction, colors, entry),
        Some(OverrideKey::GunType) => {
            limber_gun_type(gun_type, entry);
            Ok(())
        },
        Some(OverrideKey::TargetSize) => {
            limber_size(movement, &extract_from(entry.as_str(), NOVR_SIZE), colors);
            Ok(())
        },
        Some(OverrideKey::Mount) => {
            limber_mount(turret, entry);
            Ok(())
        },
        Some(OverrideKey::Range) => {
            limber_range(overrides, ma, colors, entry);
            Ok(())
        },
        Some(OverrideKey::RateOfFire) => {
            limber_rof(ma, colors, entry);
            Ok(())
        },
        Some(OverrideKey::Ife) => {
            limber_ife(ma, colors, entry);
            Ok(())
        },
        Some(OverrideKey::Manhandling) => {
            limber_manhandling(movement, &extract_from(entry.as_str(), NOVR_MANHANDLING));
            Ok(())
        },
        _ => Ok(()),
    }
}

/// Applies the entries to the parts of a row, in their order, and stops
/// behind the first whose reading a directive ends.
pub fn limber_entries(
    turret: &mut Turret,
    gun_type: &mut TextField,
    overrides: &mut Overrides,
    ma: &mut Armament,
    malfunction: &mut Malfunction,
    movement: &mut OrdnanceMovementValues,
    colors: &Colors,
    entries: &Vec<String>,
) -> (r: Result<(), DirectiveError>)
    ensures
        (LimberView {
            turret: final(turret)@,
            gun_type: final(gun_type)@,
            overrides: final(overrides)@,
            ma: final(ma)@,
            malfunction: final(malfunction)@,
            movement: final(movement)@,
        }) == limbered_all(
            LimberView {
                turret: old(turret)@,
                gun_type: old(gun_type)@,
                overrides: old(overrides)@,
                ma: old(ma)@,
                malfunction: old(malfunction)@,
                movement: old(movement)@,
            },
            entries.deep_view(),
            colors@,
        ),
        match limber_fault_all(
            LimberView {
                turret: old(turret)@,
                gun_type: old(gun_type)@,
                overrides: old(overrides)@,
                ma: old(ma)@,
                malfunction: old(malfunction)@,
                movement: old(movement)@,
            },
            entries.deep_view(),
            colors@,
        ) {
            None => r is Ok,
            Some(t) => r matches Err(DirectiveError::UnrecognizedDirective(x)) && x@ == t,
        },
{
    let ghost start = LimberView {
        turret: turret@,
        gun_type: gun_type@,
        overrides: overrides@,
        ma: ma@,
        malfunction: malfunction@,
        movement: movement@,
    };
    let ghost all = entries.deep_view();
    let mut i: usize = 0;
    assert(all.skip(0) =~= all);
    while i < entries.len()
        invariant
            i <= entries.len(),
            all == entries.deep_view(),
            start == (LimberView {
                turret: old(turret)@,
                gun_type: old(gun_type)@,
                overrides: old(overrides)@,
                ma: old(ma)@,
                malfunction: old(malfunction)@,
                movement: old(movement)@,
            }),
            limbered_all(
                LimberView {
                    turret: turret@,
                    gun_type: gun_type@,
                    overrides: overrides@,
                    ma: ma@,
                    malfunction: malfunction@,
                    movement: movement@,
                },
                all.skip(i as int),
                colors@,
            ) == limbered_all(start, all, colors@),
            limber_fault_all(
                LimberView {
                    turret: turret@,
                    gun_type: gun_type@,
                    overrides: overrides@,
                    ma: ma@,
                    malfunction: malfunction@,
                    movement: movement@,
                },
                all.skip(i as int),
                colors@,
            ) == limber_fault_all(start, all, colors@),
        decreases entries.len() - i,
    {
        let ghost before = LimberView {
            turret: turret@,
            gun_type: gun_type@,
            overrides: overrides@,
            ma: ma@,
            malfunction: malfunction@,
            movement: movement@,
        };
        proof {
            assert(all.skip(i as int)[0] == entries[i as int]@);
            assert(all.skip(i as int).drop_first() =~= all.skip(i + 1));
        }
        let step = limber_entry(
            turret,
            gun_type,
            overrides,
            ma,
            malfunction,
            movement,
            colors,
            &entries[i],
        );
        match step {
            Err(e) => {
                assert(limber_fault(before, all.skip(i as int)[0]) is Some);
                return Err(e);
            },
            Ok(_) => {
                assert(limber_fault(before, all.skip(i as int)[0]) is None);
            },
        }
        i = i + 1;
    }
    Ok(())
}

/// Applies the limbered column `data` to the parts of a row.
pub fn limber_parts_of(
    turret: &mut Turret,
    gun_type: &mut TextField,
    overrides: &mut Overrides,
    ma: &mut Armament,
    malfunction: &mut Malfunction,
    movement: &mut OrdnanceMovementValues,
    colors: &Colors,
    data: &String,
) -> (r: Result<(), DirectiveError>)
    ensures
        (LimberView {
            turret: final(turret)@,
            gun_type: final(gun_type)@,
            overrides: final(overrides)@,
            ma: final(ma)@,
            malfunction: final(malfunction)@,
            movement: final(movement)@,
        }) == limbered_gun(
            LimberView {
                turret: old(turret)@,
                gun_type: old(gun_type)@,
                overrides: old(overrides)@,
                ma: old(ma)@,
                malfunction: old(malfunction)@,
                movement: old(movement)@,
            },
            data@,
            colors@,
        ),
        match limbered_gun_fault(
            LimberView {
                turret: old(turret)@,
                gun_type: old(gun_type)@,
                overrides: old(overrides)@,
                ma: old(ma)@,
                malfunction: old(malfunction)@,
                movement: old(movement)@,
            },
            data@,
            colors@,
        ) {
            None => r is Ok,
            Some(t) => r matches Err(DirectiveError::UnrecognizedDirective(x)) && x@ == t,
        },
{
    limber_open(turret, gun_type, overrides, data);
    let entries = extract_vector(data, OVERRIDE_DELIMITER);
    limber_entries(turret, gun_type, overrides, ma, malfunction, movement, colors, &entries)
}

/// Turns the row of a gun into that of the gun when it is limbered. The
/// column `limbered_data` is read entry by entry; a breakdown override with
/// a directive that is not recognized ends the reading with an error that
/// holds the directive, and what was read before it stays. Nothing but the
/// mount, the overrides, the main armament and the breakdown number is
/// changed in the common part of the row.
pub fn reinitialize_limbered_data(
    common: &mut CommonRecord,
    gun_type: &mut TextField,
    movement: &mut OrdnanceMovementValues,
    limbered_data: &String,
) -> (r: Result<(), DirectiveError>)
    ensures
        limber_parts(final(common)@, final(gun_type)@, final(movement)@) == limbered_gun(
            limber_parts(old(common)@, old(gun_type)@, old(movement)@),
            limbered_data@,
            old(common)@.colors,
        ),
        final(common)@ == (CommonRecordView {
            turret: final(common)@.turret,
            overrides: final(common)@.overrides,
            ma: final(common)@.ma,
            malfunction: final(common)@.malfunction,
            ..old(common)@
        }),
        match limbered_gun_fault(
            limber_parts(old(common)@, old(gun_type)@, old(movement)@),
            limbered_data@,
            old(common)@.colors,
        ) {
            None => r is Ok,
            Some(t) => r matches Err(DirectiveError::UnrecognizedDirective(x)) && x@ == t,
        },
{
    limber_parts_of(
        &mut common.turret,
        gun_type,
        &mut common.overrides,
        &mut common.ma,
        &mut common.malfunction,
        movement,
        &common.colors,
        limbered_data,
    )
}

} // verus!
