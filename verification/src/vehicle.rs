//! The row of a vehicle: its columns, and what they are read as.

use vstd::prelude::*;
use crate::armament::{
    armament_sanitized, build_if_overridden, mounted, sanitize_mount, shown_if_overridden, Armament,
    ArmamentView,
};
use crate::armor::{armor_initialized, armor_values_of, ArmorValues, ArmorValuesView};
use crate::colors::{Colors, ColorsView};
use crate::common_record::{
    record_colors, record_initialized, CommonRecord, CommonRecordView, NOTE_NUMBER_PATTERN,
};
use crate::machine_guns::{guns_sanitized, guns_unknown, MachineGuns, MachineGunsView};
use crate::malfunction::{malfunction_sanitized, malfunction_unknown, Malfunction, MalfunctionView};
use crate::movement::{
    movement_sanitized, movement_subject, VehicleMovementValues, VehicleMovementValuesView,
};
use crate::overrides::{
    applied_all, first_unrecognized, DirectiveError, DirectiveErrorView, Overrides, OverridesView,
    MOD_DELIMITER2, NOVR_NATIONALITY, OVERRIDE_DELIMITER,
};
use crate::pattern::{regex_captured, regex_replaced};
use crate::rows::{chosen, row_nationality};
use crate::transport::{transport_settled, TransportValues, TransportValuesView};
use crate::utils::{entries_of, note_pattern, note_settled, value_for};

verus! {

/// The columns of a vehicle's row.
#[derive(Debug)]
pub struct VehicleRow {
    pub name: String,
    pub size: String,
    pub af: String,
    pub ta: String,
    pub ot: String,
    pub mp: String,
    pub gp: String,
    pub gt: String,
    pub ma: String,
    pub rof_ife: String,
    pub breakdown: String,
    pub bmg: String,
    pub cmg: String,
    pub aamg: String,
    pub sa: String,
    pub ammunition: String,
    pub transport: String,
    pub notes: String,
    pub version: String,
    pub piece: String,
    pub overrides: String,
    pub svg_image_transform: String,
    pub comments: String,
}

/// What a `VehicleRecord` holds.
pub struct VehicleRecordView {
    pub common: CommonRecordView,
    pub sa: ArmamentView,
    pub sa_malfunction: MalfunctionView,
    pub mgs: MachineGunsView,
    pub armor: ArmorValuesView,
    pub movement_values: VehicleMovementValuesView,
    pub transport_values: TransportValuesView,
}

/// A vehicle's row, read and ready to be drawn.
#[derive(Debug)]
pub struct VehicleRecord {
    pub common: CommonRecord,
    pub sa: Armament,
    pub sa_malfunction: Malfunction,
    pub mgs: MachineGuns,
    pub armor: ArmorValues,
    pub movement_values: VehicleMovementValues,
    pub transport_values: TransportValues,
}

impl View for VehicleRecord {
    type V = VehicleRecordView;

    open spec fn view(&self) -> VehicleRecordView {
        VehicleRecordView {
            common: self.common@,
            sa: self.sa@,
            sa_malfunction: self.sa_malfunction@,
            mgs: self.mgs@,
            armor: self.armor@,
            movement_values: self.movement_values@,
            transport_values: self.transport_values@,
        }
    }
}

/// What the override column of a row overrides.
pub open spec fn vehicle_overrides(row: VehicleRow) -> OverridesView {
    applied_all(OverridesView::empty(), entries_of(row.overrides@, OVERRIDE_DELIMITER))
}

/// The nationality that a row is read for: the one asked for, else the one
/// that its override column names.
pub open spec fn vehicle_nationality(row: VehicleRow, asked: Seq<char>) -> Seq<char> {
    chosen(asked, value_for(row.overrides@, NOVR_NATIONALITY@))
}

/// The colours of a row.
pub open spec fn vehicle_colors(row: VehicleRow, asked: Seq<char>) -> ColorsView {
    record_colors(vehicle_nationality(row, asked), vehicle_overrides(row))
}

/// The transport column of a row without its daggered notes, where they
/// can be taken out.
#[verifier::opaque]
pub open spec fn vehicle_transport(row: VehicleRow) -> Option<Seq<char>> {
    note_settled(
        row.transport@,
        regex_replaced(note_pattern(row.transport@), row.transport@, Seq::empty()),
    )
}

/// How the vehicle of a row moves, where that can be read.
#[verifier::opaque]
pub open spec fn vehicle_movement(row: VehicleRow, asked: Seq<char>) -> Option<
    VehicleMovementValuesView,
> {
    movement_sanitized(
        VehicleMovementValuesView::blank(),
        row.name@,
        row.mp@,
        row.gp@,
        vehicle_overrides(row),
        row.ot@.len() > 0,
        vehicle_colors(row, asked),
    )
}

/// Why a row cannot be read, where it cannot; the first of: an entry of
/// the override column that names no key; a note column without a note
/// number; a directive of the breakdown override of the main armament, or
/// of the secondary one, that is not recognized; a name or movement points
/// from which the movement cannot be read; a transport column whose daggers
/// cannot be taken out; a directive of the machine-gun override that is not
/// recognized.
pub open spec fn vehicle_fault(row: VehicleRow, asked: Seq<char>) -> Option<DirectiveErrorView> {
    let entries = entries_of(row.overrides@, OVERRIDE_DELIMITER);
    let o = vehicle_overrides(row);
    if first_unrecognized(entries) is Some {
        Some(DirectiveErrorView::UnrecognizedDirective(entries[first_unrecognized(entries)->0]))
    } else if regex_captured(NOTE_NUMBER_PATTERN@, row.notes@, "keep"@) is None {
        Some(DirectiveErrorView::PatternMismatch(row.notes@))
    } else if malfunction_unknown(o.ma) is Some {
        Some(
            DirectiveErrorView::UnrecognizedDirective(
                entries_of(o.ma.malf.text, MOD_DELIMITER2)[malfunction_unknown(o.ma)->0],
            ),
        )
    } else if malfunction_unknown(o.sa) is Some {
        Some(
            DirectiveErrorView::UnrecognizedDirective(
                entries_of(o.sa.malf.text, MOD_DELIMITER2)[malfunction_unknown(o.sa)->0],
            ),
        )
    } else if vehicle_movement(row, asked) is None {
        Some(DirectiveErrorView::PatternMismatch(movement_subject(row.name@, row.mp@, o)))
    } else if vehicle_transport(row) is None {
        Some(DirectiveErrorView::PatternMismatch(row.transport@))
    } else if guns_unknown(o) is Some {
        Some(
            DirectiveErrorView::UnrecognizedDirective(
                entries_of(o.machine_guns, MOD_DELIMITER2)[guns_unknown(o)->0],
            ),
        )
    } else {
        None
    }
}

/// The common part of a row that can be read: the row's fields, then the
/// mount and the special ammunition.
#[verifier::opaque]
pub open spec fn vehicle_common(row: VehicleRow, asked: Seq<char>) -> CommonRecordView {
    let o = vehicle_overrides(row);
    let filled = record_initialized(
        CommonRecordView { overrides: o, ..CommonRecordView::blank() },
        vehicle_nationality(row, asked),
        regex_captured(NOTE_NUMBER_PATTERN@, row.notes@, "keep"@)->0,
        row.name@,
        row.ma@,
        Seq::empty(),
        row.rof_ife@,
        row.breakdown@,
        row.version@,
        row.piece@,
        row.svg_image_transform@,
        row.comments@,
    );
    CommonRecordView {
        turret: mounted(row.gt@, o, filled.colors),
        ma: ArmamentView {
            special_ammo: shown_if_overridden(row.ammunition@, o.special_ammo, filled.colors.text),
            ..filled.ma
        },
        ..filled
    }
}

/// The secondary armament of a row: read where the row or its overrides
/// give one.
#[verifier::opaque]
pub open spec fn vehicle_secondary(row: VehicleRow, asked: Seq<char>) -> ArmamentView {
    let o = vehicle_overrides(row);
    if row.sa@.len() > 0 || o.sa.text.len() > 0 {
        armament_sanitized(
            ArmamentView { is_secondary: true, ..ArmamentView::blank() },
            row.sa@,
            Seq::empty(),
            Seq::empty(),
            o,
            vehicle_colors(row, asked).text,
        )
    } else {
        ArmamentView::blank()
    }
}

/// The breakdown number of the secondary armament, which only an override
/// gives.
#[verifier::opaque]
pub open spec fn vehicle_secondary_breakdown(row: VehicleRow, asked: Seq<char>) -> MalfunctionView {
    malfunction_sanitized(
        MalfunctionView::blank(),
        Seq::empty(),
        vehicle_overrides(row).sa,
        vehicle_colors(row, asked).text,
    )
}

/// The machine guns of a row.
#[verifier::opaque]
pub open spec fn vehicle_guns(row: VehicleRow, asked: Seq<char>) -> MachineGunsView {
    guns_sanitized(
        MachineGunsView::blank(),
        row.bmg@,
        row.cmg@,
        row.aamg@,
        vehicle_overrides(row),
        vehicle_colors(row, asked).text,
    )
}

/// The armour of a row.
#[verifier::opaque]
pub open spec fn vehicle_armor(row: VehicleRow, asked: Seq<char>) -> ArmorValuesView {
    armor_initialized(
        ArmorValuesView::blank(),
        row.af@,
        row.ta@,
        row.size@,
        vehicle_overrides(row),
        vehicle_colors(row, asked),
    )
}

/// The passenger, towing and manhandling numbers of a row, where its
/// transport column can be read.
#[verifier::opaque]
pub open spec fn vehicle_numbers(row: VehicleRow, asked: Seq<char>) -> TransportValuesView {
    transport_settled(
        TransportValuesView::blank(),
        vehicle_transport(row)->0,
        vehicle_overrides(row),
        vehicle_colors(row, asked).text,
    )
}

/// What a row that can be read is read as.
pub open spec fn vehicle_record(row: VehicleRow, asked: Seq<char>) -> VehicleRecordView {
    VehicleRecordView {
        common: vehicle_common(row, asked),
        sa: vehicle_secondary(row, asked),
        sa_malfunction: vehicle_secondary_breakdown(row, asked),
        mgs: vehicle_guns(row, asked),
        armor: vehicle_armor(row, asked),
        movement_values: vehicle_movement(row, asked)->0,
        transport_values: vehicle_numbers(row, asked),
    }
}

/// Whether the armour factors of a row are two or three in number.
pub open spec fn armor_is_whole(row: VehicleRow) -> bool {
    armor_values_of(row.af@).len() == 2 || armor_values_of(row.af@).len() == 3
}

/// Reads the common part of a vehicle's row.
fn read_common(row: &VehicleRow, asked: &String) -> (r: Result<CommonRecord, DirectiveError>)
    ensures
        match r {
            Ok(common) => first_unrecognized(entries_of(row.overrides@, OVERRIDE_DELIMITER)) is None
                && regex_captured(NOTE_NUMBER_PATTERN@, row.notes@, "keep"@) is Some
                && malfunction_unknown(vehicle_overrides(*row).ma) is None && common@
                == vehicle_common(*row, asked@) && common.overrides@ == vehicle_overrides(*row)
                && common.colors@ == vehicle_colors(*row, asked@),
            Err(e) => vehicle_fault(*row, asked@) == Some(e@) && (first_unrecognized(
                entries_of(row.overrides@, OVERRIDE_DELIMITER),
            ) is Some || regex_captured(NOTE_NUMBER_PATTERN@, row.notes@, "keep"@) is None
                || malfunction_unknown(vehicle_overrides(*row).ma) is Some),
        },
{
    reveal(vehicle_common);
    let mut common = CommonRecord::default();
    match common.overrides.sanitize(&row.overrides) {
        Err(e) => {
            return Err(e);
        },
        Ok(_) => {},
    }
    let nationality = row_nationality(asked.as_str(), row.overrides.as_str());
    let nothing = String::new();
    assert(nothing@ =~= Seq::<char>::empty());
    match common.initialize(
        &nationality,
        &row.notes,
        &row.name,
        &row.ma,
        &nothing,
        &row.rof_ife,
        &row.breakdown,
        &row.version,
        &row.piece,
        &row.svg_image_transform,
        &row.comments,
    ) {
        Err(e) => {
            return Err(e);
        },
        Ok(_) => {},
    }
    common.turret = sanitize_mount(&row.gt, &common.overrides, &common.colors);
    common.ma.special_ammo = build_if_overridden(
        &row.ammunition,
        &common.overrides.special_ammo,
        &common.colors,
    );
    Ok(common)
}

/// Reads the secondary armament of a row.
fn read_secondary(row: &VehicleRow, asked: &String, overrides: &Overrides, colors: &Colors) -> (r:
    Armament)
    requires
        overrides@ == vehicle_overrides(*row),
        colors@ == vehicle_colors(*row, asked@),
    ensures
        r@ == vehicle_secondary(*row, asked@),
{
    reveal(vehicle_secondary);
    let nothing = String::new();
    assert(nothing@ =~= Seq::<char>::empty());
    let mut sa = Armament::default();
    if !row.sa.as_str().is_empty() || !overrides.sa.text.as_str().is_empty() {
        sa.is_secondary = true;
        sa.sanitize(&row.sa, &nothing, &nothing, overrides, colors);
    }
    sa
}

/// Reads the breakdown number of the secondary armament.
fn read_secondary_breakdown(
    row: &VehicleRow,
    asked: &String,
    overrides: &Overrides,
    colors: &Colors,
) -> (r: Result<Malfunction, DirectiveError>)
    requires
        overrides@ == vehicle_overrides(*row),
        colors@ == vehicle_colors(*row, asked@),
    ensures
        match r {
            Ok(m) => malfunction_unknown(vehicle_overrides(*row).sa) is None && m@
                == vehicle_secondary_breakdown(*row, asked@),
            Err(e) => malfunction_unknown(vehicle_overrides(*row).sa) is Some && e@
                == DirectiveErrorView::UnrecognizedDirective(
                entries_of(vehicle_overrides(*row).sa.malf.text, MOD_DELIMITER2)[malfunction_unknown(
                    vehicle_overrides(*row).sa,
                )->0],
            ),
        },
{
    reveal(vehicle_secondary_breakdown);
    let nothing = String::new();
    assert(nothing@ =~= Seq::<char>::empty());
    let mut m = Malfunction::default();
    match m.sanitize(&nothing, &overrides.sa, colors) {
        Err(e) => Err(e),
        Ok(_) => Ok(m),
    }
}

/// Reads the armour of a row; the error that comes with it does not end
/// the reading.
fn read_armor(row: &VehicleRow, asked: &String, overrides: &Overrides, colors: &Colors) -> (r: (
    ArmorValues,
    Option<DirectiveError>,
))
    requires
        overrides@ == vehicle_overrides(*row),
        colors@ == vehicle_colors(*row, asked@),
    ensures
        r.0@ == vehicle_armor(*row, asked@),
        match r.1 {
            None => armor_is_whole(*row),
            Some(e) => !armor_is_whole(*row) && e@ == DirectiveErrorView::MissingRequiredSplit(
                row.af@,
            ),
        },
{
    reveal(vehicle_armor);
    let mut armor = ArmorValues::default();
    let remark = match armor.initialize(&row.af, &row.ta, &row.size, overrides, colors) {
        Err(e) => Some(e),
        Ok(_) => None,
    };
    (armor, remark)
}

/// Reads how the vehicle of a row moves.
fn read_movement(row: &VehicleRow, asked: &String, overrides: &Overrides, colors: &Colors) -> (r:
    Result<VehicleMovementValues, DirectiveError>)
    requires
        overrides@ == vehicle_overrides(*row),
        colors@ == vehicle_colors(*row, asked@),
    ensures
        match r {
            Ok(m) => vehicle_movement(*row, asked@) == Some(m@),
            Err(e) => vehicle_movement(*row, asked@) is None && e@
                == DirectiveErrorView::PatternMismatch(
                movement_subject(row.name@, row.mp@, vehicle_overrides(*row)),
            ),
        },
{
    reveal(vehicle_movement);
    let mut m = VehicleMovementValues::default();
    match m.sanitize(
        &row.name,
        &row.mp,
        &row.gp,
        overrides,
        !row.ot.as_str().is_empty(),
        colors,
    ) {
        Err(e) => Err(e),
        Ok(_) => Ok(m),
    }
}

/// Reads the transport column of a row.
fn read_numbers(row: &VehicleRow, asked: &String, overrides: &Overrides, colors: &Colors) -> (r:
    Result<TransportValues, DirectiveError>)
    requires
        overrides@ == vehicle_overrides(*row),
        colors@ == vehicle_colors(*row, asked@),
    ensures
        match r {
            Ok(v) => vehicle_transport(*row) is Some && v@ == vehicle_numbers(*row, asked@),
            Err(e) => vehicle_transport(*row) is None && e@ == DirectiveErrorView::PatternMismatch(
                row.transport@,
            ),
        },
{
    reveal(vehicle_transport);
    reveal(vehicle_numbers);
    let mut v = TransportValues::default();
    match v.sanitize(&row.transport, overrides, colors) {
        Err(e) => Err(e),
        Ok(_) => Ok(v),
    }
}

/// Reads the machine guns of a row.
fn read_guns(row: &VehicleRow, asked: &String, overrides: &Overrides, colors: &Colors) -> (r:
    Result<MachineGuns, DirectiveError>)
    requires
        overrides@ == vehicle_overrides(*row),
        colors@ == vehicle_colors(*row, asked@),
    ensures
        match r {
            Ok(g) => guns_unknown(vehicle_overrides(*row)) is None && g@ == vehicle_guns(
                *row,
                asked@,
            ),
            Err(e) => guns_unknown(vehicle_overrides(*row)) is Some && e@
                == DirectiveErrorView::UnrecognizedDirective(
                entries_of(vehicle_overrides(*row).machine_guns, MOD_DELIMITER2)[guns_unknown(
                    vehicle_overrides(*row),
                )->0],
            ),
        },
{
    reveal(vehicle_guns);
    let mut g = MachineGuns::default();
    match g.sanitize(&row.bmg, &row.cmg, &row.aamg, overrides, colors) {
        Err(e) => Err(e),
        Ok(_) => Ok(g),
    }
}

/// Reads the row of a vehicle, for the nationality `asked` where one is
/// asked for. The columns are read in a fixed order, and the first that
/// cannot be read ends the reading with its error. Armour factors that are
/// neither two nor three in number do not end it: the record is whole but
/// for the armour values, and the error that holds the factors comes with
/// it.
pub fn sanitize_vehicle(row: &VehicleRow, asked: &String) -> (r: Result<
    (VehicleRecord, Option<DirectiveError>),
    DirectiveError,
>)
    ensures
        match r {
            Ok((record, remark)) => vehicle_fault(*row, asked@) is None && record@
                == vehicle_record(*row, asked@) && match remark {
                None => armor_is_whole(*row),
                Some(e) => !armor_is_whole(*row) && e@ == DirectiveErrorView::MissingRequiredSplit(
                    row.af@,
                ),
            },
            Err(e) => vehicle_fault(*row, asked@) == Some(e@),
        },
{
    let common = match read_common(row, asked) {
        Ok(common) => common,
        Err(e) => {
            return Err(e);
        },
    };
    let sa = read_secondary(row, asked, &common.overrides, &common.colors);
    let sa_malfunction = match read_secondary_breakdown(
        row,
        asked,
        &common.overrides,
        &common.colors,
    ) {
        Ok(m) => m,
        Err(e) => {
            return Err(e);
        },
    };
    let (armor, remark) = read_armor(row, asked, &common.overrides, &common.colors);
    let movement_values = match read_movement(row, asked, &common.overrides, &common.colors) {
        Ok(m) => m,
        Err(e) => {
            return Err(e);
        },
    };
    let transport_values = match read_numbers(row, asked, &common.overrides, &common.colors) {
        Ok(v) => v,
        Err(e) => {
            return Err(e);
        },
    };
    let mgs = match read_guns(row, asked, &common.overrides, &common.colors) {
        Ok(g) => g,
        Err(e) => {
            return Err(e);
        },
    };
    Ok(
        (
            VehicleRecord {
                common: common,
                sa: sa,
                sa_malfunction: sa_malfunction,
                mgs: mgs,
                armor: armor,
                movement_values: movement_values,
                transport_values: transport_values,
            },
            remark,
        ),
    )
}

} // verus!
