//! The override mini-language of a row: its keys, its modifiers, and the
//! record that a row's override string is read into.

use vstd::prelude::*;
use crate::scan::{contains_text, same_chars, to_chars};
use crate::text::occurs_in;
use crate::utils::{entries_of, extract_from, extract_vector, value_for};

verus! {

/// Separates the overrides of a row.
pub const OVERRIDE_DELIMITER: char = '|';

/// Announce the line.
pub const NOVR_ANNOUNCE: &'static str = "announce";

/// Special ammunition values.
pub const NOVR_SPECIAL_AMMO: &'static str = "ammo=";

/// The counter's background colour.
pub const NOVR_BACKGROUND_COLOR: &'static str = "bkg=";

/// The piece is captured.
pub const NOVR_CAPTURED: &'static str = "cap=";

/// Copy the counter in place of drawing it.
pub const NOVR_COPY: &'static str = "copy";

/// Show the name.
pub const NOVR_DISPLAY_NAME: &'static str = "display_name";

/// The bow machine gun is fixed.
pub const NOVR_FIXED_BMG: &'static str = "fixed_bmg";

/// Ground pressure.
pub const NOVR_GP: &'static str = "gp=";

/// Gun type.
pub const NOVR_GT: &'static str = "gt=";

/// Infantry firepower equivalent.
pub const NOVR_IFE: &'static str = "ife=";

/// Ignore the row.
pub const NOVR_IGNORE: &'static str = "ignore";

/// Main armament.
pub const NOVR_MA: &'static str = "ma=";

/// Manhandling number.
pub const NOVR_MANHANDLING: &'static str = "man=";

/// The main armament has a moving-target penalty.
pub const NOVR_MA_MOVING_TARGET: &'static str = "ma_movt";

/// Breakdown of the main armament.
pub const NOVR_MB: &'static str = "mb=";

/// Machine-gun values.
pub const NOVR_MGS: &'static str = "mgs=";

/// Mount or turret type.
pub const NOVR_MOUNT: &'static str = "mount=";

/// Movement points.
pub const NOVR_MP: &'static str = "mp=";

/// Movement type.
pub const NOVR_MT: &'static str = "mt=";

/// The main armament may score multiple hits.
pub const NOVR_MULTIPLE_HITS: &'static str = "multi_hits";

/// Nationality.
pub const NOVR_NATIONALITY: &'static str = "nat=";

/// The name on the counter.
pub const NOVR_NAME: &'static str = "name=";

/// Passenger number.
pub const NOVR_PP_NUMBER: &'static str = "pp=";

/// Qualifier of the note number.
pub const NOVR_QUALIFIER: &'static str = "qual=";

/// Range values.
pub const NOVR_RANGE: &'static str = "range=";

/// Second range values.
pub const NOVR_RANGE2: &'static str = "range2=";

/// Rate of fire.
pub const NOVR_ROF: &'static str = "rof=";

/// Secondary armament.
pub const NOVR_SA: &'static str = "sa=";

/// The secondary armament has a moving-target penalty.
pub const NOVR_SA_MOVING_TARGET: &'static str = "sa_movt";

/// Breakdown of the secondary armament.
pub const NOVR_SB: &'static str = "sb=";

/// Draw the armour values lower.
pub const NOVR_SHIFT_ARMOR: &'static str = "shift_armor_down";

/// Target size.
pub const NOVR_SIZE: &'static str = "size=";

/// Turret armour modifiers.
pub const NOVR_TA: &'static str = "ta=";

/// Towing number.
pub const NOVR_TOWING_NUMBER: &'static str = "tow=";

/// Front armour.
pub const NOVR_ARMOR_FRONT: &'static str = "far=";

/// Side armour.
pub const NOVR_ARMOR_SIDE: &'static str = "sar=";

/// Rear armour.
pub const NOVR_ARMOR_REAR: &'static str = "rar=";

/// Separates the modifiers of one override.
pub const MOD_DELIMITER1: char = ':';

/// Separates the modifiers of one override.
pub const MOD_DELIMITER2: char = '@';

/// The mark goes before the field's text.
pub const MOD_NOTES_PREFIX: &'static str = "pre";

/// The mark goes after the field's text.
pub const MOD_NOTES_POSTFIX: &'static str = "post";

/// The mark goes where the drawing code decides.
pub const MOD_NOTES_INFIX: &'static str = "in";

/// In the gun stack.
pub const MOD_LOCATION_GS: &'static str = "in_gs";

/// Where the machine guns would stand.
pub const MOD_LOCATION_MGS: &'static str = "mgs";

/// Above where the machine guns would stand.
pub const MOD_LOCATION_ABOVE_MGS: &'static str = "above_mgs";

/// Before where the towing number stands.
pub const MOD_LOCATION_BEFORE_TOWING: &'static str = "before_tow";

/// Adds to the font size.
pub const MOD_INC_SIZE: &'static str = "sz+";

/// Takes from the font size.
pub const MOD_DEC_SIZE: &'static str = "sz-";

pub const LIMBERED_NO_FIRE: &'static str = "no_fire";

/// What a `MalfunctionOverrides` holds.
pub struct MalfunctionOverridesView {
    pub ignore: bool,
    pub text: Seq<char>,
    pub notes: Seq<char>,
}

/// What a row overrides of a breakdown number.
#[derive(Debug)]
pub struct MalfunctionOverrides {
    pub ignore: bool,
    pub text: String,
    pub notes: String,
}

impl View for MalfunctionOverrides {
    type V = MalfunctionOverridesView;

    open spec fn view(&self) -> MalfunctionOverridesView {
        MalfunctionOverridesView {
            ignore: self.ignore,
            text: self.text@,
            notes: self.notes@,
        }
    }
}

impl MalfunctionOverridesView {
    /// Nothing is overridden.
    pub open spec fn empty() -> MalfunctionOverridesView {
        MalfunctionOverridesView {
            ignore: false,
            text: Seq::empty(),
            notes: Seq::empty(),
        }
    }
}

impl Default for MalfunctionOverrides {
    fn default() -> (r: Self)
        ensures
            r@ == MalfunctionOverridesView::empty(),
    {
        MalfunctionOverrides {
            ignore: false,
            text: String::new(),
            notes: String::new(),
        }
    }
}

impl Clone for MalfunctionOverrides {
    fn clone(&self) -> (r: Self)
        ensures
            r@ == self@,
    {
        MalfunctionOverrides {
            ignore: self.ignore,
            text: self.text.clone(),
            notes: self.notes.clone(),
        }
    }
}

/// What a `ArmamentOverrides` holds.
pub struct ArmamentOverridesView {
    pub ignore: bool,
    pub text: Seq<char>,
    pub mount: Seq<char>,
    pub multiple_hits: bool,
    pub moving_target_penalty: bool,
    pub malf: MalfunctionOverridesView,
}

/// What a row overrides of one armament.
#[derive(Debug)]
pub struct ArmamentOverrides {
    pub ignore: bool,
    pub text: String,
    pub mount: String,
    pub multiple_hits: bool,
    pub moving_target_penalty: bool,
    pub malf: MalfunctionOverrides,
}

impl View for ArmamentOverrides {
    type V = ArmamentOverridesView;

    open spec fn view(&self) -> ArmamentOverridesView {
        ArmamentOverridesView {
            ignore: self.ignore,
            text: self.text@,
            mount: self.mount@,
            multiple_hits: self.multiple_hits,
            moving_target_penalty: self.moving_target_penalty,
            malf: self.malf@,
        }
    }
}

impl ArmamentOverridesView {
    /// Nothing is overridden.
    pub open spec fn empty() -> ArmamentOverridesView {
        ArmamentOverridesView {
            ignore: false,
            text: Seq::empty(),
            mount: Seq::empty(),
            multiple_hits: false,
            moving_target_penalty: false,
            malf: MalfunctionOverridesView::empty(),
        }
    }
}

impl Default for ArmamentOverrides {
    fn default() -> (r: Self)
        ensures
            r@ == ArmamentOverridesView::empty(),
    {
        ArmamentOverrides {
            ignore: false,
            text: String::new(),
            mount: String::new(),
            multiple_hits: false,
            moving_target_penalty: false,
            malf: MalfunctionOverrides::default(),
        }
    }
}

impl Clone for ArmamentOverrides {
    fn clone(&self) -> (r: Self)
        ensures
            r@ == self@,
    {
        ArmamentOverrides {
            ignore: self.ignore,
            text: self.text.clone(),
            mount: self.mount.clone(),
            multiple_hits: self.multiple_hits,
            moving_target_penalty: self.moving_target_penalty,
            malf: self.malf.clone(),
        }
    }
}

/// What a `Overrides` holds.
pub struct OverridesView {
    pub announce: bool,
    pub shift_armor_down: bool,
    pub armor_front: Seq<char>,
    pub armor_rear: Seq<char>,
    pub armor_side: Seq<char>,
    pub background_color: Seq<char>,
    pub captured: Seq<char>,
    pub copy: bool,
    pub display_name: bool,
    pub fixed_bmg: bool,
    pub ground_pressure: Seq<char>,
    pub gt: Seq<char>,
    pub ife: Seq<char>,
    pub ignore: bool,
    pub ma: ArmamentOverridesView,
    pub machine_guns: Seq<char>,
    pub machine_guns_set: bool,
    pub manhandling: Seq<char>,
    pub movement_type: Seq<char>,
    pub mp: Seq<char>,
    pub name: Seq<char>,
    pub nationality: Seq<char>,
    pub nm: bool,
    pub note_qualifier: Seq<char>,
    pub pp_number: Seq<char>,
    pub pp_number_ignore: bool,
    pub rfnm: bool,
    pub range_values: Seq<char>,
    pub range2_values: Seq<char>,
    pub rof: Seq<char>,
    pub sa: ArmamentOverridesView,
    pub target_size: Seq<char>,
    pub special_ammo: Seq<char>,
    pub towing_number: Seq<char>,
    pub turret_armor_modifiers: Seq<char>,
}

/// What a row overrides, read from its override string.
#[derive(Debug)]
pub struct Overrides {
    pub announce: bool,
    pub shift_armor_down: bool,
    pub armor_front: String,
    pub armor_rear: String,
    pub armor_side: String,
    pub background_color: String,
    pub captured: String,
    pub copy: bool,
    pub display_name: bool,
    pub fixed_bmg: bool,
    pub ground_pressure: String,
    pub gt: String,
    pub ife: String,
    pub ignore: bool,
    pub ma: ArmamentOverrides,
    pub machine_guns: String,
    pub machine_guns_set: bool,
    pub manhandling: String,
    pub movement_type: String,
    pub mp: String,
    pub name: String,
    pub nationality: String,
    pub nm: bool,
    pub note_qualifier: String,
    pub pp_number: String,
    pub pp_number_ignore: bool,
    pub rfnm: bool,
    pub range_values: String,
    pub range2_values: String,
    pub rof: String,
    pub sa: ArmamentOverrides,
    pub target_size: String,
    pub special_ammo: String,
    pub towing_number: String,
    pub turret_armor_modifiers: String,
}

impl View for Overrides {
    type V = OverridesView;

    open spec fn view(&self) -> OverridesView {
        OverridesView {
            announce: self.announce,
            shift_armor_down: self.shift_armor_down,
            armor_front: self.armor_front@,
            armor_rear: self.armor_rear@,
            armor_side: self.armor_side@,
            background_color: self.background_color@,
            captured: self.captured@,
            copy: self.copy,
            display_name: self.display_name,
            fixed_bmg: self.fixed_bmg,
            ground_pressure: self.ground_pressure@,
            gt: self.gt@,
            ife: self.ife@,
            ignore: self.ignore,
            ma: self.ma@,
            machine_guns: self.machine_guns@,
            machine_guns_set: self.machine_guns_set,
            manhandling: self.manhandling@,
            movement_type: self.movement_type@,
            mp: self.mp@,
            name: self.name@,
            nationality: self.nationality@,
            nm: self.nm,
            note_qualifier: self.note_qualifier@,
            pp_number: self.pp_number@,
            pp_number_ignore: self.pp_number_ignore,
            rfnm: self.rfnm,
            range_values: self.range_values@,
            range2_values: self.range2_values@,
            rof: self.rof@,
            sa: self.sa@,
            target_size: self.target_size@,
            special_ammo: self.special_ammo@,
            towing_number: self.towing_number@,
            turret_armor_modifiers: self.turret_armor_modifiers@,
        }
    }
}

impl OverridesView {
    /// Nothing is overridden.
    pub open spec fn empty() -> OverridesView {
        OverridesView {
            announce: false,
            shift_armor_down: false,
            armor_front: Seq::empty(),
            armor_rear: Seq::empty(),
            armor_side: Seq::empty(),
            background_color: Seq::empty(),
            captured: Seq::empty(),
            copy: false,
            display_name: false,
            fixed_bmg: false,
            ground_pressure: Seq::empty(),
            gt: Seq::empty(),
            ife: Seq::empty(),
            ignore: false,
            ma: ArmamentOverridesView::empty(),
            machine_guns: Seq::empty(),
            machine_guns_set: false,
            manhandling: Seq::empty(),
            movement_type: Seq::empty(),
            mp: Seq::empty(),
            name: Seq::empty(),
            nationality: Seq::empty(),
            nm: false,
            note_qualifier: Seq::empty(),
            pp_number: Seq::empty(),
            pp_number_ignore: false,
            rfnm: false,
            range_values: Seq::empty(),
            range2_values: Seq::empty(),
            rof: Seq::empty(),
            sa: ArmamentOverridesView::empty(),
            target_size: Seq::empty(),
            special_ammo: Seq::empty(),
            towing_number: Seq::empty(),
            turret_armor_modifiers: Seq::empty(),
        }
    }
}

impl Default for Overrides {
    fn default() -> (r: Self)
        ensures
            r@ == OverridesView::empty(),
    {
        Overrides {
            announce: false,
            shift_armor_down: false,
            armor_front: String::new(),
            armor_rear: String::new(),
            armor_side: String::new(),
            background_color: String::new(),
            captured: String::new(),
            copy: false,
            display_name: false,
            fixed_bmg: false,
            ground_pressure: String::new(),
            gt: String::new(),
            ife: String::new(),
            ignore: false,
            ma: ArmamentOverrides::default(),
            machine_guns: String::new(),
            machine_guns_set: false,
            manhandling: String::new(),
            movement_type: String::new(),
            mp: String::new(),
            name: String::new(),
            nationality: String::new(),
            nm: false,
            note_qualifier: String::new(),
            pp_number: String::new(),
            pp_number_ignore: false,
            rfnm: false,
            range_values: String::new(),
            range2_values: String::new(),
            rof: String::new(),
            sa: ArmamentOverrides::default(),
            target_size: String::new(),
            special_ammo: String::new(),
            towing_number: String::new(),
            turret_armor_modifiers: String::new(),
        }
    }
}

impl Clone for Overrides {
    fn clone(&self) -> (r: Self)
        ensures
            r@ == self@,
    {
        Overrides {
            announce: self.announce,
            shift_armor_down: self.shift_armor_down,
            armor_front: self.armor_front.clone(),
            armor_rear: self.armor_rear.clone(),
            armor_side: self.armor_side.clone(),
            background_color: self.background_color.clone(),
            captured: self.captured.clone(),
            copy: self.copy,
            display_name: self.display_name,
            fixed_bmg: self.fixed_bmg,
            ground_pressure: self.ground_pressure.clone(),
            gt: self.gt.clone(),
            ife: self.ife.clone(),
            ignore: self.ignore,
            ma: self.ma.clone(),
            machine_guns: self.machine_guns.clone(),
            machine_guns_set: self.machine_guns_set,
            manhandling: self.manhandling.clone(),
            movement_type: self.movement_type.clone(),
            mp: self.mp.clone(),
            name: self.name.clone(),
            nationality: self.nationality.clone(),
            nm: self.nm,
            note_qualifier: self.note_qualifier.clone(),
            pp_number: self.pp_number.clone(),
            pp_number_ignore: self.pp_number_ignore,
            rfnm: self.rfnm,
            range_values: self.range_values.clone(),
            range2_values: self.range2_values.clone(),
            rof: self.rof.clone(),
            sa: self.sa.clone(),
            target_size: self.target_size.clone(),
            special_ammo: self.special_ammo.clone(),
            towing_number: self.towing_number.clone(),
            turret_armor_modifiers: self.turret_armor_modifiers.clone(),
        }
    }
}

/// The keys of the override language.
#[derive(PartialEq, Eq, Structural, Clone, Copy, Debug)]
pub enum OverrideKey {
    Announce,
    ShiftArmor,
    ArmorFront,
    ArmorRear,
    ArmorSide,
    BackgroundColor,
    Captured,
    Copy,
    DisplayName,
    FixedBmg,
    GroundPressure,
    GunType,
    Ife,
    Ignore,
    MainArmament,
    MainMovingTarget,
    Manhandling,
    MainBreakdown,
    MachineGuns,
    Mount,
    MovementPoints,
    MovementType,
    MultipleHits,
    Name,
    Nationality,
    PassengerNumber,
    Qualifier,
    Range,
    Range2,
    RateOfFire,
    SecondaryArmament,
    SecondaryBreakdown,
    SecondaryMovingTarget,
    TargetSize,
    SpecialAmmo,
    TowingNumber,
    TurretArmor,
}

/// The key that `entry` names: the keys are tried in a fixed order, and the
/// first that `entry` holds decides.
pub open spec fn key_of(entry: Seq<char>) -> Option<OverrideKey> {
    if occurs_in(NOVR_ANNOUNCE@, entry) {
        Some(OverrideKey::Announce)
    } else if entry == NOVR_SHIFT_ARMOR@ {
        Some(OverrideKey::ShiftArmor)
    } else if occurs_in(NOVR_ARMOR_FRONT@, entry) {
        Some(OverrideKey::ArmorFront)
    } else if occurs_in(NOVR_ARMOR_REAR@, entry) {
        Some(OverrideKey::ArmorRear)
    } else if occurs_in(NOVR_ARMOR_SIDE@, entry) {
        Some(OverrideKey::ArmorSide)
    } else if occurs_in(NOVR_BACKGROUND_COLOR@, entry) {
        Some(OverrideKey::BackgroundColor)
    } else if occurs_in(NOVR_CAPTURED@, entry) {
        Some(OverrideKey::Captured)
    } else if occurs_in(NOVR_COPY@, entry) {
        Some(OverrideKey::Copy)
    } else if occurs_in(NOVR_DISPLAY_NAME@, entry) {
        Some(OverrideKey::DisplayName)
    } else if occurs_in(NOVR_FIXED_BMG@, entry) {
        Some(OverrideKey::FixedBmg)
    } else if occurs_in(NOVR_GP@, entry) {
        Some(OverrideKey::GroundPressure)
    } else if occurs_in(NOVR_GT@, entry) {
        Some(OverrideKey::GunType)
    } else if occurs_in(NOVR_IFE@, entry) {
        Some(OverrideKey::Ife)
    } else if occurs_in(NOVR_IGNORE@, entry) {
        Some(OverrideKey::Ignore)
    } else if occurs_in(NOVR_MA@, entry) {
        Some(OverrideKey::MainArmament)
    } else if occurs_in(NOVR_MA_MOVING_TARGET@, entry) {
        Some(OverrideKey::MainMovingTarget)
    } else if occurs_in(NOVR_MANHANDLING@, entry) {
        Some(OverrideKey::Manhandling)
    } else if occurs_in(NOVR_MB@, entry) {
        Some(OverrideKey::MainBreakdown)
    } else if occurs_in(NOVR_MGS@, entry) {
        Some(OverrideKey::MachineGuns)
    } else if occurs_in(NOVR_MOUNT@, entry) {
        Some(OverrideKey::Mount)
    } else if occurs_in(NOVR_MP@, entry) {
        Some(OverrideKey::MovementPoints)
    } else if occurs_in(NOVR_MT@, entry) {
        Some(OverrideKey::MovementType)
    } else if occurs_in(NOVR_MULTIPLE_HITS@, entry) {
        Some(OverrideKey::MultipleHits)
    } else if occurs_in(NOVR_NAME@, entry) {
        Some(OverrideKey::Name)
    } else if occurs_in(NOVR_NATIONALITY@, entry) {
        Some(OverrideKey::Nationality)
    } else if occurs_in(NOVR_PP_NUMBER@, entry) {
        Some(OverrideKey::PassengerNumber)
    } else if occurs_in(NOVR_QUALIFIER@, entry) {
        Some(OverrideKey::Qualifier)
    } else if occurs_in(NOVR_RANGE@, entry) {
        Some(OverrideKey::Range)
    } else if occurs_in(NOVR_RANGE2@, entry) {
        Some(OverrideKey::Range2)
    } else if occurs_in(NOVR_ROF@, entry) {
        Some(OverrideKey::RateOfFire)
    } else if occurs_in(NOVR_SA@, entry) {
        Some(OverrideKey::SecondaryArmament)
    } else if occurs_in(NOVR_SB@, entry) {
        Some(OverrideKey::SecondaryBreakdown)
    } else if occurs_in(NOVR_SA_MOVING_TARGET@, entry) {
        Some(OverrideKey::SecondaryMovingTarget)
    } else if occurs_in(NOVR_SIZE@, entry) {
        Some(OverrideKey::TargetSize)
    } else if occurs_in(NOVR_SPECIAL_AMMO@, entry) {
        Some(OverrideKey::SpecialAmmo)
    } else if occurs_in(NOVR_TOWING_NUMBER@, entry) {
        Some(OverrideKey::TowingNumber)
    } else if occurs_in(NOVR_TA@, entry) {
        Some(OverrideKey::TurretArmor)
    } else {
        None
    }
}

/// `entry` names one of the keys of the override language.
pub open spec fn recognized(entry: Seq<char>) -> bool {
    key_of(entry) is Some
}

/// What `ov` becomes when `entry`, which names `key`, is applied to it.
pub open spec fn applied_key(ov: OverridesView, key: OverrideKey, entry: Seq<char>) -> OverridesView {
    match key {
        OverrideKey::Announce => OverridesView { announce: true, ..ov },
        OverrideKey::ShiftArmor => OverridesView { shift_armor_down: true, ..ov },
        OverrideKey::ArmorFront => OverridesView { armor_front: value_for(entry, NOVR_ARMOR_FRONT@), ..ov },
        OverrideKey::ArmorRear => OverridesView { armor_rear: value_for(entry, NOVR_ARMOR_REAR@), ..ov },
        OverrideKey::ArmorSide => OverridesView { armor_side: value_for(entry, NOVR_ARMOR_SIDE@), ..ov },
        OverrideKey::BackgroundColor => OverridesView { background_color: value_for(entry, NOVR_BACKGROUND_COLOR@), ..ov },
        OverrideKey::Captured => OverridesView { captured: value_for(entry, NOVR_CAPTURED@), ..ov },
        OverrideKey::Copy => OverridesView { copy: true, ..ov },
        OverrideKey::DisplayName => OverridesView { display_name: true, ..ov },
        OverrideKey::FixedBmg => OverridesView { fixed_bmg: true, ..ov },
        OverrideKey::GroundPressure => OverridesView { ground_pressure: value_for(entry, NOVR_GP@), ..ov },
        OverrideKey::GunType => OverridesView { gt: value_for(entry, NOVR_GT@), ..ov },
        OverrideKey::Ife => OverridesView { ife: entry, ..ov },
        OverrideKey::Ignore => OverridesView { ignore: true, ..ov },
        OverrideKey::MainArmament => OverridesView { ma: ArmamentOverridesView { text: value_for(entry, NOVR_MA@), ignore: value_for(entry, NOVR_MA@).len() == 0, ..ov.ma }, ..ov },
        OverrideKey::MainMovingTarget => OverridesView { ma: ArmamentOverridesView { moving_target_penalty: true, ..ov.ma }, ..ov },
        OverrideKey::Manhandling => OverridesView { manhandling: value_for(entry, NOVR_MANHANDLING@), ..ov },
        OverrideKey::MainBreakdown => OverridesView { ma: ArmamentOverridesView { malf: MalfunctionOverridesView { text: value_for(entry, NOVR_MB@), ignore: value_for(entry, NOVR_MB@).len() == 0, ..ov.ma.malf }, ..ov.ma }, ..ov },
        OverrideKey::MachineGuns => OverridesView { machine_guns_set: true, machine_guns: value_for(entry, NOVR_MGS@), ..ov },
        OverrideKey::Mount => OverridesView { ma: ArmamentOverridesView { mount: value_for(entry, NOVR_MOUNT@), ..ov.ma }, ..ov },
        OverrideKey::MovementPoints => OverridesView { mp: value_for(entry, NOVR_MP@), rfnm: ov.rfnm || occurs_in("RFNM"@, entry), nm: ov.nm || (!occurs_in("RFNM"@, entry) && occurs_in("NM"@, entry)), ..ov },
        OverrideKey::MovementType => OverridesView { movement_type: value_for(entry, NOVR_MT@), ..ov },
        OverrideKey::MultipleHits => OverridesView { ma: ArmamentOverridesView { multiple_hits: true, ..ov.ma }, ..ov },
        OverrideKey::Name => OverridesView { name: value_for(entry, NOVR_NAME@), ..ov },
        OverrideKey::Nationality => OverridesView { nationality: value_for(entry, NOVR_NATIONALITY@), ..ov },
        OverrideKey::PassengerNumber => OverridesView { pp_number: value_for(entry, NOVR_PP_NUMBER@), pp_number_ignore: value_for(entry, NOVR_PP_NUMBER@).len() == 0, ..ov },
        OverrideKey::Qualifier => OverridesView { note_qualifier: value_for(entry, NOVR_QUALIFIER@), ..ov },
        OverrideKey::Range => OverridesView { range_values: value_for(entry, NOVR_RANGE@), ..ov },
        OverrideKey::Range2 => OverridesView { range2_values: value_for(entry, NOVR_RANGE2@), ..ov },
        OverrideKey::RateOfFire => OverridesView { rof: entry, ..ov },
        OverrideKey::SecondaryArmament => OverridesView { sa: ArmamentOverridesView { text: value_for(entry, NOVR_SA@), ignore: value_for(entry, NOVR_SA@).len() == 0, ..ov.sa }, ..ov },
        OverrideKey::SecondaryBreakdown => OverridesView { sa: ArmamentOverridesView { malf: MalfunctionOverridesView { text: value_for(entry, NOVR_SB@), ignore: value_for(entry, NOVR_SB@).len() == 0, ..ov.sa.malf }, ..ov.sa }, ..ov },
        OverrideKey::SecondaryMovingTarget => OverridesView { sa: ArmamentOverridesView { moving_target_penalty: true, ..ov.sa }, ..ov },
        OverrideKey::TargetSize => OverridesView { target_size: value_for(entry, NOVR_SIZE@), ..ov },
        OverrideKey::SpecialAmmo => OverridesView { special_ammo: value_for(entry, NOVR_SPECIAL_AMMO@), ..ov },
        OverrideKey::TowingNumber => OverridesView { towing_number: value_for(entry, NOVR_TOWING_NUMBER@), ..ov },
        OverrideKey::TurretArmor => OverridesView { turret_armor_modifiers: value_for(entry, NOVR_TA@), ..ov },
    }
}

/// What `ov` becomes when `entry` is applied to it; an entry that names no
/// key changes nothing.
pub open spec fn applied(ov: OverridesView, entry: Seq<char>) -> OverridesView {
    match key_of(entry) {
        Some(key) => applied_key(ov, key, entry),
        None => ov,
    }
}

/// What `ov` becomes when `entries` are applied to it from left to right.
pub open spec fn applied_all(ov: OverridesView, entries: Seq<Seq<char>>) -> OverridesView
    decreases entries.len(),
{
    if entries.len() == 0 {
        ov
    } else {
        applied(
            applied_all(ov, entries.subrange(0, entries.len() - 1)),
            entries[entries.len() - 1],
        )
    }
}

/// The position of the first of `entries` that names no key.
pub open spec fn first_unrecognized(entries: Seq<Seq<char>>) -> Option<int>
    decreases entries.len(),
{
    if entries.len() == 0 {
        None
    } else {
        match first_unrecognized(entries.subrange(0, entries.len() - 1)) {
            Some(k) => Some(k),
            None => if recognized(entries[entries.len() - 1]) {
                None
            } else {
                Some(entries.len() - 1)
            },
        }
    }
}

/// Why a row's overrides could not be read.
#[derive(Debug)]
pub enum DirectiveError {
    /// The entry names no key of the override language.
    UnrecognizedDirective(String),
    /// The text lacks a separator that its directive calls for.
    MissingRequiredSplit(String),
    /// The text does not have the shape that its field calls for.
    PatternMismatch(String),
}

/// What a `DirectiveError` holds.
pub enum DirectiveErrorView {
    UnrecognizedDirective(Seq<char>),
    MissingRequiredSplit(Seq<char>),
    PatternMismatch(Seq<char>),
}

impl View for DirectiveError {
    type V = DirectiveErrorView;

    open spec fn view(&self) -> DirectiveErrorView {
        match *self {
            DirectiveError::UnrecognizedDirective(t) => DirectiveErrorView::UnrecognizedDirective(
                t@,
            ),
            DirectiveError::MissingRequiredSplit(t) => DirectiveErrorView::MissingRequiredSplit(t@),
            DirectiveError::PatternMismatch(t) => DirectiveErrorView::PatternMismatch(t@),
        }
    }
}

impl DirectiveError {
    /// The text that the error is about.
    pub open spec fn subject(&self) -> Seq<char> {
        match *self {
            DirectiveError::UnrecognizedDirective(t) => t@,
            DirectiveError::MissingRequiredSplit(t) => t@,
            DirectiveError::PatternMismatch(t) => t@,
        }
    }

    /// What a user is told of the error.
    pub fn message(&self) -> (r: String)
        ensures
            r@ == match *self {
                DirectiveError::UnrecognizedDirective(t) => "unrecognized directive: "@ + t@,
                DirectiveError::MissingRequiredSplit(t) => "missing separator: "@ + t@,
                DirectiveError::PatternMismatch(t) => "unexpected shape: "@ + t@,
            },
    {
        match self {
            DirectiveError::UnrecognizedDirective(t) => {
                let mut r = "unrecognized directive: ".to_string();
                r.append(t.as_str());
                r
            },
            DirectiveError::MissingRequiredSplit(t) => {
                let mut r = "missing separator: ".to_string();
                r.append(t.as_str());
                r
            },
            DirectiveError::PatternMismatch(t) => {
                let mut r = "unexpected shape: ".to_string();
                r.append(t.as_str());
                r
            },
        }
    }
}

/// The key that `entry` names, if any.
pub fn classify_entry(entry: &String) -> (key: Option<OverrideKey>)
    ensures
        key == key_of(entry@),
{
    let e = to_chars(entry.as_str());
    if contains_text(&e, &to_chars(NOVR_ANNOUNCE)) {
        Some(OverrideKey::Announce)
    } else if same_chars(&e, &to_chars(NOVR_SHIFT_ARMOR)) {
        Some(OverrideKey::ShiftArmor)
    } else if contains_text(&e, &to_chars(NOVR_ARMOR_FRONT)) {
        Some(OverrideKey::ArmorFront)
    } else if contains_text(&e, &to_chars(NOVR_ARMOR_REAR)) {
        Some(OverrideKey::ArmorRear)
    } else if contains_text(&e, &to_chars(NOVR_ARMOR_SIDE)) {
        Some(OverrideKey::ArmorSide)
    } else if contains_text(&e, &to_chars(NOVR_BACKGROUND_COLOR)) {
        Some(OverrideKey::BackgroundColor)
    } else if contains_text(&e, &to_chars(NOVR_CAPTURED)) {
        Some(OverrideKey::Captured)
    } else if contains_text(&e, &to_chars(NOVR_COPY)) {
        Some(OverrideKey::Copy)
    } else if contains_text(&e, &to_chars(NOVR_DISPLAY_NAME)) {
        Some(OverrideKey::DisplayName)
    } else if contains_text(&e, &to_chars(NOVR_FIXED_BMG)) {
        Some(OverrideKey::FixedBmg)
    } else if contains_text(&e, &to_chars(NOVR_GP)) {
        Some(OverrideKey::GroundPressure)
    } else if contains_text(&e, &to_chars(NOVR_GT)) {
        Some(OverrideKey::GunType)
    } else if contains_text(&e, &to_chars(NOVR_IFE)) {
        Some(OverrideKey::Ife)
    } else if contains_text(&e, &to_chars(NOVR_IGNORE)) {
        Some(OverrideKey::Ignore)
    } else if contains_text(&e, &to_chars(NOVR_MA)) {
        Some(OverrideKey::MainArmament)
    } else if contains_text(&e, &to_chars(NOVR_MA_MOVING_TARGET)) {
        Some(OverrideKey::MainMovingTarget)
    } else if contains_text(&e, &to_chars(NOVR_MANHANDLING)) {
        Some(OverrideKey::Manhandling)
    } else if contains_text(&e, &to_chars(NOVR_MB)) {
        Some(OverrideKey::MainBreakdown)
    } else if contains_text(&e, &to_chars(NOVR_MGS)) {
        Some(OverrideKey::MachineGuns)
    } else if contains_text(&e, &to_chars(NOVR_MOUNT)) {
        Some(OverrideKey::Mount)
    } else if contains_text(&e, &to_chars(NOVR_MP)) {
        Some(OverrideKey::MovementPoints)
    } else if contains_text(&e, &to_chars(NOVR_MT)) {
        Some(OverrideKey::MovementType)
    } else if contains_text(&e, &to_chars(NOVR_MULTIPLE_HITS)) {
        Some(OverrideKey::MultipleHits)
    } else if contains_text(&e, &to_chars(NOVR_NAME)) {
        Some(OverrideKey::Name)
    } else if contains_text(&e, &to_chars(NOVR_NATIONALITY)) {
        Some(OverrideKey::Nationality)
    } else if contains_text(&e, &to_chars(NOVR_PP_NUMBER)) {
        Some(OverrideKey::PassengerNumber)
    } else if contains_text(&e, &to_chars(NOVR_QUALIFIER)) {
        Some(OverrideKey::Qualifier)
    } else if contains_text(&e, &to_chars(NOVR_RANGE)) {
        Some(OverrideKey::Range)
    } else if contains_text(&e, &to_chars(NOVR_RANGE2)) {
        Some(OverrideKey::Range2)
    } else if contains_text(&e, &to_chars(NOVR_ROF)) {
        Some(OverrideKey::RateOfFire)
    } else if contains_text(&e, &to_chars(NOVR_SA)) {
        Some(OverrideKey::SecondaryArmament)
    } else if contains_text(&e, &to_chars(NOVR_SB)) {
        Some(OverrideKey::SecondaryBreakdown)
    } else if contains_text(&e, &to_chars(NOVR_SA_MOVING_TARGET)) {
        Some(OverrideKey::SecondaryMovingTarget)
    } else if contains_text(&e, &to_chars(NOVR_SIZE)) {
        Some(OverrideKey::TargetSize)
    } else if contains_text(&e, &to_chars(NOVR_SPECIAL_AMMO)) {
        Some(OverrideKey::SpecialAmmo)
    } else if contains_text(&e, &to_chars(NOVR_TOWING_NUMBER)) {
        Some(OverrideKey::TowingNumber)
    } else if contains_text(&e, &to_chars(NOVR_TA)) {
        Some(OverrideKey::TurretArmor)
    } else {
        None
    }
}

impl Overrides {
    /// Applies an entry whose key sets a switch that takes no value.
    fn apply_flag(&mut self, key: OverrideKey, entry: &String)
        requires
            key == OverrideKey::Announce || key == OverrideKey::ShiftArmor || key == OverrideKey::Copy || key == OverrideKey::DisplayName || key == OverrideKey::FixedBmg || key == OverrideKey::Ignore || key == OverrideKey::MainMovingTarget || key == OverrideKey::MultipleHits || key == OverrideKey::SecondaryMovingTarget,
        ensures
            final(self)@ == applied_key(old(self)@, key, entry@),
    {
        match key {
            OverrideKey::Announce => {
                self.announce = true;
            },
            OverrideKey::ShiftArmor => {
                self.shift_armor_down = true;
            },
            OverrideKey::Copy => {
                self.copy = true;
            },
            OverrideKey::DisplayName => {
                self.display_name = true;
            },
            OverrideKey::FixedBmg => {
                self.fixed_bmg = true;
            },
            OverrideKey::Ignore => {
                self.ignore = true;
            },
            OverrideKey::MainMovingTarget => {
                self.ma.moving_target_penalty = true;
            },
            OverrideKey::MultipleHits => {
                self.ma.multiple_hits = true;
            },
            OverrideKey::SecondaryMovingTarget => {
                self.sa.moving_target_penalty = true;
            },
            _ => {},
        }
    }

    /// Applies an entry whose key sets a value of the armament or its breakdown.
    fn apply_armament(&mut self, key: OverrideKey, entry: &String)
        requires
            key == OverrideKey::MainArmament || key == OverrideKey::MainBreakdown || key == OverrideKey::Mount || key == OverrideKey::SecondaryArmament || key == OverrideKey::SecondaryBreakdown || key == OverrideKey::MachineGuns || key == OverrideKey::Ife || key == OverrideKey::RateOfFire,
        ensures
            final(self)@ == applied_key(old(self)@, key, entry@),
    {
        match key {
            OverrideKey::MainArmament => {
                self.ma.text = extract_from(entry.as_str(), NOVR_MA);
                self.ma.ignore = self.ma.text.as_str().is_empty();
            },
            OverrideKey::MainBreakdown => {
                self.ma.malf.text = extract_from(entry.as_str(), NOVR_MB);
                self.ma.malf.ignore = self.ma.malf.text.as_str().is_empty();
            },
            OverrideKey::Mount => {
                self.ma.mount = extract_from(entry.as_str(), NOVR_MOUNT);
            },
            OverrideKey::SecondaryArmament => {
                self.sa.text = extract_from(entry.as_str(), NOVR_SA);
                self.sa.ignore = self.sa.text.as_str().is_empty();
            },
            OverrideKey::SecondaryBreakdown => {
                self.sa.malf.text = extract_from(entry.as_str(), NOVR_SB);
                self.sa.malf.ignore = self.sa.malf.text.as_str().is_empty();
            },
            OverrideKey::MachineGuns => {
                self.machine_guns_set = true;
                self.machine_guns = extract_from(entry.as_str(), NOVR_MGS);
            },
            OverrideKey::Ife => {
                self.ife = entry.clone();
            },
            OverrideKey::RateOfFire => {
                self.rof = entry.clone();
            },
            _ => {},
        }
    }

    /// Applies an entry that sets the movement points.
    fn apply_movement_points(&mut self, entry: &String)
        ensures
            final(self)@ == applied_key(old(self)@, OverrideKey::MovementPoints, entry@),
    {
        let e = to_chars(entry.as_str());
        self.mp = extract_from(entry.as_str(), NOVR_MP);
        if contains_text(&e, &to_chars("RFNM")) {
            self.rfnm = true;
        } else if contains_text(&e, &to_chars("NM")) {
            self.nm = true;
        }
    }

    /// Applies an entry whose key sets a value of movement or transport.
    fn apply_mobility(&mut self, key: OverrideKey, entry: &String)
        requires
            key == OverrideKey::GroundPressure || key == OverrideKey::MovementPoints || key == OverrideKey::MovementType || key == OverrideKey::Manhandling || key == OverrideKey::PassengerNumber || key == OverrideKey::TowingNumber || key == OverrideKey::TargetSize,
        ensures
            final(self)@ == applied_key(old(self)@, key, entry@),
    {
        match key {
            OverrideKey::GroundPressure => {
                self.ground_pressure = extract_from(entry.as_str(), NOVR_GP);
            },
            OverrideKey::MovementPoints => {
                self.apply_movement_points(entry);
            },
            OverrideKey::MovementType => {
                self.movement_type = extract_from(entry.as_str(), NOVR_MT);
            },
            OverrideKey::Manhandling => {
                self.manhandling = extract_from(entry.as_str(), NOVR_MANHANDLING);
            },
            OverrideKey::PassengerNumber => {
                self.pp_number = extract_from(entry.as_str(), NOVR_PP_NUMBER);
                self.pp_number_ignore = self.pp_number.as_str().is_empty();
            },
            OverrideKey::TowingNumber => {
                self.towing_number = extract_from(entry.as_str(), NOVR_TOWING_NUMBER);
            },
            OverrideKey::TargetSize => {
                self.target_size = extract_from(entry.as_str(), NOVR_SIZE);
            },
            _ => {},
        }
    }

    /// Applies an entry whose key sets a value of armour, range or ammunition.
    fn apply_protection(&mut self, key: OverrideKey, entry: &String)
        requires
            key == OverrideKey::ArmorFront || key == OverrideKey::ArmorRear || key == OverrideKey::ArmorSide || key == OverrideKey::TurretArmor || key == OverrideKey::GunType || key == OverrideKey::Range || key == OverrideKey::Range2 || key == OverrideKey::SpecialAmmo,
        ensures
            final(self)@ == applied_key(old(self)@, key, entry@),
    {
        match key {
            OverrideKey::ArmorFront => {
                self.armor_front = extract_from(entry.as_str(), NOVR_ARMOR_FRONT);
            },
            OverrideKey::ArmorRear => {
                self.armor_rear = extract_from(entry.as_str(), NOVR_ARMOR_REAR);
            },
            OverrideKey::ArmorSide => {
                self.armor_side = extract_from(entry.as_str(), NOVR_ARMOR_SIDE);
            },
            OverrideKey::TurretArmor => {
                self.turret_armor_modifiers = extract_from(entry.as_str(), NOVR_TA);
            },
            OverrideKey::GunType => {
                self.gt = extract_from(entry.as_str(), NOVR_GT);
            },
            OverrideKey::Range => {
                self.range_values = extract_from(entry.as_str(), NOVR_RANGE);
            },
            OverrideKey::Range2 => {
                self.range2_values = extract_from(entry.as_str(), NOVR_RANGE2);
            },
            OverrideKey::SpecialAmmo => {
                self.special_ammo = extract_from(entry.as_str(), NOVR_SPECIAL_AMMO);
            },
            _ => {},
        }
    }

    /// Applies an entry whose key sets a value that says what the piece is.
    fn apply_identity(&mut self, key: OverrideKey, entry: &String)
        requires
            key == OverrideKey::BackgroundColor || key == OverrideKey::Captured || key == OverrideKey::Name || key == OverrideKey::Nationality || key == OverrideKey::Qualifier,
        ensures
            final(self)@ == applied_key(old(self)@, key, entry@),
    {
        match key {
            OverrideKey::BackgroundColor => {
                self.background_color = extract_from(entry.as_str(), NOVR_BACKGROUND_COLOR);
            },
            OverrideKey::Captured => {
                self.captured = extract_from(entry.as_str(), NOVR_CAPTURED);
            },
            OverrideKey::Name => {
                self.name = extract_from(entry.as_str(), NOVR_NAME);
            },
            OverrideKey::Nationality => {
                self.nationality = extract_from(entry.as_str(), NOVR_NATIONALITY);
            },
            OverrideKey::Qualifier => {
                self.note_qualifier = extract_from(entry.as_str(), NOVR_QUALIFIER);
            },
            _ => {},
        }
    }

    /// Applies an entry that names `key`.
    pub fn apply_key(&mut self, key: OverrideKey, entry: &String)
        ensures
            final(self)@ == applied_key(old(self)@, key, entry@),
    {
        match key {
            OverrideKey::Announce | OverrideKey::ShiftArmor | OverrideKey::Copy | OverrideKey::DisplayName | OverrideKey::FixedBmg | OverrideKey::Ignore | OverrideKey::MainMovingTarget | OverrideKey::MultipleHits | OverrideKey::SecondaryMovingTarget => self.apply_flag(key, entry),
            OverrideKey::MainArmament | OverrideKey::MainBreakdown | OverrideKey::Mount | OverrideKey::SecondaryArmament | OverrideKey::SecondaryBreakdown | OverrideKey::MachineGuns | OverrideKey::Ife | OverrideKey::RateOfFire => self.apply_armament(key, entry),
            OverrideKey::GroundPressure | OverrideKey::MovementPoints | OverrideKey::MovementType | OverrideKey::Manhandling | OverrideKey::PassengerNumber | OverrideKey::TowingNumber | OverrideKey::TargetSize => self.apply_mobility(key, entry),
            OverrideKey::ArmorFront | OverrideKey::ArmorRear | OverrideKey::ArmorSide | OverrideKey::TurretArmor | OverrideKey::GunType | OverrideKey::Range | OverrideKey::Range2 | OverrideKey::SpecialAmmo => self.apply_protection(key, entry),
            OverrideKey::BackgroundColor | OverrideKey::Captured | OverrideKey::Name | OverrideKey::Nationality | OverrideKey::Qualifier => self.apply_identity(key, entry),
        }
    }

    /// Applies one entry, and says whether it named a key.
    pub fn apply_entry(&mut self, entry: &String) -> (known: bool)
        ensures
            known == recognized(entry@),
            final(self)@ == applied(old(self)@, entry@),
    {
        match classify_entry(entry) {
            Some(key) => {
                self.apply_key(key, entry);
                true
            },
            None => false,
        }
    }

    /// Reads a row's override string into the record, entry by entry. An
    /// entry that names no key ends the reading with an error that holds it;
    /// the entries before it have been applied.
    pub fn sanitize(&mut self, overrides: &String) -> (r: Result<(), DirectiveError>)
        ensures
            match first_unrecognized(entries_of(overrides@, OVERRIDE_DELIMITER)) {
                None => r is Ok && final(self)@ == applied_all(
                    old(self)@,
                    entries_of(overrides@, OVERRIDE_DELIMITER),
                ),
                Some(k) => r matches Err(DirectiveError::UnrecognizedDirective(t)) && t@
                    == entries_of(overrides@, OVERRIDE_DELIMITER)[k] && final(self)@
                    == applied_all(
                    old(self)@,
                    entries_of(overrides@, OVERRIDE_DELIMITER).subrange(0, k),
                ),
            },
    {
        let entries = extract_vector(overrides, OVERRIDE_DELIMITER);
        let ghost all = entries_of(overrides@, OVERRIDE_DELIMITER);
        let mut i: usize = 0;
        assert(all.subrange(0, 0) =~= Seq::<Seq<char>>::empty());
        while i < entries.len()
            invariant
                i <= entries.len(),
                all == entries_of(overrides@, OVERRIDE_DELIMITER),
                entries.deep_view() == all,
                first_unrecognized(all.subrange(0, i as int)) is None,
                self@ == applied_all(old(self)@, all.subrange(0, i as int)),
            decreases entries.len() - i,
        {
            let ghost upto = all.subrange(0, i + 1);
            assert(upto.subrange(0, upto.len() - 1) =~= all.subrange(0, i as int));
            assert(upto[upto.len() - 1] == all[i as int]);
            assert(all[i as int] == entries[i as int]@);
            let ghost before = self@;
            if !self.apply_entry(&entries[i]) {
                let culprit = entries[i].clone();
                proof {
                    assert(self@ == before);
                    assert(first_unrecognized(upto) == Some(i as int));
                    lemma_first_unrecognized_prefix(all, i + 1);
                    assert(first_unrecognized(all) == Some(i as int));
                    assert(culprit@ == all[i as int]);
                }
                return Err(DirectiveError::UnrecognizedDirective(culprit));
            }
            i = i + 1;
        }
        assert(all.subrange(0, entries.len() as int) =~= all);
        Ok(())
    }
}

/// Where a prefix of `entries` holds an entry that names no key, the first
/// such entry of `entries` is that of the prefix.
pub proof fn lemma_first_unrecognized_prefix(entries: Seq<Seq<char>>, n: int)
    requires
        0 <= n <= entries.len(),
        first_unrecognized(entries.subrange(0, n)) is Some,
    ensures
        first_unrecognized(entries) == first_unrecognized(entries.subrange(0, n)),
    decreases entries.len(),
{
    if n == entries.len() {
        assert(entries.subrange(0, n) =~= entries);
    } else {
        let front = entries.subrange(0, entries.len() - 1);
        assert(front.subrange(0, n) =~= entries.subrange(0, n));
        lemma_first_unrecognized_prefix(front, n);
    }
}

/// `value` names one of the four alternate locations.
pub open spec fn names_location(value: Seq<char>) -> bool {
    value == MOD_LOCATION_GS@ || value == MOD_LOCATION_MGS@ || value == MOD_LOCATION_ABOVE_MGS@
        || value == MOD_LOCATION_BEFORE_TOWING@
}

pub fn is_alternate_location(value: String) -> (r: bool)
    ensures
        r == names_location(value@),
{
    let v = to_chars(value.as_str());
    same_chars(&v, &to_chars(MOD_LOCATION_GS)) || same_chars(&v, &to_chars(MOD_LOCATION_MGS))
        || same_chars(&v, &to_chars(MOD_LOCATION_ABOVE_MGS)) || same_chars(
        &v,
        &to_chars(MOD_LOCATION_BEFORE_TOWING),
    )
}

} // verus!
