//! The mount of the main armament.

use vstd::prelude::*;
use crate::colors::Colors;
use crate::overrides::{Overrides, OverridesView};
use crate::scan::{contains_text, cut_before, to_chars, to_text};
use crate::text::{before_first, occurs_in};

verus! {

/// How the main armament is mounted.
#[derive(PartialEq, Eq, Structural, Clone, Copy, Debug)]
pub enum TurretType {
    NonTurreted,
    /// A mount that turns all the way round.
    FastTurret,
    SlowTurret,
    RestrictedSlowTurret,
    OneManTurret,
}

impl Default for TurretType {
    fn default() -> (r: Self)
        ensures
            r == TurretType::NonTurreted,
    {
        TurretType::NonTurreted
    }
}

impl TurretType {
    /// The name of the mount.
    pub fn name(&self) -> (r: String)
        ensures
            r@ == match *self {
                TurretType::NonTurreted => "NonTurreted"@,
                TurretType::FastTurret => "FastTurret"@,
                TurretType::SlowTurret => "SlowTurret"@,
                TurretType::RestrictedSlowTurret => "RestrictedSlowTurret"@,
                TurretType::OneManTurret => "OneManTurret"@,
            },
    {
        match self {
            TurretType::NonTurreted => "NonTurreted".to_string(),
            TurretType::FastTurret => "FastTurret".to_string(),
            TurretType::SlowTurret => "SlowTurret".to_string(),
            TurretType::RestrictedSlowTurret => "RestrictedSlowTurret".to_string(),
            TurretType::OneManTurret => "OneManTurret".to_string(),
        }
    }
}

/// What a `Turret` holds.
pub struct TurretView {
    pub speed: TurretType,
    pub color: Seq<char>,
}

/// The mount of a counter and the colour it is drawn in.
#[derive(Debug)]
pub struct Turret {
    pub speed: TurretType,
    pub color: String,
}

impl View for Turret {
    type V = TurretView;

    open spec fn view(&self) -> TurretView {
        TurretView { speed: self.speed, color: self.color@ }
    }
}

impl TurretView {
    /// What a new `Turret` holds.
    pub open spec fn blank() -> TurretView {
        TurretView { speed: TurretType::NonTurreted, color: Seq::empty() }
    }
}

impl Default for Turret {
    fn default() -> (r: Self)
        ensures
            r@ == TurretView::blank(),
    {
        Turret { speed: TurretType::NonTurreted, color: String::new() }
    }
}

/// The mount that `mount` names: the first of the one-man, the restricted
/// slow, the slow, the absent and the fast turret whose abbreviation occurs
/// in it; no turret where none does.
pub open spec fn turret_type_of(mount: Seq<char>) -> TurretType {
    if occurs_in("1MT"@, mount) {
        TurretType::OneManTurret
    } else if occurs_in("RST"@, mount) {
        TurretType::RestrictedSlowTurret
    } else if occurs_in("ST"@, mount) {
        TurretType::SlowTurret
    } else if occurs_in("NT"@, mount) {
        TurretType::NonTurreted
    } else if occurs_in("T"@, mount) {
        TurretType::FastTurret
    } else {
        TurretType::NonTurreted
    }
}

pub fn string_to_turret_type(mount: &String) -> (result: TurretType)
    ensures
        result == turret_type_of(mount@),
{
    let m = to_chars(mount.as_str());
    if contains_text(&m, &to_chars("1MT")) {
        TurretType::OneManTurret
    } else if contains_text(&m, &to_chars("RST")) {
        TurretType::RestrictedSlowTurret
    } else if contains_text(&m, &to_chars("ST")) {
        TurretType::SlowTurret
    } else if contains_text(&m, &to_chars("NT")) {
        TurretType::NonTurreted
    } else if contains_text(&m, &to_chars("T")) {
        TurretType::FastTurret
    } else {
        TurretType::NonTurreted
    }
}

/// The text that names the mount: the override where there is one, else
/// what stands in `source` before its first comma or, without a comma,
/// before its first hyphen.
pub open spec fn mount_text(source: Seq<char>, mount_override: Seq<char>) -> Seq<char> {
    if mount_override.len() > 0 {
        mount_override
    } else if occurs_in(","@, source) {
        before_first(source, ","@)
    } else {
        before_first(source, "-"@)
    }
}

pub fn extract_turret_type(source: &String, overrides: &Overrides) -> (result: TurretType)
    ensures
        result == turret_type_of(mount_text(source@, overrides.ma.mount@)),
{
    let s = to_chars(source.as_str());
    let mount: String = if !overrides.ma.mount.as_str().is_empty() {
        overrides.ma.mount.clone()
    } else if contains_text(&s, &to_chars(",")) {
        to_text(&cut_before(&s, &to_chars(",")))
    } else {
        to_text(&cut_before(&s, &to_chars("-")))
    };
    string_to_turret_type(&mount)
}

/// The mount of a counter: left as it is where the main armament is
/// ignored, else read from `source` and the overrides and drawn in the
/// turret colour.
pub open spec fn turret_sanitized(
    before: TurretView,
    source: Seq<char>,
    overrides: OverridesView,
    turret_color: Seq<char>,
) -> TurretView {
    if overrides.ma.ignore {
        before
    } else {
        TurretView {
            speed: turret_type_of(mount_text(source, overrides.ma.mount)),
            color: turret_color,
        }
    }
}

impl Turret {
    pub fn sanitize(&mut self, source: &String, overrides: &Overrides, colors: &Colors)
        ensures
            final(self)@ == turret_sanitized(
                old(self)@,
                source@,
                overrides@,
                colors.turret_type@,
            ),
    {
        if !overrides.ma.ignore {
            self.speed = extract_turret_type(source, overrides);
            self.color = colors.turret_type.clone();
        }
    }
}

} // verus!
