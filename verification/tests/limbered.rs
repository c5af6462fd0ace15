use common_functions::colors::nationality_to_colors;
use common_functions::common_record::CommonRecord;
use common_functions::limber::reinitialize_limbered_data;
use common_functions::movement::OrdnanceMovementValues;
use common_functions::overrides::DirectiveError;
use common_functions::text_field::{NoteAction, TextField, RANGE_FONTS};
use common_functions::turret::TurretType;

fn s(text: &str) -> String {
    text.to_string()
}

struct Gun {
    common: CommonRecord,
    gun_type: TextField,
    movement: OrdnanceMovementValues,
}

fn gun() -> Gun {
    let mut common = CommonRecord::default();
    let result = common.initialize(
        &s("ge"),
        &s("Note 12"),
        &s("7.5cm PaK"),
        &s("75L"),
        &s("16"),
        &s("2 (4)"),
        &s("B11"),
        &s("1.0"),
        &s("gePak40"),
        &s(""),
        &s(""),
    );
    assert!(result.is_ok());
    common.turret.speed = TurretType::FastTurret;
    let mut gun_type = TextField::default();
    gun_type.text = s("AT");
    let mut movement = OrdnanceMovementValues::default();
    movement.manhandling_number.text = s("12");
    Gun { common, gun_type, movement }
}

fn limber(g: &mut Gun, column: &str) -> Result<(), DirectiveError> {
    reinitialize_limbered_data(&mut g.common, &mut g.gun_type, &mut g.movement, &s(column))
}

#[test]
fn empty_column_changes_nothing() {
    let mut g = gun();
    assert!(limber(&mut g, "").is_ok());
    assert_eq!(g.common.turret.speed, TurretType::FastTurret);
    assert_eq!(g.gun_type.text, "AT");
    assert_eq!(g.common.ma.caliber, "75");
    assert_eq!(g.common.ma.velocity, "L");
    assert_eq!(g.common.ma.rof.text, "2");
    assert_eq!(g.common.ma.ife.text, "4");
    assert_eq!(g.common.malfunction.breakdown.value.text, "11");
    assert_eq!(g.movement.manhandling_number.text, "12");
    assert!(!g.common.overrides.ma.ignore);
}

#[test]
fn gun_that_cannot_fire_loses_mount_and_type() {
    let mut g = gun();
    assert!(limber(&mut g, "no_fire").is_ok());
    assert_eq!(g.common.turret.speed, TurretType::NonTurreted);
    assert_eq!(g.gun_type.text, "");
    assert!(g.common.overrides.ma.ignore);
    assert!(g.common.overrides.ma.malf.ignore);
    assert_eq!(g.common.ma.caliber, "75");
    assert_eq!(g.common.nationality, "ge");
    assert_eq!(g.common.pieces, vec![s("gePak40")]);
}

#[test]
fn gun_type_mount_and_size_follow_their_entries() {
    let mut g = gun();
    assert!(limber(&mut g, "gt=INF | mount=ST | size=-1").is_ok());
    assert_eq!(g.gun_type.text, "INF");
    assert_eq!(g.common.turret.speed, TurretType::SlowTurret);
    assert_eq!(g.movement.target_size, -1);
    assert_eq!(g.movement.manhandling_number.color, "red");
    assert_eq!(g.movement.unhooking_penalty_color, "red");
    assert_eq!(g.common.ma.caliber, "75");
}

#[test]
fn empty_gun_type_and_mount_are_passed_over() {
    let mut g = gun();
    assert!(limber(&mut g, "gt=|mount=").is_ok());
    assert_eq!(g.gun_type.text, "AT");
    assert_eq!(g.common.turret.speed, TurretType::FastTurret);
}

#[test]
fn target_size_sets_the_colours_of_the_manhandling_number() {
    let mut g = gun();
    assert!(limber(&mut g, "size=2").is_ok());
    assert_eq!(g.movement.target_size, 2);
    assert_eq!(g.movement.manhandling_number.color, "black");
    assert_eq!(g.movement.unhooking_penalty_color, g.common.colors.unhooking_penalty_color);
    let mut g = gun();
    assert!(limber(&mut g, "size=0").is_ok());
    assert_eq!(g.movement.target_size, 0);
    assert_eq!(g.movement.manhandling_number.color, g.common.colors.manhandling_fill);
    let mut g = gun();
    assert!(limber(&mut g, "size=big").is_ok());
    assert_eq!(g.movement.target_size, 0);
    assert_eq!(g.movement.manhandling_number.color, g.common.colors.manhandling_fill);
    assert_eq!(g.common.colors.background, nationality_to_colors(&s("ge")).background);
}

#[test]
fn manhandling_number_is_read_with_its_mark_and_penalty() {
    let mut g = gun();
    assert!(limber(&mut g, "man=*<b>9</b>").is_ok());
    assert_eq!(g.movement.manhandling_number.text, "9");
    assert_eq!(g.movement.manhandling_number.note.action, NoteAction::Infix);
    assert!(g.movement.unhooking_penalty);
    let mut g = gun();
    assert!(limber(&mut g, "man=8").is_ok());
    assert_eq!(g.movement.manhandling_number.text, "8");
    assert_eq!(g.movement.manhandling_number.note.action, NoteAction::Unset);
    assert!(!g.movement.unhooking_penalty);
}

#[test]
fn caliber_is_read_anew_from_its_entry() {
    let mut g = gun();
    assert!(limber(&mut g, "ma=37LL").is_ok());
    assert_eq!(g.common.overrides.ma.text, "37LL");
    assert_eq!(g.common.ma.caliber, "37");
    assert_eq!(g.common.ma.velocity, "LL");
    assert_eq!(g.common.ma.raw_caliber, "75L");
    assert_eq!(g.common.ma.rof.text, "2");
}

#[test]
fn breakdown_is_read_anew_from_its_entry() {
    let mut g = gun();
    assert!(limber(&mut g, "mb=B12").is_ok());
    assert_eq!(g.common.overrides.ma.malf.text, "B12");
    assert_eq!(g.common.malfunction.breakdown.category, 'B');
    assert_eq!(g.common.malfunction.breakdown.value.text, "12");
}

#[test]
fn range_is_built_from_its_entry() {
    let mut g = gun();
    assert!(limber(&mut g, "range=[2-12]@sz-1").is_ok());
    assert_eq!(g.common.overrides.range_values, "[2-12]@sz-1");
    assert_eq!(g.common.ma.range.text, "[2-12]");
    assert_eq!(g.common.ma.range.fonts.size(), RANGE_FONTS[0][0] - 100);
    assert_eq!(g.common.ma.range.color, g.common.colors.text);
}

#[test]
fn rate_of_fire_and_firepower_are_emptied_by_a_bare_key() {
    let mut g = gun();
    assert!(limber(&mut g, "rof=|ife=").is_ok());
    assert_eq!(g.common.ma.rof.text, "");
    assert_eq!(g.common.ma.ife.text, "");
    let mut g = gun();
    assert!(limber(&mut g, "rof=3").is_ok());
    assert_eq!(g.common.ma.rof.text, "3");
    assert_eq!(g.common.ma.ife.text, "4");
}

#[test]
fn entry_without_a_known_key_is_passed_over() {
    let mut g = gun();
    assert!(limber(&mut g, "towed=yes|gt=MTR").is_ok());
    assert_eq!(g.gun_type.text, "MTR");
    assert_eq!(g.common.ma.caliber, "75");
}

#[test]
fn unknown_breakdown_directive_ends_the_reading() {
    let mut g = gun();
    match limber(&mut g, "gt=INF|mb=B12@up|mount=ST") {
        Err(DirectiveError::UnrecognizedDirective(t)) => assert_eq!(t, "up"),
        other => panic!("unexpected: {:?}", other),
    }
    assert_eq!(g.gun_type.text, "INF");
    assert_eq!(g.common.overrides.ma.malf.text, "B12@up");
    assert_eq!(g.common.malfunction.breakdown.value.text, "11");
    assert_eq!(g.common.turret.speed, TurretType::FastTurret);
}

#[test]
fn ignored_breakdown_is_not_read() {
    let mut g = gun();
    assert!(limber(&mut g, "no_fire|mb=B12@up").is_ok());
    assert_eq!(g.common.overrides.ma.malf.text, "B12@up");
    assert_eq!(g.common.malfunction.breakdown.value.text, "11");
}
