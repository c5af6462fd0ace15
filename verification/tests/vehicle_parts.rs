use common_functions::armor::{
    extract_armor_modifier_values, extract_armor_values, ArmorModifier, ArmorValue, ArmorValues,
};
use common_functions::colors::{nationality_to_color, nationality_to_colors, Colors};
use common_functions::machine_guns::{MachineGuns, MGS_FONTS};
use common_functions::malfunction::{Malf, Malfunction, BREAKDOWN_FONTS, NO_CATEGORY};
use common_functions::overrides::{DirectiveError, Overrides};
use common_functions::text_field::NoteAction;
use common_functions::transport::{TransportValues, TRANSPORT_FONTS};
use common_functions::turret::{extract_turret_type, string_to_turret_type, Turret, TurretType};

fn s(text: &str) -> String {
    text.to_string()
}

fn overrides(text: &str) -> Overrides {
    let mut o = Overrides::default();
    assert!(o.sanitize(&s(text)).is_ok());
    o
}

fn armor(af: &str, ta: &str, size: &str, ov: &str) -> ArmorValues {
    let mut values = ArmorValues::default();
    assert!(values.initialize(&s(af), &s(ta), &s(size), &overrides(ov), &Colors::default()).is_ok());
    values
}

#[test]
fn colors_of_a_nationality() {
    assert_eq!(nationality_to_color(&s("ge")), vec![s("#91cdf5"), s("")]);
    assert_eq!(nationality_to_color(&s("cc")), vec![s("#d68d1a"), s("#e5cea0")]);
    assert_eq!(nationality_to_color(&s("us")), vec![s("#cddb42"), s("")]);
    assert_eq!(nationality_to_color(&s("jk")), vec![s("#d68d1a"), s("#ffdb00")]);
    assert_eq!(nationality_to_color(&s("??")), vec![s("#ffc0ff"), s("")]);
}

#[test]
fn colors_of_a_counter() {
    let colors = nationality_to_colors(&s("br"));
    assert_eq!(colors.background, "#e5cea0");
    assert_eq!(colors.text, "black");
    assert!(!colors.is_ss);
    let colors = nationality_to_colors(&s("ss"));
    assert!(colors.is_ss);
    assert_eq!(colors.background, "#000000");
    assert_eq!(colors.text, "white");
    assert_eq!(colors.malfunction_x, "#b4b4b4");
    assert_eq!(colors.movement_type_open_topped, "#8ccdf5");
    let colors = nationality_to_colors(&s("sh"));
    assert_eq!(colors.movement_type, "#b4b4b4");
    assert_eq!(colors.small_unarmored_target_stroke, "black");
    let colors = Colors::default();
    assert_eq!(colors.background, "#ffc0ff");
    assert_eq!(colors.large_target, "#ff0000");
}

#[test]
fn turret_type_is_read_from_the_mount() {
    assert_eq!(string_to_turret_type(&s("1MT")), TurretType::OneManTurret);
    assert_eq!(string_to_turret_type(&s("RST")), TurretType::RestrictedSlowTurret);
    assert_eq!(string_to_turret_type(&s("ST")), TurretType::SlowTurret);
    assert_eq!(string_to_turret_type(&s("NT")), TurretType::NonTurreted);
    assert_eq!(string_to_turret_type(&s("T")), TurretType::FastTurret);
    assert_eq!(string_to_turret_type(&s("")), TurretType::NonTurreted);
    assert_eq!(string_to_turret_type(&s("x")), TurretType::NonTurreted);
}

#[test]
fn turret_type_stands_before_comma_or_hyphen() {
    let none = Overrides::default();
    assert_eq!(extract_turret_type(&s("T, ST"), &none), TurretType::FastTurret);
    assert_eq!(extract_turret_type(&s("NT-T"), &none), TurretType::NonTurreted);
    assert_eq!(extract_turret_type(&s("T-ST, RST"), &none), TurretType::SlowTurret);
    assert_eq!(extract_turret_type(&s("RST"), &none), TurretType::RestrictedSlowTurret);
    assert_eq!(extract_turret_type(&s("T"), &overrides("mount=1MT")), TurretType::OneManTurret);
}

#[test]
fn turret_is_sanitized_unless_ignored() {
    let colors = Colors::default();
    let mut turret = Turret::default();
    turret.sanitize(&s("ST"), &overrides("ma="), &colors);
    assert_eq!(turret.speed, TurretType::NonTurreted);
    assert_eq!(turret.color, "");
    turret.sanitize(&s("ST"), &Overrides::default(), &colors);
    assert_eq!(turret.speed, TurretType::SlowTurret);
    assert_eq!(turret.color, "white");
    assert_eq!(TurretType::FastTurret.name(), "FastTurret");
    assert_eq!(TurretType::default().name(), "NonTurreted");
}

#[test]
fn armor_factors_are_cut_at_the_slash() {
    assert_eq!(extract_armor_values(&s("8/6")), vec![s("8"), s("6")]);
    assert_eq!(extract_armor_values(&s("8")), vec![s("8"), s("8")]);
    assert_eq!(extract_armor_values(&s("11/8/6")), vec![s("11"), s("8"), s("6")]);
    assert_eq!(extract_armor_values(&s("11†<sup>1</sup>/8")), vec![s("11"), s("8")]);
    assert_eq!(extract_armor_values(&s("")), vec![s(""), s("")]);
    assert_eq!(extract_armor_modifier_values(&s("+F†/-SR")), vec![s("+F"), s("-SR")]);
    assert_eq!(extract_armor_modifier_values(&s("")), vec![s("")]);
}

#[test]
fn two_armor_values_are_front_and_side() {
    let values = armor("8/6", "", "0", "");
    assert_eq!(values.count, 2);
    assert_eq!(values.front.value, "8");
    assert_eq!(values.side.value, "6");
    assert_eq!(values.rear.value, "");
    assert_eq!((values.front.y_position, values.side.y_position, values.rear.y_position), (1500, 2600, 3700));
    assert_eq!(values.front.comment, "Front Armor");
    assert_eq!(values.side.comment, "Side/Rear Armor");
    assert_eq!(values.rear.comment, "Rear Armor");
    assert_eq!(values.front.fill_color, "black");
    assert_eq!(values.front.stroke_color, "none");
    assert_eq!(values.front.modifier_color, "black");
    assert_eq!(values.target_size, 0);
}

#[test]
fn three_armor_values_add_the_rear() {
    let values = armor("11/8/6", "", "0", "");
    assert_eq!(values.count, 3);
    assert_eq!(values.rear.value, "6");
}

#[test]
fn four_armor_values_are_reported_and_the_rest_is_done() {
    let mut values = ArmorValues::default();
    let result = values.initialize(&s("1/2/3/4"), &s("+F"), &s("-2"), &Overrides::default(), &Colors::default());
    match result {
        Err(DirectiveError::MissingRequiredSplit(t)) => assert_eq!(t, "1/2/3/4"),
        other => panic!("unexpected: {:?}", other),
    }
    assert_eq!(values.count, 0);
    assert_eq!(values.front.value, "");
    assert_eq!(values.front.modifier, ArmorModifier::Superior);
    assert_eq!(values.target_size, -2);
    assert_eq!(values.front.fill_color, "#ff0000");
}

#[test]
fn armor_values_can_be_overridden() {
    let values = armor("8/6", "", "0", "far=$$[*]|sar=<b*>4|rar=2");
    assert_eq!(values.front.value, "8");
    assert_eq!(values.front.note.action, NoteAction::Postfix);
    assert_eq!(values.front.note.text, "<tspan style=\"font-family:Nimbus Sans L\">&#x002A;</tspan>");
    assert_eq!(values.side.value, "4");
    assert_eq!(values.side.note.action, NoteAction::Prefix);
    assert_eq!(
        values.side.note.text,
        "<tspan style=\"font-family:Nimbus Sans L;font-weight:bold;fill:black;stroke:none\">&#x273D;</tspan>"
    );
    assert_eq!(values.rear.value, "2");
}

#[test]
fn armor_note_is_set_once() {
    let mut value = ArmorValue::default();
    value.value = s("[b*]8[*]");
    value.note_all();
    assert_eq!(value.value, "8");
    assert_eq!(value.note.action, NoteAction::Prefix);
    assert_eq!(
        value.note.text,
        "<tspan style=\"font-family:Nimbus Sans L;fill:black;stroke:none\">&#x002A;</tspan>"
    );
}

#[test]
fn turret_armor_modifiers_are_applied_in_order() {
    let values = armor("8/6", "+FSR/-F", "0", "");
    assert_eq!(values.front.modifier, ArmorModifier::Inferior);
    assert_eq!(values.side.modifier, ArmorModifier::Superior);
    assert_eq!(values.rear.modifier, ArmorModifier::Superior);
    let values = armor("8/6", "--F†", "0", "");
    assert_eq!(values.front.modifier, ArmorModifier::ExtraInferior);
    assert_eq!(values.side.modifier, ArmorModifier::Unmodified);
    let values = armor("8/6", "+F", "0", "ta=-SR");
    assert_eq!(values.front.modifier, ArmorModifier::Unmodified);
    assert_eq!(values.side.modifier, ArmorModifier::Inferior);
    assert_eq!(values.rear.modifier, ArmorModifier::Inferior);
    let values = armor("8/6", "?", "0", "");
    assert_eq!(values.front.modifier, ArmorModifier::Unmodified);
    assert_eq!(ArmorModifier::Unmodified.name(), "None");
    assert_eq!(ArmorModifier::ExtraInferior.name(), "ExtraInferior");
}

#[test]
fn target_size_colours_the_armor() {
    let values = armor("8/6/4", "", "-3", "");
    assert_eq!(values.target_size, -3);
    assert_eq!(values.front.fill_color, "#ff0000");
    assert_eq!(values.side.modifier_color, "#ff0000");
    assert!(values.rear.large_target_circle);
    let values = armor("8/★", "", "-1†", "");
    assert_eq!(values.target_size, -1);
    assert_eq!(values.front.fill_color, "#ff0000");
    assert_eq!(values.side.fill_color, "black");
    assert_eq!(values.side.stroke_color, "none");
    let values = armor("8/★", "", "1", "");
    assert!(values.front.small_target_circle);
    assert_eq!(values.front.small_target_circle_color, "white");
    assert!(!values.side.small_target_circle);
    let values = armor("★/6", "", "2", "");
    assert!(!values.front.small_target_circle);
    assert_eq!(values.front.fill_color, "white");
    assert!(values.side.small_target_circle);
    let values = armor("8/6", "", "9", "size=-2");
    assert_eq!(values.target_size, -2);
    let values = armor("8/6", "", "big", "");
    assert_eq!(values.target_size, 0);
    let values = armor("8/6", "", "5", "");
    assert_eq!(values.target_size, 5);
    assert_eq!(values.front.fill_color, "black");
}

fn breakdown(source: &str, ov: &str) -> Malfunction {
    let mut m = Malfunction::default();
    assert!(m.sanitize(&s(source), &overrides(ov).ma, &Colors::default()).is_ok());
    m
}

#[test]
fn breakdown_number_is_read() {
    let m = breakdown("B11", "");
    assert_eq!(m.breakdown.category, 'B');
    assert_eq!(m.breakdown.value.text, "11");
    assert_eq!(m.breakdown.value.color, "black");
    assert_eq!(m.breakdown.value.fonts.fonts, BREAKDOWN_FONTS);
    assert!(!m.breakdown.low_ammo);
    assert_eq!(m.disable.category, NO_CATEGORY);
    let m = breakdown("X12", "");
    assert_eq!(m.breakdown.category, 'X');
    assert_eq!(m.breakdown.value.text, "12");
    let m = breakdown("B11†<sup>2</sup>", "");
    assert_eq!(m.breakdown.value.text, "11");
}

#[test]
fn breakdown_tags_become_its_note() {
    let m = breakdown("[*]B11", "");
    assert_eq!(m.breakdown.value.text, "11");
    assert_eq!(m.breakdown.value.note.action, NoteAction::Prefix);
    assert_eq!(m.breakdown.value.note.text, "&#x002A;");
    let m = breakdown("B11<*>", "");
    assert_eq!(m.breakdown.value.note.action, NoteAction::Postfix);
    assert_eq!(
        m.breakdown.value.note.text,
        "<tspan style=\"font-family:Nimbus Sans L;font-weight:bold;font-size:4.8px\" baseline-shift=\"super\">&#x273D;</tspan>"
    );
    let m = breakdown("B11<b*>", "");
    assert_eq!(
        m.breakdown.value.note.text,
        "<tspan style=\"font-family:Nimbus Sans L;font-weight:bold;fill:black;stroke:none\" baseline-shift=\"super\">&#x273D;</tspan>"
    );
}

#[test]
fn breakdown_markup_is_resolved() {
    let m = breakdown("<i>B11</i>", "");
    assert!(m.breakdown.low_ammo);
    assert_eq!(m.breakdown.value.text, "11");
    let m = breakdown("<b>B11</b>", "");
    assert_eq!(m.breakdown.value.color, "red");
    assert_eq!(m.breakdown.value.text, "11");
    let m = breakdown("B11^44+", "");
    assert_eq!(m.breakdown.value.text, "11");
    assert_eq!(m.breakdown.superscript, "44+");
}

#[test]
fn breakdown_can_be_overridden() {
    let m = breakdown("B11†", "mb=$$^45@sz-1.2@above_mgs");
    assert_eq!(m.breakdown.value.text, "11");
    assert_eq!(m.breakdown.superscript, "45");
    assert_eq!(m.breakdown.value.fonts.size(), 720);
    assert_eq!(m.breakdown.value.alternate_location, "above_mgs");
    let m = breakdown("B11", "mb=X10@sz+1@sz+2");
    assert_eq!(m.breakdown.category, 'X');
    assert_eq!(m.breakdown.value.text, "10");
    assert_eq!(m.breakdown.value.fonts.size(), 1040);
}

#[test]
fn breakdown_that_is_ignored_or_empty_is_not_read() {
    for (source, ov) in [("B11", "mb="), ("B11", "ma="), ("", ""), ("†", ""), ("†<sup>1</sup>", "")] {
        let m = breakdown(source, ov);
        assert_eq!(m.breakdown.category, NO_CATEGORY);
        assert_eq!(m.breakdown.value.text, "");
    }
}

#[test]
fn unknown_breakdown_modifier_is_fatal() {
    let mut m = Malfunction::default();
    let result = m.sanitize(&s("B11"), &overrides("mb=B10@nowhere@sz+1").ma, &Colors::default());
    match result {
        Err(DirectiveError::UnrecognizedDirective(t)) => assert_eq!(t, "nowhere"),
        other => panic!("unexpected: {:?}", other),
    }
    assert_eq!(m.breakdown.category, NO_CATEGORY);
    assert_eq!(m.breakdown.value.text, "");
}

#[test]
fn breakdown_takes_its_height_from_the_column() {
    let m = breakdown("B11", "");
    assert_eq!(m.breakdown.consumed_height(), 860);
    assert_eq!(m.consumed_height(), 860);
    let m = breakdown("<i>B11</i>", "");
    assert_eq!(m.consumed_height(), 1160);
    let m = breakdown("B11", "mb=$$@above_mgs");
    assert_eq!(m.consumed_height(), 0);
    assert_eq!(Malfunction::default().consumed_height(), 0);
    let mut m = breakdown("B11", "");
    m.disable.category = 'X';
    assert_eq!(m.consumed_height(), 1720);
    let mut single = Malf::default();
    single.sanitize(&s("X6"), &s("2"), &s(""), -120, &Colors::default());
    assert_eq!(single.category, 'X');
    assert_eq!(single.value.text, "6");
    assert_eq!(single.superscript, "2");
    assert_eq!(single.value.fonts.size(), 720);
}

fn guns(bmg: &str, cmg: &str, aamg: &str, ov: &str) -> MachineGuns {
    let mut m = MachineGuns::default();
    assert!(m.sanitize(&s(bmg), &s(cmg), &s(aamg), &overrides(ov), &Colors::default()).is_ok());
    m
}

#[test]
fn machine_guns_stand_side_by_side() {
    assert_eq!(guns("2", "4", "", "").field.text, "2/4");
    assert_eq!(guns("", "4", "", "").field.text, "-/4");
    assert_eq!(guns("2", "", "", "").field.text, "2/-");
    assert_eq!(guns("2", "4", "5", "").field.text, "2/4/5");
    assert_eq!(guns("", "", "5", "").field.text, "-/-/5");
    assert_eq!(guns("", "", "", "").field.text, "");
    assert_eq!(guns("2Opt", "4", "", "").field.text, "2/4");
    let m = guns("2", "4", "", "");
    assert_eq!(m.field.color, "black");
    assert_eq!(m.field.fonts.fonts, MGS_FONTS);
    assert!(!m.fixed_bmg);
}

#[test]
fn dagger_on_a_machine_gun_leaves_an_asterisk() {
    assert_eq!(guns("2†", "4†<sup>1</sup>", "1†", "").field.text, "2&#x002A;/4&#x002A;/1&#x002A;");
    let m = guns("2†", "4", "", "fixed_bmg");
    assert_eq!(m.field.text, "2/4");
    assert!(m.fixed_bmg);
}

#[test]
fn machine_guns_can_be_overridden() {
    let m = guns("2", "4", "", "mgs=3[*]/5<*>@sz-1@above_mgs");
    assert_eq!(
        m.field.text,
        "3&#x002A;/5<tspan style=\"font-family:Nimbus Sans L;font-weight:bold;font-size:4.2px\" baseline-shift=\"super\">&#x273D;</tspan>"
    );
    assert_eq!(m.field.fonts.size(), 700);
    assert_eq!(m.field.alternate_location, "above_mgs");
    assert_eq!(guns("2", "4", "", "mgs=$$").field.text, "$$");
    assert_eq!(guns("2", "4", "", "mgs=").field.text, "");
    let m = guns("2", "4", "", "mgs=6<sup>1</sup>");
    assert_eq!(
        m.field.text,
        "6<tspan style=\"font-size:6px;font-weight:bold;font-family:Nimbus Sans L\" baseline-shift=\"super\">1</tspan>"
    );
}

#[test]
fn unknown_machine_gun_modifier_is_fatal() {
    let mut m = MachineGuns::default();
    let result = m.sanitize(&s("2"), &s("4"), &s(""), &overrides("mgs=3/5@sz+1@up@sz+1"), &Colors::default());
    match result {
        Err(DirectiveError::UnrecognizedDirective(t)) => assert_eq!(t, "up"),
        other => panic!("unexpected: {:?}", other),
    }
    assert_eq!(m.field.text, "3/5");
    assert_eq!(m.field.fonts.size(), 900);
}

fn transport(source: &str, ov: &str) -> TransportValues {
    let mut t = TransportValues::default();
    assert!(t.sanitize(&s(source), &overrides(ov), &Colors::default()).is_ok());
    t
}

#[test]
fn transport_column_is_cut_into_its_numbers() {
    let t = transport("12PP/T5", "");
    assert!(t.pp.is_set);
    assert_eq!(t.pp.text, "12PP");
    assert_eq!(t.pp.color, "black");
    assert_eq!(t.pp.fonts.fonts, TRANSPORT_FONTS);
    assert!(t.towing.is_set);
    assert_eq!(t.towing.text, "T5");
    assert!(!t.manhandling_number.is_set);
    let t = transport("M3", "");
    assert!(t.manhandling_number.is_set);
    assert_eq!(t.manhandling_number.text, "3");
    let t = transport("", "");
    assert!(!t.pp.is_set && !t.towing.is_set && !t.manhandling_number.is_set);
    let t = transport("x/", "");
    assert!(!t.pp.is_set && !t.towing.is_set);
}

#[test]
fn transport_notes_and_superscripts_are_resolved() {
    let t = transport("6PP†<sup>2</sup>/T5", "");
    assert_eq!(t.pp.text, "6PP");
    assert_eq!(t.towing.text, "T5");
    let t = transport("6PP†/T5†", "");
    assert_eq!(t.pp.text, "6PP");
    assert_eq!(t.towing.text, "T5");
    let t = transport("6<sup>2</sup>PP/T5", "");
    assert_eq!(
        t.pp.text,
        "6<tspan style=\"font-size:4.8px;font-weight:bold;font-family:Nimbus Sans L\" baseline-shift=\"super\">2</tspan>PP"
    );
    assert_eq!(t.towing.text, "T5");
}

#[test]
fn transport_numbers_can_be_overridden() {
    let t = transport("12PP/T5", "pp=[$$]@sz-1@above_mgs|tow=T6[*]");
    assert_eq!(t.pp.text, "[12PP]");
    assert_eq!(t.pp.alternate_location, "above_mgs");
    // the metrics are set anew behind the override
    assert_eq!(t.pp.fonts.fonts, TRANSPORT_FONTS);
    assert_eq!(t.towing.text, "T6&#x002A;");
    let t = transport("12PP/T5", "pp=");
    assert!(!t.pp.is_set);
    assert_eq!(t.pp.text, "");
    let t = transport("", "man=4");
    assert!(t.manhandling_number.is_set);
    assert_eq!(t.manhandling_number.text, "4");
}

#[test]
fn dagger_that_cannot_be_taken_out_is_an_error() {
    let mut t = TransportValues::default();
    let result = t.sanitize(&s("6†<sup>1</sup>†PP"), &Overrides::default(), &Colors::default());
    match result {
        Err(DirectiveError::PatternMismatch(text)) => assert_eq!(text, "6†<sup>1</sup>†PP"),
        other => panic!("unexpected: {:?}", other),
    }
    assert!(!t.pp.is_set);
    assert_eq!(t.pp.text, "");
}

#[test]
fn passenger_number_of_a_craft() {
    let mut t = TransportValues::default();
    assert!(t.lc_sanitize(&s("14†"), true, &Overrides::default(), &Colors::default()).is_ok());
    assert!(t.pp.is_set);
    assert_eq!(t.pp.text, "14");
    assert_eq!(t.pp.note.action, NoteAction::Postfix);
    assert_eq!(t.pp.note.text, "<tspan style=\"font-family:Nimbus Sans L\">&#x002A;</tspan>");
    assert_eq!(t.pp.fonts.selected_font, 1);
    assert_eq!(t.pp.fonts.size(), 750);
    let mut t = TransportValues::default();
    assert!(t.gl_sanitize(&s("14"), &Overrides::default(), &Colors::default()).is_ok());
    assert_eq!(t.pp.text, "14");
    assert_eq!(t.pp.note.action, NoteAction::Unset);
    assert_eq!(t.pp.fonts.selected_font, 0);
    let mut t = TransportValues::default();
    assert!(t.lc_sanitize(&s(""), true, &Overrides::default(), &Colors::default()).is_ok());
    assert!(!t.pp.is_set);
}

#[test]
fn passenger_number_of_a_craft_can_be_overridden() {
    let mut t = TransportValues::default();
    assert!(t.lc_sanitize(&s("14†"), true, &overrides("pp=16[*]@sz+1"), &Colors::default()).is_ok());
    assert_eq!(t.pp.text, "16");
    assert_eq!(t.pp.note.action, NoteAction::Postfix);
    assert_eq!(t.pp.fonts.selected_font, 0);
    assert_eq!(t.pp.fonts.size(), 900);
    let mut t = TransportValues::default();
    assert!(t.lc_sanitize(&s("14†"), false, &overrides("pp=16"), &Colors::default()).is_ok());
    assert_eq!(t.pp.text, "16");
    assert_eq!(t.pp.note.action, NoteAction::Unset);
    let mut t = TransportValues::default();
    assert!(t.gl_sanitize(&s("14"), &overrides("pp="), &Colors::default()).is_ok());
    assert!(!t.pp.is_set);
    assert_eq!(t.pp.text, "");
}
