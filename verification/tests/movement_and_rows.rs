use common_functions::arguments::Arguments;
use common_functions::classes::{sanitize_class_identifier, sanitize_morale, ClassIdentifier};
use common_functions::colors::{nationality_to_colors, Colors};
use common_functions::common_record::{extract_note_number, CommonRecord};
use common_functions::metrics::{
    format_fixed, format_metric, parse_hundredths, parse_integer, parse_size_delta,
};
use common_functions::movement::{
    extract_movement_points, generate_note_actions, sanitize_repair_numbers,
    string_to_movement_type, GroundPressure, MovementType, OrdnanceMovementValues,
    VehicleMovementValues, MH_NUMBER_FONTS, MP_FONTS,
};
use common_functions::limber::{classify_limbered, limber_manhandling, limber_size};
use common_functions::ordnance::{extract_nationality, shown_gun_type};
use common_functions::overrides::{DirectiveError, OverrideKey, Overrides};
use common_functions::support::{
    sanitize_breakdown, sanitize_leadership, sanitize_pp, sanitize_repair, sanitize_value,
};
use common_functions::text_field::{Note, NoteAction, TextField};
use common_functions::turret::TurretType;
use common_functions::utils::{format_authors, strip_vehicle_type_from_name};

fn s(text: &str) -> String {
    text.to_string()
}

fn chars(text: &str) -> Vec<char> {
    text.chars().collect()
}

fn text(v: Vec<char>) -> String {
    v.into_iter().collect()
}

fn overrides(text: &str) -> Overrides {
    let mut o = Overrides::default();
    assert!(o.sanitize(&s(text)).is_ok());
    o
}

fn vehicle(name: &str, mps: &str, gp: &str, ov: &str, open_topped: bool) -> VehicleMovementValues {
    let mut m = VehicleMovementValues::default();
    assert!(m.sanitize(&s(name), &s(mps), &s(gp), &overrides(ov), open_topped, &Colors::default()).is_ok());
    m
}

#[test]
fn decimal_numbers_are_read_in_hundredths() {
    assert_eq!(parse_hundredths(&chars("8.4")), Some(840));
    assert_eq!(parse_hundredths(&chars("66.67")), Some(6667));
    assert_eq!(parse_hundredths(&chars("12")), Some(1200));
    assert_eq!(parse_hundredths(&chars("1000000")), Some(100000000));
    assert_eq!(parse_hundredths(&chars("1000000.99")), Some(100000099));
    assert_eq!(parse_hundredths(&chars("1000001")), None);
    assert_eq!(parse_hundredths(&chars("")), None);
    assert_eq!(parse_hundredths(&chars(".")), None);
    assert_eq!(parse_hundredths(&chars("-1")), None);
    assert_eq!(parse_hundredths(&chars("1,5")), None);
    assert_eq!(parse_hundredths(&chars("٣")), None);
    assert_eq!(parse_size_delta(&chars("x")), 0);
    assert_eq!(parse_size_delta(&chars("0.5")), 50);
    assert_eq!(parse_size_delta(&chars("-0.5")), -50);
    assert_eq!(parse_size_delta(&chars("+2")), 200);
    assert_eq!(parse_size_delta(&chars("-")), 0);
    assert_eq!(parse_size_delta(&chars("1e2")), 0);
    assert_eq!(parse_size_delta(&chars("-1000000")), -100000000);
    assert_eq!(parse_size_delta(&chars("-1000001")), 0);
}

#[test]
fn whole_numbers_are_read_with_their_sign() {
    assert_eq!(parse_integer(&chars("-3")), -3);
    assert_eq!(parse_integer(&chars("+2")), 2);
    assert_eq!(parse_integer(&chars("17")), 17);
    assert_eq!(parse_integer(&chars("")), 0);
    assert_eq!(parse_integer(&chars("-")), 0);
    assert_eq!(parse_integer(&chars("1.5")), 0);
    assert_eq!(parse_integer(&chars("1000000")), 1000000);
    assert_eq!(parse_integer(&chars("1000001")), 0);
}

#[test]
fn lengths_are_written_in_pixels() {
    assert_eq!(text(format_metric(840)), "8.4");
    assert_eq!(text(format_metric(600)), "6");
    assert_eq!(text(format_metric(1122)), "11.22");
    assert_eq!(text(format_metric(5)), "0.05");
    assert_eq!(text(format_metric(0)), "0");
    assert_eq!(text(format_metric(-50)), "-0.5");
    assert_eq!(text(format_metric(i64::MIN)), "-92233720368547758.08");
    assert_eq!(text(format_fixed(840)), "8.40");
    assert_eq!(text(format_fixed(6000)), "60.00");
    assert_eq!(text(format_fixed(-5)), "-0.05");
    for v in [840i64, 600, 1122, 480, 7, 1230] {
        assert_eq!(text(format_metric(v)), (v as f64 / 100.0).to_string());
        assert_eq!(text(format_fixed(v)), format!("{:.2}", v as f64 / 100.0));
    }
}

#[test]
fn note_goes_where_its_action_says() {
    let source = s("12*");
    assert_eq!(generate_note_actions(&source, &Note::new(NoteAction::Prefix, "*")), "*12*");
    assert_eq!(generate_note_actions(&source, &Note::new(NoteAction::Postfix, "+")), "12*+");
    assert_eq!(generate_note_actions(&source, &Note::new(NoteAction::Delete, "*")), "12");
    assert_eq!(generate_note_actions(&source, &Note::new(NoteAction::Delete, "x")), "12*");
    assert_eq!(generate_note_actions(&source, &Note::new(NoteAction::Infix, "*")), "12*");
    assert_eq!(generate_note_actions(&source, &Note::default()), "12*");
}

#[test]
fn movement_type_follows_the_vehicle_type() {
    assert_eq!(string_to_movement_type(&s("MT")), MovementType::FullyTracked);
    assert_eq!(string_to_movement_type(&s("TD/AA")), MovementType::FullyTracked);
    assert_eq!(string_to_movement_type(&s("ht")), MovementType::HalfTracked);
    assert_eq!(string_to_movement_type(&s("AC/TD")), MovementType::ArmoredCar);
    assert_eq!(string_to_movement_type(&s("atr")), MovementType::Truck);
    assert_eq!(string_to_movement_type(&s("AS")), MovementType::Skis);
    assert_eq!(string_to_movement_type(&s("mc")), MovementType::Motorcycle);
    assert_eq!(string_to_movement_type(&s("TDmc")), MovementType::Nimbus);
    assert_eq!(string_to_movement_type(&s("AAh-d")), MovementType::Unspecified);
    assert_eq!(string_to_movement_type(&s("mt")), MovementType::Unspecified);
    assert_eq!(MovementType::Unspecified.name(), "None");
    assert_eq!(MovementType::Nimbus.name(), "Nimbus");
    assert_eq!(MovementType::default(), MovementType::Unspecified);
    assert_eq!(GroundPressure::default(), GroundPressure::Normal);
}

#[test]
fn vehicle_movement_is_read() {
    let m = vehicle("PzKpfw IVH <i>MT</i>", "11", "", "", false);
    assert_eq!(m.mt, MovementType::FullyTracked);
    assert_eq!(m.mt_color, "white");
    assert_eq!(m.points.text, "11");
    assert_eq!(m.points.color, "black");
    assert_eq!(m.points.fonts.fonts, MP_FONTS);
    assert_eq!(m.gp, GroundPressure::Normal);
    assert_eq!(m.gp_note.action, NoteAction::Unset);
    assert_eq!(m.gp_color, "black");
    assert!(!m.rfnm);
    assert_eq!(vehicle("ht", "12", "", "", false).mt, MovementType::HalfTracked);
    assert_eq!(vehicle("SdKfz <i>ht</i>", "12", "", "mt=AC", false).mt, MovementType::ArmoredCar);
}

#[test]
fn truck_is_marked_in_its_movement_points() {
    let m = vehicle("Opel <i>x</i>", "16<sup>t</sup>", "", "", false);
    assert_eq!(m.mt, MovementType::Truck);
    assert_eq!(m.points.text, "16");
    let m = vehicle("DUKW", "10<sup>2t</sup>", "", "", false);
    assert_eq!(m.mt, MovementType::Truck);
    assert_eq!(m.points.text, "10<sup>2</sup>");
    let m = vehicle("DUKW", "10<sup>3t</sup>", "", "", false);
    assert_eq!(m.points.text, "10<sup>3</sup>");
}

#[test]
fn ground_pressure_and_colours_are_read() {
    let m = vehicle("MT", "11", "H†", "", true);
    assert_eq!(m.gp, GroundPressure::High);
    assert_eq!(m.gp_note.action, NoteAction::Postfix);
    assert_eq!(
        m.gp_note.text,
        "<tspan style=\"font-family:Nimbus Sans L;font-weight:bold;font-size:6.0px\">&#x273D;</tspan>"
    );
    assert_eq!(vehicle("MT", "11", "L", "", false).gp, GroundPressure::Low);
    assert_eq!(vehicle("MT", "11", "L", "gp=H", false).gp, GroundPressure::High);
    let mut m = VehicleMovementValues::default();
    let colors = nationality_to_colors(&s("ss"));
    assert!(m.sanitize(&s("MT"), &s("11"), &s(""), &Overrides::default(), true, &colors).is_ok());
    assert_eq!(m.mt_color, "#8ccdf5");
    assert_eq!(m.gp_color, "white");
}

#[test]
fn movement_points_markup_is_resolved() {
    let m = vehicle("MT", "11†", "", "", false);
    assert_eq!(m.points.text, "11");
    assert_eq!(m.points.note.action, NoteAction::Prefix);
    assert_eq!(
        m.points.note.text,
        "<tspan style=\"font-family:Nimbus Sans L;fill:black;stroke:none\">&#x002A;</tspan>"
    );
    let m = vehicle("MT", "<b>11</b>", "", "", false);
    assert_eq!(m.points.text, "11");
    assert_eq!(m.points.color, "red");
    let m = vehicle("MT", "11†", "", "mp=$$[*]", false);
    assert_eq!(m.points.text, "11");
    assert_eq!(m.points.note.action, NoteAction::Unset);
    let m = vehicle("MT", "11", "", "mp=[*]9[b*]", false);
    assert_eq!(
        m.points.text,
        "&#x002A;9<tspan style=\"font-family:Nimbus Sans L;fill:black;stroke:none\">&#x002A;</tspan>"
    );
    let m = vehicle("MT", "11", "", "mp=RFNM", false);
    assert!(m.rfnm);
    assert_eq!(m.points.text, "RFNM");
}

#[test]
fn skis_keep_the_leading_digits() {
    let m = vehicle("AS", "x7 (5)†", "", "", false);
    assert_eq!(m.mt, MovementType::Skis);
    assert_eq!(m.points.text, "7");
    assert_eq!(m.points.note.action, NoteAction::Unset);
    assert_eq!(extract_movement_points(&s("12abc")), Some(s("12")));
    assert_eq!(extract_movement_points(&s("abc")), None);
}

#[test]
fn vehicle_movement_reports_what_the_patterns_miss() {
    let mut m = VehicleMovementValues::default();
    m.rfnm = true;
    let result = m.sanitize(&s("name <i>only"), &s("11"), &s("H"), &Overrides::default(), false, &Colors::default());
    match result {
        Err(DirectiveError::PatternMismatch(t)) => assert_eq!(t, "name <i>only"),
        other => panic!("unexpected: {:?}", other),
    }
    assert_eq!(m.gp, GroundPressure::Normal);
    assert!(m.rfnm);
    let result = m.sanitize(&s("AS"), &s("none"), &s(""), &Overrides::default(), false, &Colors::default());
    assert!(matches!(result, Err(DirectiveError::PatternMismatch(_))));
    assert_eq!(m.mt, MovementType::Unspecified);
    let result = m.sanitize(&s("MT"), &s("1<sup>t</sup>\n2"), &s(""), &overrides("mt=MT"), false, &Colors::default());
    assert!(result.is_ok());
}

fn gun(manhandling: &str, size: i64, special: &str, ov: &str) -> OrdnanceMovementValues {
    let mut m = OrdnanceMovementValues::default();
    m.sanitize(&s(manhandling), size, &s(special), &overrides(ov), &Colors::default());
    m
}

#[test]
fn manhandling_number_is_read() {
    let m = gun("12", 0, "", "");
    assert_eq!(m.manhandling_number.text, "12");
    assert_eq!(m.manhandling_number.color, "black");
    assert_eq!(m.manhandling_number.fonts.fonts, MH_NUMBER_FONTS);
    assert_eq!(m.manhandling_number.note.action, NoteAction::Unset);
    assert_eq!(m.color, "black");
    assert_eq!(m.target_size, 0);
    assert!(!m.unhooking_penalty);
    assert_eq!(m.unhooking_penalty_color, "black");
}

#[test]
fn manhandling_chain_with_dagger_gives_an_infix_note() {
    let m = gun("12†", 0, "", "man=$$@sz-2");
    assert_eq!(m.manhandling_number.text, "12");
    assert_eq!(m.manhandling_number.note.action, NoteAction::Infix);
    assert_eq!(m.manhandling_number.note.text, "&#x002A;");
    assert_eq!(m.manhandling_number.fonts.size(), 640);
    assert!(m.manhandling_number.is_set);
}

#[test]
fn manhandling_chain_with_empty_replacement_empties_the_number() {
    let m = gun("12†", 0, "", "man=@sz-2");
    assert_eq!(m.manhandling_number.text, "");
    assert_eq!(m.manhandling_number.note.action, NoteAction::Unset);
    assert_eq!(m.manhandling_number.fonts.size(), 640);
}

#[test]
fn manhandling_marks_are_infix() {
    let m = gun("12", 0, "", "man=10[*]");
    assert_eq!(m.manhandling_number.text, "10");
    assert_eq!(m.manhandling_number.note.action, NoteAction::Infix);
    let m = gun("12", 0, "RFNM", "");
    assert_eq!(m.manhandling_number.text, "12");
    assert_eq!(m.manhandling_number.note.action, NoteAction::Infix);
    let m = gun("–†", 0, "", "");
    assert_eq!(m.manhandling_number.text, "&#x002A;");
    assert_eq!(m.manhandling_number.note.action, NoteAction::Unset);
    let m = gun("<b>10</b>", 0, "", "");
    assert_eq!(m.manhandling_number.text, "10");
    assert!(m.unhooking_penalty);
}

#[test]
fn target_size_colours_the_manhandling_number() {
    let m = gun("12", 1, "", "");
    assert_eq!(m.manhandling_number.color, "black");
    let m = gun("12", -1, "", "");
    assert_eq!(m.manhandling_number.color, "red");
    assert_eq!(m.unhooking_penalty_color, "red");
    let m = gun("12", -1, "", "size=2");
    assert_eq!(m.target_size, 2);
    assert_eq!(m.manhandling_number.color, "black");
    let mut m = OrdnanceMovementValues::default();
    m.sanitize(&s("12"), 0, &s(""), &Overrides::default(), &nationality_to_colors(&s("ss")));
    assert_eq!(m.manhandling_number.color, "white");
    assert_eq!(m.color, "white");
    let mut m = gun("12", 0, "", "man=$$@sz+1");
    m.set_font_and_color(&nationality_to_colors(&s("ss")));
    assert_eq!(m.manhandling_number.fonts.fonts, MH_NUMBER_FONTS);
    assert_eq!(m.color, "white");
}

#[test]
fn repair_numbers_stand_round_the_slash() {
    let colors = Colors::default();
    let r = sanitize_repair_numbers(&s("2/5"), &colors);
    assert_eq!((r.repair.text.as_str(), r.disable.text.as_str()), ("2", "5"));
    assert_eq!(r.repair.color, "black");
    let r = sanitize_repair_numbers(&s(""), &colors);
    assert_eq!((r.repair.text.as_str(), r.disable.text.as_str()), ("1", "6"));
    let r = sanitize_repair_numbers(&s("1/2/3"), &colors);
    assert_eq!((r.repair.text.as_str(), r.disable.text.as_str()), ("1", "2/3"));
}

#[test]
fn limbered_column_is_read_entry_by_entry() {
    assert_eq!(classify_limbered(&s("ma=75")), Some(OverrideKey::MainArmament));
    assert_eq!(classify_limbered(&s("mb=B11")), Some(OverrideKey::MainBreakdown));
    assert_eq!(classify_limbered(&s("gt=AT")), Some(OverrideKey::GunType));
    assert_eq!(classify_limbered(&s("size=1")), Some(OverrideKey::TargetSize));
    assert_eq!(classify_limbered(&s("mount=NT")), Some(OverrideKey::Mount));
    assert_eq!(classify_limbered(&s("range=6")), Some(OverrideKey::Range));
    assert_eq!(classify_limbered(&s("rof=")), Some(OverrideKey::RateOfFire));
    assert_eq!(classify_limbered(&s("ife=")), Some(OverrideKey::Ife));
    assert_eq!(classify_limbered(&s("man=12")), Some(OverrideKey::Manhandling));
    assert_eq!(classify_limbered(&s("no_fire")), None);
    let colors = Colors::default();
    let mut m = gun("12", 0, "", "");
    limber_size(&mut m, &s("-1"), &colors);
    assert_eq!(m.target_size, -1);
    assert_eq!(m.manhandling_number.color, "red");
    limber_size(&mut m, &s(""), &colors);
    assert_eq!(m.target_size, -1);
    limber_size(&mut m, &s("1"), &colors);
    assert_eq!(m.manhandling_number.color, "black");
    limber_manhandling(&mut m, &s("*<b>9</b>"));
    assert_eq!(m.manhandling_number.text, "9");
    assert_eq!(m.manhandling_number.note.action, NoteAction::Infix);
    assert!(m.unhooking_penalty);
    limber_manhandling(&mut m, &s(""));
    assert_eq!(m.manhandling_number.text, "9");
    limber_manhandling(&mut m, &s("8"));
    assert_eq!(m.manhandling_number.text, "8");
    assert!(!m.unhooking_penalty);
    let mut field = TextField::default();
    field.text = s("AT");
    assert_eq!(shown_gun_type(&field, &s("")), "AT");
    assert_eq!(shown_gun_type(&field, &s("INF")), "INF");
}

#[test]
fn nationality_is_the_start_of_the_piece() {
    assert_eq!(extract_nationality(&s("gePak40"), &s("")), "ge");
    assert_eq!(extract_nationality(&s("gePak40"), &s("ru")), "ru");
    assert_eq!(extract_nationality(&s("g"), &s("")), "g");
    assert_eq!(extract_nationality(&s(""), &s("")), "");
}

#[test]
fn class_is_read_from_its_mark() {
    assert!(matches!(sanitize_class_identifier("ss"), Ok(ClassIdentifier::Shutzstaffel)));
    assert!(matches!(sanitize_class_identifier("AE"), Ok(ClassIdentifier::AssaultEngineer1)));
    assert!(matches!(sanitize_class_identifier("A"), Ok(ClassIdentifier::AssaultEngineer2)));
    assert!(matches!(sanitize_class_identifier("(M)P"), Ok(ClassIdentifier::ParaMarines)));
    assert!(matches!(sanitize_class_identifier("[first_ab]"), Ok(ClassIdentifier::BoxedFirstAirborne)));
    assert!(matches!(sanitize_class_identifier("?"), Ok(ClassIdentifier::Concealment)));
    assert!(matches!(sanitize_class_identifier("?roi"), Ok(ClassIdentifier::Roi)));
    assert!(matches!(sanitize_class_identifier("none"), Ok(ClassIdentifier::Unclassified)));
    match sanitize_class_identifier("elite") {
        Err(DirectiveError::UnrecognizedDirective(t)) => assert_eq!(t, "elite"),
        other => panic!("unexpected: {:?}", other),
    }
    assert!(sanitize_class_identifier("").is_err());
    assert_eq!(ClassIdentifier::AssaultEngineer1.name(), "AssaultEngineer - AE");
    assert_eq!(ClassIdentifier::AssaultEngineer2.name(), "AssaultEngineer - A");
    assert_eq!(ClassIdentifier::Unclassified.name(), "None");
    assert_eq!(ClassIdentifier::KoreanMarines.name(), "KoreanMarines");
    assert_eq!(ClassIdentifier::default(), ClassIdentifier::Unclassified);
}

#[test]
fn morale_stands_round_the_slash() {
    assert_eq!(sanitize_morale("7/6"), (7, 6));
    assert_eq!(sanitize_morale("8"), (8, 8));
    assert_eq!(sanitize_morale("x"), (0, 0));
    assert_eq!(sanitize_morale("7/"), (7, 0));
    assert_eq!(sanitize_morale("-1"), (0, 0));
    assert_eq!(sanitize_morale(""), (0, 0));
}

#[test]
fn support_weapon_columns_are_read() {
    assert_eq!(sanitize_value("12[*]"), "12&#x002A;");
    assert_eq!(sanitize_breakdown("(B11)"), (s("B11"), true));
    assert_eq!(sanitize_breakdown("B12"), (s("B12"), false));
    let r = sanitize_repair("2/5");
    assert_eq!((r.repair, r.disable, r.repair_text.as_str(), r.disable_text.as_str()), (2, 5, "", ""));
    let r = sanitize_repair("x/y");
    assert_eq!((r.repair, r.disable, r.repair_text.as_str(), r.disable_text.as_str()), (0, 0, "x", "y"));
    let r = sanitize_repair("3");
    assert_eq!((r.repair, r.disable), (3, 3));
    let r = sanitize_repair("");
    assert_eq!((r.repair, r.disable), (0, 0));
    assert_eq!(sanitize_pp("2"), (2, 3000, 2400));
    assert_eq!(sanitize_pp("2@10:20.5"), (2, 1000, 2050));
    assert_eq!(sanitize_pp("2@10"), (2, 1000, 0));
    assert_eq!(sanitize_pp("x@:"), (0, 0, 0));
    assert_eq!(sanitize_leadership(""), (false, 3900, 2200));
    assert_eq!(sanitize_leadership("na"), (true, 3900, 2200));
    assert_eq!(sanitize_leadership("na@5:6.5"), (true, 500, 650));
}

#[test]
fn vehicle_name_and_authors_are_formatted() {
    assert_eq!(strip_vehicle_type_from_name(&s("PzKpfw IVH <i>MT</i>")), Some(s("PzKpfw IVH")));
    assert_eq!(strip_vehicle_type_from_name(&s("PzKpfw IVH")), None);
    assert_eq!(format_authors("A:B"), "\t\tAuthor(s): A, B");
    assert_eq!(format_authors("A"), "\t\tAuthor(s): A");
    assert_eq!(format_authors(":A::B:"), "\t\tAuthor(s): A, B");
    assert_eq!(format_authors(""), "\t\tAuthor(s): ");
}

#[test]
fn destination_gets_a_trailing_slash() {
    let mut args = Arguments::default();
    args.destination = s("out");
    args.quiet = true;
    args.sanitize_destination();
    assert_eq!(args.destination, "out/");
    assert!(args.quiet);
    let copy = args.clone();
    assert_eq!(copy.destination, "out/");
    args.sanitize_destination();
    assert_eq!(args.destination, "out//");
}

#[test]
fn note_number_is_found_in_the_notes() {
    assert_eq!(extract_note_number(&s("Note 12a.")), Some(s("12a.")));
    assert_eq!(extract_note_number(&s("v3")), Some(s("v3")));
    assert_eq!(extract_note_number(&s("Note g1")), Some(s("g1")));
    assert_eq!(extract_note_number(&s("Note")), None);
}

fn record(ov: &str) -> CommonRecord {
    let mut record = CommonRecord::default();
    assert!(record.overrides.sanitize(&s(ov)).is_ok());
    record
}

#[test]
fn common_record_is_filled_from_a_row() {
    let mut r = record("ma=$$@sz+1|name=Pak 40|qual=a|display_name");
    let result = r.initialize(
        &s("ge"),
        &s("Note 12"),
        &s("7.5cm PaK"),
        &s("75L†"),
        &s("16"),
        &s("2 (4)"),
        &s("B11"),
        &s("1.0"),
        &s("gePak40 | gePak40b"),
        &s("scale(1)"),
        &s("none"),
    );
    assert!(result.is_ok());
    assert_eq!(r.nationality, "ge");
    assert_eq!(r.colors.background, "#91cdf5");
    assert_eq!(r.note, "12a");
    assert_eq!(r.name, "Pak 40");
    assert!(r.display_name);
    assert_eq!(r.ma.caliber, "75");
    assert_eq!(r.ma.velocity, "L");
    assert_eq!(r.ma.fonts.size(), 1300);
    assert_eq!(r.ma.rof.text, "2");
    assert_eq!(r.ma.ife.text, "4");
    assert_eq!(r.malfunction.breakdown.value.text, "11");
    assert_eq!(r.version, "1.0");
    assert_eq!(r.pieces, vec![s("gePak40"), s("gePak40b")]);
    assert_eq!(r.svg_image_transform, "scale(1)");
    assert_eq!(r.comments, "none");
    assert_eq!(r.turret.speed, TurretType::NonTurreted);
}

#[test]
fn common_record_follows_the_background_override() {
    let mut r = record("bkg=ss");
    let result = r.initialize(&s("ge"), &s("1"), &s("n"), &s("75"), &s(""), &s(""), &s(""), &s(""), &s("p"), &s(""), &s(""));
    assert!(result.is_ok());
    assert_eq!(r.nationality, "ge");
    assert!(r.colors.is_ss);
    assert_eq!(r.ma.color, "white");
    assert_eq!(r.name, "n");
    assert_eq!(r.pieces, vec![s("p")]);
}

#[test]
fn common_record_is_left_alone_on_an_error() {
    let mut r = record("");
    let result = r.initialize(&s("ge"), &s("Note"), &s("n"), &s("75"), &s(""), &s(""), &s(""), &s(""), &s("p"), &s(""), &s(""));
    match result {
        Err(DirectiveError::PatternMismatch(t)) => assert_eq!(t, "Note"),
        other => panic!("unexpected: {:?}", other),
    }
    assert_eq!(r.nationality, "");
    assert_eq!(r.ma.caliber, "");
    let mut r = record("mb=B11@up");
    let result = r.initialize(&s("ge"), &s("1"), &s("n"), &s("75"), &s(""), &s(""), &s(""), &s(""), &s("p"), &s(""), &s(""));
    match result {
        Err(DirectiveError::UnrecognizedDirective(t)) => assert_eq!(t, "up"),
        other => panic!("unexpected: {:?}", other),
    }
    assert_eq!(r.nationality, "");
    assert_eq!(r.ma.caliber, "");
    assert_eq!(r.pieces, Vec::<String>::new());
}
