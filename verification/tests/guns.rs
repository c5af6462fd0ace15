use common_functions::armament::{
    classify_caliber, generate_gun_element, generate_ife_element_on_caliber_line, read_ballistics,
    sanitize_gun_type, sanitize_ife, sanitize_mount, sanitize_rof, strip_spans, Armament,
    IFE_FONTS, MA_FONTS, ROF_FONTS, SA_FONTS,
};
use common_functions::colors::{nationality_to_colors, Colors};
use common_functions::overrides::Overrides;
use common_functions::text_field::{NoteAction, RANGE_FONTS};
use common_functions::turret::TurretType;

fn s(text: &str) -> String {
    text.to_string()
}

fn overrides(text: &str) -> Overrides {
    let mut o = Overrides::default();
    assert!(o.sanitize(&s(text)).is_ok());
    o
}

fn main_gun(source: &str, ov: &str) -> Armament {
    let mut arm = Armament::default();
    arm.sanitize_caliber(&s(source), &overrides(ov));
    arm
}

fn secondary_gun(source: &str, ov: &str) -> Armament {
    let mut arm = Armament::default();
    arm.is_secondary = true;
    arm.sanitize_caliber(&s(source), &overrides(ov));
    arm
}

#[test]
fn plain_caliber_is_the_caliber() {
    let arm = main_gun("75", "");
    assert_eq!(arm.caliber, "75");
    assert_eq!(arm.velocity, "");
    assert_eq!(arm.location, "");
    assert_eq!(arm.caliber_note.action, NoteAction::Unset);
    assert_eq!(arm.underline_note.action, NoteAction::Unset);
    assert_eq!(arm.fonts.selected_font, 0);
    assert_eq!(arm.fonts.fonts, MA_FONTS);
    assert!(!arm.underline);
    assert!(!arm.overline);
}

#[test]
fn secondary_gun_has_its_own_metrics() {
    assert_eq!(secondary_gun("37", "").fonts.fonts, SA_FONTS);
}

#[test]
fn velocity_letters_leave_the_caliber() {
    let arm = main_gun("75LL", "");
    assert_eq!((arm.caliber.as_str(), arm.velocity.as_str()), ("75", "LL"));
    let arm = main_gun("75L", "");
    assert_eq!((arm.caliber.as_str(), arm.velocity.as_str()), ("75", "L"));
    assert_eq!(read_ballistics(&s("7L5")), (s("75"), s("L")));
    assert_eq!(read_ballistics(&s("75*")), (s("75"), s("&#x273D;")));
    assert_eq!(read_ballistics(&s("*75")), (s(""), s("")));
    assert_eq!(read_ballistics(&s("")), (s(""), s("")));
}

#[test]
fn mount_letter_of_a_main_gun_is_dropped() {
    let arm = main_gun("T37L", "");
    assert_eq!(arm.location, "");
    assert_eq!(arm.caliber, "37");
    assert_eq!(arm.velocity, "L");
    let arm = main_gun("R20", "");
    assert_eq!(arm.caliber, "20");
}

#[test]
fn mount_letter_of_a_secondary_gun_is_its_location() {
    let arm = secondary_gun("T37", "");
    assert_eq!(arm.location, "T");
    assert_eq!(arm.caliber, "37");
}

#[test]
fn dagger_puts_an_asterisk_before_the_main_gun() {
    let arm = main_gun("75†<sup>2</sup>", "");
    assert_eq!(arm.caliber, "75");
    assert_eq!(arm.caliber_note.action, NoteAction::Prefix);
    assert_eq!(arm.caliber_note.text, "&#x002A;");
}

#[test]
fn five_lobed_tag_is_not_overwritten_by_the_dagger() {
    let arm = main_gun("75[*]†", "");
    assert_eq!(arm.caliber, "75");
    assert_eq!(arm.caliber_note.action, NoteAction::Postfix);
    assert_eq!(arm.caliber_note.text, "&#x002A;");
}

#[test]
fn six_lobed_tag_is_a_note_of_its_own() {
    let arm = main_gun("<*>75", "");
    assert_eq!(arm.caliber_note.action, NoteAction::Prefix);
    assert_eq!(arm.caliber_note.text, "&#x273D;");
    let arm = main_gun("75<*>", "");
    assert_eq!(arm.caliber_note.action, NoteAction::Postfix);
    assert_eq!(arm.caliber_note.text, "&#x273D;");
    assert_eq!(arm.caliber, "75");
}

#[test]
fn underline_note_tag_sets_the_underline_note() {
    let arm = main_gun("[_*]75†", "");
    assert_eq!(arm.caliber, "75");
    assert_eq!(arm.underline_note.action, NoteAction::Prefix);
    assert_eq!(arm.underline_note.text, "<tspan style=\"font-family:Nimbus Sans L\">&#x002A;</tspan>");
    assert_eq!(arm.caliber_note.action, NoteAction::Unset);
    for source in ["75[_*]", "[_*]75"] {
        let arm = main_gun(source, "");
        assert_eq!(arm.underline_note.action, NoteAction::Prefix);
        assert_eq!(arm.underline_note.text, "<tspan style=\"font-family:Nimbus Sans L\">&#x002A;</tspan>");
        assert_eq!(arm.caliber, "75");
        assert_eq!(arm.caliber_note.text, "");
        assert_eq!(arm.velocity, "");
    }
}

#[test]
fn earlier_tag_keeps_the_underline_note_out() {
    let arm = main_gun("[*]75[_*]", "");
    assert_eq!(arm.caliber_note.action, NoteAction::Prefix);
    assert_eq!(arm.underline_note.action, NoteAction::Unset);
    assert_eq!(arm.caliber, "75");
}

#[test]
fn machine_gun_as_main_armament_is_drawn_small() {
    let arm = main_gun("CMG", "");
    assert_eq!(arm.caliber, "CMG");
    assert_eq!(arm.fonts.selected_font, 4);
    assert_eq!(arm.fonts.size(), 800);
}

#[test]
fn machine_gun_as_secondary_armament_loses_its_dagger() {
    let arm = secondary_gun("MG†", "");
    assert_eq!(arm.caliber, "MG");
    assert_eq!(arm.caliber_note.action, NoteAction::Unset);
    assert_eq!(arm.fonts.selected_font, 0);
}

#[test]
fn anti_tank_rifle_loses_its_mount_letter() {
    let arm = main_gun("BATR", "");
    assert_eq!(arm.caliber, "ATR");
    assert_eq!(arm.fonts.selected_font, 4);
    let arm = secondary_gun("ATR†", "");
    assert_eq!(arm.caliber, "ATR");
    assert_eq!(arm.fonts.selected_font, 0);
}

#[test]
fn armoured_car_gun_loses_its_first_character() {
    let arm = main_gun("TTACP", "");
    assert_eq!(arm.caliber, "TACP");
    assert_eq!(arm.fonts.selected_font, 4);
}

#[test]
fn flamethrower_gives_two_characters_as_location() {
    let arm = main_gun("BF24", "");
    assert_eq!(arm.location, "BF");
    assert_eq!(arm.caliber, "24");
    assert_eq!(arm.color, "");
    let mut arm = Armament::default();
    arm.color = s("black");
    arm.sanitize_caliber(&s("<b>TF12</b>"), &Overrides::default());
    assert_eq!(arm.location, "TF");
    assert_eq!(arm.caliber, "12");
    assert_eq!(arm.color, "red");
}

#[test]
fn named_gun_is_drawn_small() {
    let arm = main_gun("VBM NA", "");
    assert_eq!(arm.caliber, "VBM NA");
    assert_eq!(arm.fonts.selected_font, 4);
}

#[test]
fn decoration_and_small_variant_combine() {
    let arm = main_gun("<span style=\"text-decoration:overline\">CMG</span>", "");
    assert_eq!(arm.caliber, "CMG");
    assert!(arm.overline);
    assert!(!arm.underline);
    assert_eq!(arm.fonts.selected_font, 6);
    let arm = main_gun(
        "<span style=\"text-decoration:overline\"><span style=\"text-decoration:underline\">75</span></span>",
        "",
    );
    assert_eq!(arm.caliber, "75");
    assert!(arm.overline && arm.underline);
    assert_eq!(arm.fonts.selected_font, 3);
}

#[test]
fn spans_are_stripped_by_the_pattern_engine() {
    assert_eq!(strip_spans(&s("<span style=\"x\">75</span>")), "75");
    assert_eq!(strip_spans(&s("a<span>b</span>c<span id=\"1\">d</span>")), "abcd");
    assert_eq!(strip_spans(&s("<span>75")), "<span>75");
    assert_eq!(strip_spans(&s("75</span>")), "75");
    assert_eq!(strip_spans(&s("75")), "75");
}

#[test]
fn override_copy_scrubs_the_dagger() {
    let arm = main_gun("75†", "ma=$$@sz-1");
    assert_eq!(arm.caliber, "75");
    assert_eq!(arm.caliber_note.action, NoteAction::Unset);
    assert_eq!(arm.fonts.size(), 1100);
    assert_eq!(arm.fonts.fonts[4][0], 700);
}

#[test]
fn override_of_the_secondary_gun_is_its_own() {
    let arm = secondary_gun("37", "ma=88L|sa=B20L");
    assert_eq!(arm.location, "B");
    assert_eq!(arm.caliber, "20");
    assert_eq!(arm.velocity, "L");
}

#[test]
fn process_overrides_returns_the_text() {
    let mut arm = Armament::default();
    arm.fonts.initialize(MA_FONTS);
    let field = arm.process_overrides(&s("75†"), &s(""));
    assert_eq!(field.text, "75†");
    assert!(!field.is_set);
    let field = arm.process_overrides(&s("75†"), &s("[$$]@sz+2@ignored"));
    assert_eq!(field.text, "[75");
    assert_eq!(field.alternate_location, "");
    assert_eq!(arm.fonts.size(), 1400);
}

#[test]
fn caliber_is_classified() {
    let class = classify_caliber(&s("B75"), true);
    assert_eq!((class.text.as_str(), class.location.as_str(), class.alternate, class.alert), ("75", "B", false, false));
    let class = classify_caliber(&s("B75"), false);
    assert_eq!((class.text.as_str(), class.location.as_str()), ("75", ""));
    let class = classify_caliber(&s("75†"), true);
    assert_eq!(class.text, "75");
    let class = classify_caliber(&s("75†"), false);
    assert_eq!(class.text, "75†");
    let class = classify_caliber(&s("SF"), false);
    assert_eq!((class.text.as_str(), class.location.as_str()), ("", "SF"));
    let class = classify_caliber(&s(""), false);
    assert_eq!((class.text.as_str(), class.location.as_str()), ("", ""));
}

#[test]
fn whole_armament_is_sanitized() {
    let colors = Colors::default();
    let mut arm = Armament::default();
    arm.sanitize(&s("75L"), &s("16"), &s("2 (4)"), &overrides("range=$$|range2=[8]@sz-1"), &colors);
    assert_eq!(arm.raw_caliber, "75L");
    assert_eq!(arm.color, "black");
    assert_eq!(arm.caliber, "75");
    assert_eq!(arm.range.text, "16");
    assert_eq!(arm.range2.text, "[8]");
    assert_eq!(arm.range2.alternate_location, "above_mgs");
    assert_eq!(arm.range2.fonts.size(), 740);
    assert_eq!(arm.rof.text, "2");
    assert_eq!(arm.ife.text, "4");
}

#[test]
fn range_is_shown_only_where_it_is_overridden() {
    let mut arm = Armament::default();
    arm.sanitize(&s("75L"), &s("16"), &s("2"), &Overrides::default(), &Colors::default());
    assert_eq!(arm.range.text, "");
    assert_eq!(arm.range.color, "black");
    assert_eq!(arm.range.fonts.fonts, RANGE_FONTS);
    assert_eq!(arm.range2.text, "");
    assert_eq!(arm.rof.text, "2");
    assert_eq!(arm.ife.text, "");
}

#[test]
fn ignored_main_armament_is_not_read() {
    let mut arm = Armament::default();
    arm.sanitize(&s("75L"), &s("16"), &s("2 (4)"), &overrides("ma="), &nationality_to_colors(&s("ss")));
    assert_eq!(arm.raw_caliber, "75L");
    assert_eq!(arm.color, "white");
    assert_eq!(arm.caliber, "");
    assert_eq!(arm.rof.text, "");
}

#[test]
fn secondary_armament_needs_a_source_or_an_override() {
    let mut arm = Armament::default();
    arm.is_secondary = true;
    arm.sanitize(&s(""), &s(""), &s(""), &Overrides::default(), &Colors::default());
    assert_eq!(arm.caliber, "");
    assert_eq!(arm.fonts.fonts, [[0; 4]; 8]);
    arm.sanitize(&s(""), &s(""), &s(""), &overrides("sa=T20"), &Colors::default());
    assert_eq!(arm.caliber, "20");
    assert_eq!(arm.location, "T");
}

#[test]
fn rate_of_fire_stands_before_the_space() {
    let colors = Colors::default();
    assert_eq!(sanitize_rof(&s("2 (4)"), &s(""), &colors).text, "2");
    assert_eq!(sanitize_rof(&s("3"), &s(""), &colors).text, "3");
    assert_eq!(sanitize_rof(&s("3†"), &s(""), &colors).text, "3");
    let rof = sanitize_rof(&s("<b>2</b> (4)"), &s(""), &colors);
    assert_eq!(rof.text, "2");
    assert_eq!(rof.color, "red");
    assert_eq!(rof.fonts.fonts, ROF_FONTS);
}

#[test]
fn rate_of_fire_can_be_overridden() {
    let colors = Colors::default();
    assert_eq!(sanitize_rof(&s("2 (4)"), &s("rof=3"), &colors).text, "3");
    assert_eq!(sanitize_rof(&s("2 (4)"), &s("rof="), &colors).text, "");
    assert_eq!(sanitize_rof(&s("2† (4)"), &s("rof=$$"), &colors).text, "2");
    let rof = sanitize_rof(&s("2"), &s("rof=[$$]@sz-1@in_gs"), &colors);
    assert_eq!(rof.text, "[2]");
    assert_eq!(rof.fonts.size(), 740);
    assert_eq!(rof.alternate_location, "in_gs");
}

#[test]
fn firepower_stands_in_parentheses() {
    let colors = Colors::default();
    let ife = sanitize_ife(&s("2 (4)"), &s(""), &colors);
    assert_eq!(ife.text, "4");
    assert_eq!(ife.fonts.fonts, IFE_FONTS);
    assert_eq!(sanitize_ife(&s("2"), &s(""), &colors).text, "");
    assert_eq!(sanitize_ife(&s("2 (4)"), &s("ife=(6)"), &colors).text, "6");
    assert_eq!(sanitize_ife(&s("2 (4)"), &s("ife="), &colors).text, "");
    assert_eq!(sanitize_ife(&s("2 (4)"), &s("ife=($$)@above_mgs"), &colors).alternate_location, "above_mgs");
}

#[test]
fn gun_type_and_mount_follow_the_override() {
    let colors = nationality_to_colors(&s("ss"));
    let field = sanitize_gun_type(&s("AT"), &Overrides::default(), &colors);
    assert_eq!(field.text, "AT");
    assert_eq!(field.color, "white");
    assert_eq!(sanitize_gun_type(&s("AT"), &overrides("ma="), &colors).text, "");
    let turret = sanitize_mount(&s("ST, x"), &Overrides::default(), &colors);
    assert_eq!(turret.speed, TurretType::SlowTurret);
    assert_eq!(turret.color, "#b4b4b4");
    let turret = sanitize_mount(&s("ST"), &overrides("ma="), &colors);
    assert_eq!(turret.speed, TurretType::NonTurreted);
    assert_eq!(turret.color, "");
    let turret = sanitize_mount(&s("ST"), &overrides("mount=1MT"), &colors);
    assert_eq!(turret.speed, TurretType::OneManTurret);
}

#[test]
fn gun_element_is_marked_up() {
    let mut arm = secondary_gun("B75L", "");
    arm.color = s("black");
    assert_eq!(
        generate_gun_element(&arm, 0, 9800),
        "\t\t<text x=\"0.00\" y=\"98.00%\" dominant-baseline=\"auto\" text-anchor=\"start\" style=\"font-size:8.00px;font-weight:bold;font-family:Nimbus Sans L;fill:black\">B75L</text>"
    );
    let mut arm = main_gun("<span style=\"text-decoration:underline\">75</span>[*]", "");
    arm.color = s("white");
    assert_eq!(
        generate_gun_element(&arm, 480, 6000),
        "\t\t<text x=\"4.80\" y=\"60.00%\" dominant-baseline=\"auto\" text-anchor=\"start\" style=\"font-size:12.00px;font-weight:bold;font-family:Nimbus Sans L;fill:white\"><tspan style=\"text-decoration:underline\">75</tspan><tspan>&#x002A;</tspan></text>"
    );
    let mut arm = main_gun("75", "");
    arm.velocity = s("&#x273D;");
    assert_eq!(
        generate_gun_element(&arm, 0, 7500),
        "\t\t<text x=\"0.00\" y=\"75.00%\" dominant-baseline=\"auto\" text-anchor=\"start\" style=\"font-size:12.00px;font-weight:bold;font-family:Nimbus Sans L;fill:\">75<tspan style=\"font-size:6px;font-weight:bold;font-family:Nimbus Sans L\" baseline-shift=\"super\">&#x273D;</tspan></text>"
    );
}

#[test]
fn firepower_on_the_caliber_line_shrinks_with_its_length() {
    let colors = Colors::default();
    let mut arm = Armament::default();
    arm.ife = sanitize_ife(&s("2 (4)"), &s(""), &colors);
    assert_eq!(
        generate_ife_element_on_caliber_line(&arm),
        "<tspan style=\"font-size:8.40px\">(4)</tspan></text>"
    );
    arm.ife = sanitize_ife(&s("2 (12)"), &s(""), &colors);
    assert_eq!(
        generate_ife_element_on_caliber_line(&arm),
        "<tspan style=\"font-size:7.20px\">(12)</tspan></text>"
    );
}

#[test]
fn caliber_that_was_read_matches_no_rule_again() {
    for secondary in [false, true] {
        for source in ["75", "[*]75L", "75<*>", "[_*]75†", "*ATR", "75*", "B75LL†<sup>1</sup>", "12†", "MG†"] {
            let mut first = Armament::default();
            first.is_secondary = secondary;
            first.sanitize_caliber(&s(source), &Overrides::default());
            let caliber = first.caliber.clone();
            assert!(!caliber.contains('*'));
            assert!(!caliber.contains('†'));
            let mut again = Armament::default();
            again.is_secondary = secondary;
            again.sanitize_caliber(&caliber, &Overrides::default());
            assert_eq!(again.caliber_note.action, NoteAction::Unset);
            assert_eq!(again.caliber_note.text, "");
            assert_eq!(again.underline_note.action, NoteAction::Unset);
            assert_eq!(again.underline_note.text, "");
        }
    }
}
