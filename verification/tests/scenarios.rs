use common_functions::armament::Armament;
use common_functions::colors::Colors;
use common_functions::overrides::Overrides;
use common_functions::text_field::{NoteAction, TextField, TextFieldTraits, RANGE_FONTS};

#[test]
fn secondary_gun_gives_location_caliber_velocity() {
    let mut arm = Armament::default();
    arm.is_secondary = true;
    arm.sanitize_caliber(&"B75L".to_string(), &Overrides::default());
    assert_eq!(arm.location, "B");
    assert_eq!(arm.caliber, "75");
    assert_eq!(arm.velocity, "L");
}

#[test]
fn leading_glyph_is_a_prefix_note() {
    let mut arm = Armament::default();
    arm.sanitize_caliber(&"*ATR".to_string(), &Overrides::default());
    assert_eq!(arm.caliber_note.action, NoteAction::Prefix);
    assert_eq!(arm.caliber_note.text, "&#x002A;");
    assert_eq!(arm.caliber, "ATR");
    assert_eq!(arm.fonts.selected_font, 4);
}

#[test]
fn main_armament_override_replaces_and_resizes() {
    let mut overrides = Overrides::default();
    assert!(overrides.sanitize(&"ma=6pdr@sz+1".to_string()).is_ok());
    assert_eq!(overrides.ma.text, "6pdr@sz+1");
    let mut arm = Armament::default();
    arm.sanitize_caliber(&"57L".to_string(), &overrides);
    assert_eq!(arm.caliber, "6pdr");
    assert_eq!(arm.fonts.size(), 1300);
}

#[test]
fn span_tags_are_taken_out() {
    let mut arm = Armament::default();
    arm.sanitize_caliber(
        &"<span style=\"text-decoration:underline\">75</span>".to_string(),
        &Overrides::default(),
    );
    assert_eq!(arm.caliber, "75");
    assert!(arm.underline);
    assert_eq!(arm.fonts.selected_font, 1);
}

#[test]
fn copy_field_round_trip() {
    let colors = Colors::default();
    let mut plain = TextField::default();
    plain.sanitize(&"12L".to_string(), &"".to_string(), RANGE_FONTS, &colors);
    let mut copied = TextField::default();
    copied.sanitize(&"12L".to_string(), &"$$@sz+0".to_string(), RANGE_FONTS, &colors);
    assert_eq!(plain.text, "12L");
    assert_eq!(copied.text, plain.text);
    assert_eq!(copied.fonts.fonts, plain.fonts.fonts);
    assert_eq!(copied.is_set, plain.is_set);
    assert_eq!(copied.color, plain.color);
}
