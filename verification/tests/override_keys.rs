use common_functions::directive::{parse_directive, tokenize, Directive};
use common_functions::overrides::{
    classify_entry, is_alternate_location, DirectiveError, OverrideKey, Overrides,
};

fn read(text: &str) -> Overrides {
    let mut overrides = Overrides::default();
    assert!(overrides.sanitize(&text.to_string()).is_ok());
    overrides
}

#[test]
fn empty_override_string_changes_nothing() {
    let overrides = read("");
    assert!(!overrides.announce);
    assert!(!overrides.ma.ignore);
    assert_eq!(overrides.ma.text, "");
    assert_eq!(overrides.name, "");
}

#[test]
fn flags_are_set() {
    let overrides = read("announce|copy|display_name|fixed_bmg|ignore|ma_movt|multi_hits|sa_movt|shift_armor_down");
    assert!(overrides.announce);
    assert!(overrides.copy);
    assert!(overrides.display_name);
    assert!(overrides.fixed_bmg);
    assert!(overrides.ignore);
    assert!(overrides.ma.moving_target_penalty);
    assert!(overrides.ma.multiple_hits);
    assert!(overrides.sa.moving_target_penalty);
    assert!(overrides.shift_armor_down);
}

#[test]
fn values_are_read() {
    let overrides = read("far=8|sar=6|rar=4|bkg=ss|cap=ru|gp=H|gt=AT|man=12|mgs=2/4|mount=ST|mt=ht|name=Tiger|nat=ge|pp=14|qual=a|range=12|size=-1|ammo=s8|tow=T6|ta=+F");
    assert_eq!(overrides.armor_front, "8");
    assert_eq!(overrides.armor_side, "6");
    assert_eq!(overrides.armor_rear, "4");
    assert_eq!(overrides.background_color, "ss");
    assert_eq!(overrides.captured, "ru");
    assert_eq!(overrides.ground_pressure, "H");
    assert_eq!(overrides.gt, "AT");
    assert_eq!(overrides.manhandling, "12");
    assert!(overrides.machine_guns_set);
    assert_eq!(overrides.machine_guns, "2/4");
    assert_eq!(overrides.ma.mount, "ST");
    assert_eq!(overrides.movement_type, "ht");
    assert_eq!(overrides.name, "Tiger");
    assert_eq!(overrides.nationality, "ge");
    assert_eq!(overrides.pp_number, "14");
    assert!(!overrides.pp_number_ignore);
    assert_eq!(overrides.note_qualifier, "a");
    assert_eq!(overrides.range_values, "12");
    assert_eq!(overrides.target_size, "-1");
    assert_eq!(overrides.special_ammo, "s8");
    assert_eq!(overrides.towing_number, "T6");
    assert_eq!(overrides.turret_armor_modifiers, "+F");
}

#[test]
fn armament_overrides_are_read() {
    let overrides = read("ma=6pdr@sz+1|mb=B11|sa=|sb=X12|rof=2|ife=(4)");
    assert_eq!(overrides.ma.text, "6pdr@sz+1");
    assert!(!overrides.ma.ignore);
    assert_eq!(overrides.ma.malf.text, "B11");
    assert!(!overrides.ma.malf.ignore);
    assert_eq!(overrides.sa.text, "");
    assert!(overrides.sa.ignore);
    assert_eq!(overrides.sa.malf.text, "X12");
    assert_eq!(overrides.rof, "rof=2");
    assert_eq!(overrides.ife, "ife=(4)");
}

#[test]
fn empty_values_ignore_their_fields() {
    let overrides = read("ma=|mb=|pp=");
    assert!(overrides.ma.ignore);
    assert!(overrides.ma.malf.ignore);
    assert!(overrides.pp_number_ignore);
}

#[test]
fn movement_points_may_forbid_movement() {
    let overrides = read("mp=RFNM");
    assert_eq!(overrides.mp, "RFNM");
    assert!(overrides.rfnm);
    assert!(!overrides.nm);
    let overrides = read("mp=NM");
    assert!(overrides.nm);
    assert!(!overrides.rfnm);
    let overrides = read("mp=12");
    assert!(!overrides.nm);
    assert!(!overrides.rfnm);
}

#[test]
fn the_first_key_in_order_decides() {
    // `range2=` holds no `range=`, so it is read as the second range
    let overrides = read("range2=6");
    assert_eq!(overrides.range2_values, "6");
    assert_eq!(overrides.range_values, "");
    // an entry that holds `copy` is a copy, whatever else it holds
    let overrides = read("name=copy");
    assert!(overrides.copy);
    assert_eq!(overrides.name, "");
}

#[test]
fn entries_are_trimmed_before_they_are_read() {
    let overrides = read(" ma=75L | gt=AT ");
    assert_eq!(overrides.ma.text, "75L");
    assert_eq!(overrides.gt, "AT");
}

#[test]
fn unrecognized_directive_is_an_error_that_names_it() {
    let mut overrides = Overrides::default();
    let result = overrides.sanitize(&"gt=AT|bogus|name=X".to_string());
    match result {
        Err(DirectiveError::UnrecognizedDirective(token)) => assert_eq!(token, "bogus"),
        other => panic!("unexpected: {:?}", other),
    }
    // the entries before the offending one were applied, those after it were not
    assert_eq!(overrides.gt, "AT");
    assert_eq!(overrides.name, "");
}

#[test]
fn unrecognized_directive_has_a_message() {
    let error = DirectiveError::UnrecognizedDirective("bogus".to_string());
    assert_eq!(error.message(), "unrecognized directive: bogus");
    let error = DirectiveError::MissingRequiredSplit("1/2/3/4".to_string());
    assert_eq!(error.message(), "missing separator: 1/2/3/4");
    let error = DirectiveError::PatternMismatch("x".to_string());
    assert_eq!(error.message(), "unexpected shape: x");
}

#[test]
fn shift_armor_must_stand_alone() {
    let mut overrides = Overrides::default();
    assert!(overrides.sanitize(&"shift_armor_down!".to_string()).is_err());
}

#[test]
fn entries_are_classified() {
    assert_eq!(classify_entry(&"ma=75".to_string()), Some(OverrideKey::MainArmament));
    assert_eq!(classify_entry(&"man=12".to_string()), Some(OverrideKey::Manhandling));
    assert_eq!(classify_entry(&"ma_movt".to_string()), Some(OverrideKey::MainMovingTarget));
    assert_eq!(classify_entry(&"what".to_string()), None);
}

#[test]
fn alternate_locations_are_a_closed_set() {
    assert!(is_alternate_location("in_gs".to_string()));
    assert!(is_alternate_location("mgs".to_string()));
    assert!(is_alternate_location("above_mgs".to_string()));
    assert!(is_alternate_location("before_tow".to_string()));
    assert!(!is_alternate_location("".to_string()));
    assert!(!is_alternate_location("above".to_string()));
}

#[test]
fn chain_is_tokenized_in_order() {
    let tokens = tokenize(&"6pdr@sz+1@sz-0.5@above_mgs@elsewhere".to_string());
    assert_eq!(tokens.len(), 5);
    assert!(matches!(&tokens[0], Directive::FieldReplace(t) if t == "6pdr"));
    assert!(matches!(&tokens[1], Directive::SizeDelta(100)));
    assert!(matches!(&tokens[2], Directive::SizeDelta(-50)));
    assert!(matches!(&tokens[3], Directive::AlternateLocation(t) if t == "above_mgs"));
    assert!(matches!(&tokens[4], Directive::Unrecognized(t) if t == "elsewhere"));
}

#[test]
fn empty_chain_has_no_tokens() {
    assert_eq!(tokenize(&"".to_string()).len(), 0);
}

#[test]
fn chain_without_delimiter_is_one_replacement() {
    let tokens = tokenize(&"$$".to_string());
    assert_eq!(tokens.len(), 1);
    assert!(matches!(&tokens[0], Directive::FieldReplace(t) if t == "$$"));
}

#[test]
fn size_delta_that_is_no_number_is_zero() {
    assert!(matches!(parse_directive(1, &"sz+big".to_string()), Directive::SizeDelta(0)));
    assert!(matches!(parse_directive(1, &"sz+".to_string()), Directive::SizeDelta(0)));
    assert!(matches!(parse_directive(1, &"sz-1e3".to_string()), Directive::SizeDelta(0)));
    assert!(matches!(parse_directive(1, &"sz+1.2.3".to_string()), Directive::SizeDelta(0)));
    assert!(matches!(parse_directive(1, &"sz+2000000".to_string()), Directive::SizeDelta(0)));
}

#[test]
fn size_delta_is_read_in_hundredths() {
    assert!(matches!(parse_directive(1, &"sz+1".to_string()), Directive::SizeDelta(100)));
    assert!(matches!(parse_directive(1, &"sz+1.2".to_string()), Directive::SizeDelta(120)));
    assert!(matches!(parse_directive(1, &"sz-2".to_string()), Directive::SizeDelta(-200)));
    assert!(matches!(parse_directive(1, &"sz+0.25".to_string()), Directive::SizeDelta(25)));
    assert!(matches!(parse_directive(1, &"sz+.5".to_string()), Directive::SizeDelta(50)));
    assert!(matches!(parse_directive(1, &"sz+3.".to_string()), Directive::SizeDelta(300)));
    assert!(matches!(parse_directive(1, &"sz+1.239".to_string()), Directive::SizeDelta(123)));
    assert!(matches!(parse_directive(1, &"sz+0".to_string()), Directive::SizeDelta(0)));
}

#[test]
fn size_delta_may_carry_a_sign() {
    assert!(matches!(parse_directive(1, &"sz+-1".to_string()), Directive::SizeDelta(-100)));
    assert!(matches!(parse_directive(1, &"sz++1.5".to_string()), Directive::SizeDelta(150)));
    assert!(matches!(parse_directive(1, &"sz--2".to_string()), Directive::SizeDelta(200)));
    assert!(matches!(parse_directive(1, &"sz-+2".to_string()), Directive::SizeDelta(-200)));
    assert!(matches!(parse_directive(1, &"sz+-".to_string()), Directive::SizeDelta(0)));
    assert!(matches!(parse_directive(1, &"sz+--1".to_string()), Directive::SizeDelta(0)));
    assert!(matches!(parse_directive(1, &"sz+-.".to_string()), Directive::SizeDelta(0)));
}

#[test]
fn first_entry_is_always_the_replacement() {
    assert!(matches!(parse_directive(0, &"sz+1".to_string()), Directive::FieldReplace(t) if t == "sz+1"));
    assert!(matches!(parse_directive(0, &"".to_string()), Directive::FieldReplace(t) if t == ""));
}
