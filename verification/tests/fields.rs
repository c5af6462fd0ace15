use common_functions::colors::{nationality_to_colors, Colors};
use common_functions::directive::Directive;
use common_functions::metrics::METRIC_LIMIT;
use common_functions::text_field::{
    find_decoration, string_to_action, FontsObj, Note, NoteAction, TextField, TextFieldTraits,
    FONT_BOTHLINED, FONT_NORMAL, FONT_OVERLINED, FONT_UNDERLINED, NO_FONTS, RANGE_FONTS,
};
use common_functions::armament::MA_FONTS;
use common_functions::transport::TRANSPORT_FONTS;

fn s(text: &str) -> String {
    text.to_string()
}

fn build(base: &str, overrides: &str) -> TextField {
    let mut field = TextField::default();
    field.sanitize(&s(base), &s(overrides), MA_FONTS, &Colors::default());
    field
}

#[test]
fn note_action_is_read_from_a_string() {
    assert_eq!(string_to_action(&s("post")), NoteAction::Postfix);
    assert_eq!(string_to_action(&s("pre")), NoteAction::Prefix);
    assert_eq!(string_to_action(&s("in")), NoteAction::Infix);
    assert_eq!(string_to_action(&s("del")), NoteAction::Unset);
    assert_eq!(string_to_action(&s("prepost")), NoteAction::Postfix);
}

#[test]
fn note_action_has_a_name() {
    assert_eq!(NoteAction::Unset.name(), "None");
    assert_eq!(NoteAction::Postfix.name(), "Postfix");
    assert_eq!(NoteAction::Prefix.name(), "Prefix");
    assert_eq!(NoteAction::Infix.name(), "Infix");
    assert_eq!(NoteAction::Delete.name(), "Delete");
    assert_eq!(NoteAction::default(), NoteAction::Unset);
}

#[test]
fn note_is_initialized_from_its_tag() {
    let mut note = Note::default();
    note.initialize("[*]", NoteAction::Prefix);
    assert_eq!(note.action, NoteAction::Prefix);
    assert_eq!(note.text, "<tspan style=\"font-family:Nimbus Sans L\">&#x002A;</tspan>");
    note.initialize("<*>", NoteAction::Postfix);
    assert_eq!(note.action, NoteAction::Postfix);
    assert_eq!(
        note.text,
        "<tspan style=\"font-family:Nimbus Sans L;font-weight:bold;font-size:4.8px\">&#x273D;</tspan>"
    );
    note.initialize("<b*>", NoteAction::Postfix);
    assert_eq!(
        note.text,
        "<tspan style=\"font-family:Nimbus Sans L;font-weight:bold;fill:black;stroke:none\">&#x273D;</tspan>"
    );
    note.initialize("[b*]", NoteAction::Prefix);
    assert_eq!(
        note.text,
        "<tspan style=\"font-family:Nimbus Sans L;fill:black;stroke:none\">&#x002A;</tspan>"
    );
    note.initialize("[w*]", NoteAction::Prefix);
    assert_eq!(
        note.text,
        "<tspan style=\"font-family:Nimbus Sans L;fill:white;stroke:none\">&#x002A;</tspan>"
    );
    note.initialize("whatever", NoteAction::Delete);
    assert_eq!(note.text, "&#x273D;");
    note.initialize("whatever", NoteAction::Infix);
    assert_eq!(note.text, "<tspan style=\"font-family:Nimbus Sans L\">&#x002A;</tspan>");
}

#[test]
fn fonts_give_the_attributes_of_the_selected_variant() {
    let mut fonts = FontsObj::default();
    fonts.initialize(MA_FONTS);
    assert_eq!(fonts.selected_font, FONT_NORMAL);
    assert_eq!((fonts.size(), fonts.sup_size(), fonts.y_percentage(), fonts.height()), (1200, 600, 7500, 1200));
    assert!(fonts.select(FONT_BOTHLINED));
    assert_eq!((fonts.size(), fonts.sup_size(), fonts.y_percentage(), fonts.height()), (1200, 600, 6667, 1800));
    assert!(fonts.select(7));
    assert_eq!(fonts.height(), 1300);
}

#[test]
fn placeholder_variant_is_never_selected() {
    let mut fonts = FontsObj::default();
    fonts.initialize(RANGE_FONTS);
    assert!(!fonts.select(FONT_UNDERLINED));
    assert_eq!(fonts.selected_font, FONT_NORMAL);
    assert!(!fonts.select(8));
    assert!(!fonts.select(usize::MAX));
    assert_eq!(fonts.selected_font, FONT_NORMAL);
    assert!(fonts.select(FONT_NORMAL));
}

#[test]
fn size_grows_in_every_variant() {
    let mut fonts = FontsObj::default();
    fonts.initialize(MA_FONTS);
    fonts.adjust_size(100);
    for row in 0..4 {
        assert_eq!(fonts.fonts[row], [1300, MA_FONTS[row][1], MA_FONTS[row][2], MA_FONTS[row][3]]);
    }
    for row in 4..8 {
        assert_eq!(fonts.fonts[row][0], 900);
    }
}

#[test]
fn size_shrinks_only_where_something_is_left() {
    let mut fonts = FontsObj::default();
    fonts.initialize(MA_FONTS);
    fonts.adjust_size(-800);
    assert_eq!(fonts.fonts[0][0], 400);
    // 800 - 800 would leave nothing: the alternate variants keep their size
    assert_eq!(fonts.fonts[4][0], 800);
    fonts.adjust_size(-5000);
    assert_eq!(fonts.fonts[0][0], 400);
    fonts.adjust_size(0);
    assert_eq!(fonts.fonts[0][0], 400);
}

#[test]
fn attribute_stops_at_the_limit() {
    let mut fonts = FontsObj::default();
    fonts.initialize(MA_FONTS);
    fonts.adjust_height(i64::MAX);
    assert_eq!(fonts.fonts[0][3], METRIC_LIMIT);
    fonts.adjust_height(i64::MIN);
    assert_eq!(fonts.fonts[0][3], METRIC_LIMIT);
    fonts.adjust_sup_size(25);
    assert_eq!(fonts.fonts[0][1], 625);
    fonts.adjust_y_percentage(-500);
    assert_eq!(fonts.fonts[0][2], 7000);
    assert_eq!(fonts.fonts[0][0], 1200);
}

#[test]
fn placeholder_grows_like_any_other_variant() {
    let mut fonts = FontsObj::default();
    fonts.initialize(RANGE_FONTS);
    fonts.adjust_size(50);
    assert_eq!(fonts.fonts[0][0], 890);
    assert_eq!(fonts.fonts[1][0], 50);
    fonts.adjust_size(-50);
    assert_eq!(fonts.fonts[1][0], 50);
}

#[test]
fn fonts_are_copied() {
    let mut source = FontsObj::default();
    source.initialize(TRANSPORT_FONTS);
    source.selected_font = 2;
    let mut target = FontsObj::default();
    target.copy(&source);
    assert_eq!(target.selected_font, 2);
    assert_eq!(target.fonts, TRANSPORT_FONTS);
    assert_eq!(FontsObj::default().fonts, NO_FONTS);
}

#[test]
fn field_without_override_uses_the_base_text() {
    let field = build("12L", "");
    assert!(!field.is_set);
    assert_eq!(field.text, "12L");
    assert_eq!(field.color, "black");
    assert_eq!(field.note.action, NoteAction::Unset);
    assert_eq!(field.alternate_location, "");
    assert_eq!(field.fonts.selected_font, FONT_NORMAL);
    assert_eq!(field.fonts.fonts, MA_FONTS);
}

#[test]
fn override_replaces_the_text() {
    let field = build("12L", "6pdr");
    assert_eq!(field.text, "6pdr");
    assert_eq!(field.fonts.fonts, MA_FONTS);
}

#[test]
fn copy_field_sentinel_stands_for_the_base_text() {
    let field = build("12L", "[$$]");
    assert_eq!(field.text, "[12L]");
    let field = build("12L", "$$/$$");
    assert_eq!(field.text, "12L/12L");
}

#[test]
fn modifiers_are_cumulative() {
    let field = build("12", "$$@sz+1@sz+0.5@sz-2@above_mgs");
    assert_eq!(field.text, "12");
    assert_eq!(field.fonts.size(), 1150);
    assert_eq!(field.alternate_location, "above_mgs");
}

#[test]
fn any_other_token_is_an_opaque_location() {
    let field = build("12", "$$@somewhere");
    assert_eq!(field.alternate_location, "somewhere");
    let field = build("12", "$$@in_gs@mgs");
    assert_eq!(field.alternate_location, "mgs");
}

#[test]
fn empty_replacement_empties_the_text() {
    let field = build("12†", "@sz-2");
    assert_eq!(field.text, "");
    assert_eq!(field.note.action, NoteAction::Unset);
    assert_eq!(field.fonts.size(), 1000);
}

#[test]
fn bold_span_forces_the_alert_colour() {
    let field = build("<b>12</b>", "");
    assert_eq!(field.text, "12");
    assert_eq!(field.color, "red");
    let ss = nationality_to_colors(&s("ss"));
    let mut field = TextField::default();
    field.sanitize(&s("12"), &s(""), MA_FONTS, &ss);
    assert_eq!(field.color, "white");
    field.sanitize(&s("<b>12</b>"), &s(""), MA_FONTS, &ss);
    assert_eq!(field.color, "red");
}

#[test]
fn decoration_selects_the_variant_and_is_not_stripped() {
    let text = "<span style=\"text-decoration:underline\">75</span>";
    let field = build(text, "");
    assert_eq!(field.text, text);
    assert_eq!(field.fonts.selected_font, FONT_UNDERLINED);
    let text = "<span style=\"text-decoration:overline\">75</span>";
    assert_eq!(build(text, "").fonts.selected_font, FONT_OVERLINED);
    let text = "<span style=\"text-decoration:overline\"><span style=\"text-decoration:underline\">75</span></span>";
    assert_eq!(build(text, "").fonts.selected_font, FONT_BOTHLINED);
    assert_eq!(find_decoration(&s("75")), FONT_NORMAL);
}

#[test]
fn decoration_without_a_variant_keeps_the_normal_one() {
    let mut field = TextField::default();
    field.sanitize(
        &s("<span style=\"text-decoration:underline\">12</span>"),
        &s(""),
        RANGE_FONTS,
        &Colors::default(),
    );
    assert_eq!(field.fonts.selected_font, FONT_NORMAL);
}

#[test]
fn residual_superscript_takes_the_superscript_size() {
    let field = build("6<sup>2</sup>", "");
    assert_eq!(
        field.text,
        "6<tspan style=\"font-size:6px;font-weight:bold;font-family:Nimbus Sans L\" baseline-shift=\"super\">2</tspan>"
    );
}

#[test]
fn tags_of_a_built_field_become_its_note() {
    let field = build("[*]12", "");
    assert_eq!(field.text, "12");
    assert_eq!(field.note.action, NoteAction::Prefix);
    assert_eq!(field.note.text, "&#x002A;");
    let field = build("12", "$$<*>");
    assert_eq!(field.text, "12");
    assert_eq!(field.note.action, NoteAction::Postfix);
    assert_eq!(field.note.text, "&#x273D;");
}

#[test]
fn dagger_of_a_plain_field_is_dropped_without_a_mark() {
    let field = build("12†<sup>1</sup>", "");
    assert_eq!(field.text, "12");
    assert_eq!(field.note.action, NoteAction::Unset);
}

#[test]
fn dagger_takes_the_mark_of_its_context() {
    let mark = Note::new(NoteAction::Infix, "&#x002A;");
    let field = TextField::build(&s("12†"), &s("$$@sz-2"), MA_FONTS, &Colors::default(), &mark);
    assert_eq!(field.text, "12");
    assert_eq!(field.note.action, NoteAction::Infix);
    assert_eq!(field.note.text, "&#x002A;");
    assert_eq!(field.fonts.size(), 1000);
}

#[test]
fn sanitize_forgets_what_the_field_held() {
    let mut field = build("[*]12", "$$@above_mgs@sz+3");
    field.sanitize(&s("7"), &s(""), RANGE_FONTS, &Colors::default());
    assert_eq!(field.text, "7");
    assert_eq!(field.note.action, NoteAction::Unset);
    assert_eq!(field.alternate_location, "");
    assert_eq!(field.fonts.fonts, RANGE_FONTS);
}

#[test]
fn copy_field_round_trip_holds_for_many_texts() {
    for base in ["12L", "", "†", "[*]7†", "<b>x</b>", "a<sup>1</sup>", "$$", "x@y"] {
        let plain = build(base, "");
        let copied = build(base, "$$@sz+0");
        assert_eq!(copied.text, plain.text);
        assert_eq!(copied.color, plain.color);
        assert_eq!(copied.is_set, plain.is_set);
        assert_eq!(copied.note.action, plain.note.action);
        assert_eq!(copied.note.text, plain.note.text);
        assert_eq!(copied.alternate_location, plain.alternate_location);
        assert_eq!(copied.fonts.selected_font, plain.fonts.selected_font);
        assert_eq!(copied.fonts.fonts, plain.fonts.fonts);
    }
}

#[test]
fn copy_of_an_empty_base_is_empty() {
    assert_eq!(build("", "$$@sz+0").text, "");
    assert_eq!(build("12L", "").text, "12L");
}

#[test]
fn process_overrides_works_on_the_text_that_is_there() {
    let mut field = TextField::default();
    field.text = s("12†");
    field.fonts.initialize(TRANSPORT_FONTS);
    field.process_overrides(&s("$$[*]<*>@sz-2@in_gs"), true);
    assert!(field.is_set);
    assert_eq!(
        field.text,
        "12†&#x002A;<tspan style=\"font-family:Nimbus Sans L;font-weight:bold;font-size:4.8px\" baseline-shift=\"super\">&#x273D;</tspan>"
    );
    assert_eq!(field.fonts.size(), 600);
    assert_eq!(field.alternate_location, "in_gs");
}

#[test]
fn process_overrides_may_leave_the_tags() {
    let mut field = TextField::default();
    field.text = s("12");
    field.process_overrides(&s("$$[*]"), false);
    assert_eq!(field.text, "12[*]");
    assert!(field.is_set);
}

#[test]
fn process_overrides_of_nothing_changes_nothing() {
    let mut field = TextField::default();
    field.text = s("12");
    field.process_overrides(&s(""), true);
    assert_eq!(field.text, "12");
    assert!(!field.is_set);
}

#[test]
fn field_is_initialized_from_another() {
    let source = build("[*]12", "$$@above_mgs@sz+3");
    let mut target = TextField::default();
    target.initialize(&source);
    assert_eq!(target.text, source.text);
    assert_eq!(target.color, source.color);
    assert_eq!(target.is_set, source.is_set);
    assert_eq!(target.note.action, source.note.action);
    assert_eq!(target.note.text, source.note.text);
    assert_eq!(target.alternate_location, source.alternate_location);
    assert_eq!(target.fonts.fonts, source.fonts.fonts);
}

#[test]
fn directive_is_applied_to_a_field() {
    let mut field = TextField::default();
    field.fonts.initialize(MA_FONTS);
    field.apply_directive(&Directive::FieldReplace(s("<$$>")), &s("7"));
    assert_eq!(field.text, "<7>");
    field.apply_directive(&Directive::SizeDelta(-120), &s("7"));
    assert_eq!(field.fonts.size(), 1080);
    field.apply_directive(&Directive::AlternateLocation(s("mgs")), &s("7"));
    assert_eq!(field.alternate_location, "mgs");
    field.apply_directive(&Directive::Unrecognized(s("x")), &s("7"));
    assert_eq!(field.alternate_location, "x");
    assert_eq!(field.apply_chain(&s("a@sz+1@b"), &s("")), 3);
    assert_eq!(field.text, "a");
    assert_eq!(field.fonts.size(), 1180);
    assert_eq!(field.alternate_location, "b");
}

#[test]
fn sanitize_leaves_the_set_mark_as_it_was() {
    let colors = Colors::default();
    for chain in ["", "6pdr@sz+1", "$$@in_gs"] {
        let mut fresh = TextField::default();
        fresh.sanitize(&s("12L"), &s(chain), RANGE_FONTS, &colors);
        assert!(!fresh.is_set);
        let mut marked = TextField::default();
        marked.is_set = true;
        marked.sanitize(&s("12L"), &s(chain), RANGE_FONTS, &colors);
        assert!(marked.is_set);
        assert_eq!(marked.text, fresh.text);
        assert_eq!(marked.color, colors.text);
        assert_eq!(marked.fonts.selected_font, FONT_NORMAL);
    }
}
