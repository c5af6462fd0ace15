use common_functions::tags::{substitute_tags, TaggedText};
use common_functions::text_field::{Note, NoteAction};

fn prefix_five() -> Note {
    Note::new(NoteAction::Prefix, "&#x002A;")
}

fn run(text: &str) -> TaggedText {
    substitute_tags(&text.to_string(), &prefix_five())
}

#[test]
fn leading_five_lobed_tag_is_a_prefix() {
    let r = run("[*]75L");
    assert_eq!(r.text, "75L");
    assert_eq!(r.note.action, NoteAction::Prefix);
    assert_eq!(r.note.text, "&#x002A;");
}

#[test]
fn trailing_five_lobed_tag_is_a_postfix() {
    let r = run("75L[*]");
    assert_eq!(r.text, "75L");
    assert_eq!(r.note.action, NoteAction::Postfix);
    assert_eq!(r.note.text, "&#x002A;");
}

#[test]
fn six_lobed_tag_follows_the_same_rule() {
    let r = run("<*>75");
    assert_eq!(r.text, "75");
    assert_eq!(r.note.action, NoteAction::Prefix);
    assert_eq!(r.note.text, "&#x273D;");
    let r = run("75<*>");
    assert_eq!(r.text, "75");
    assert_eq!(r.note.action, NoteAction::Postfix);
    assert_eq!(r.note.text, "&#x273D;");
}

#[test]
fn underline_note_tag_is_always_a_prefix() {
    let r = run("75[_*]");
    assert_eq!(r.text, "75");
    assert_eq!(r.note.action, NoteAction::Prefix);
    assert_eq!(r.note.text, "<tspan style=\"font-family:Nimbus Sans L\">&#x002A;</tspan>");
    let r = run("[_*]75");
    assert_eq!(r.text, "75");
    assert_eq!(r.note.action, NoteAction::Prefix);
    assert_eq!(r.note.text, "<tspan style=\"font-family:Nimbus Sans L\">&#x002A;</tspan>");
}

#[test]
fn bare_glyph_is_the_fallback() {
    let r = run("*75");
    assert_eq!(r.text, "75");
    assert_eq!(r.note.action, NoteAction::Prefix);
    let r = run("75*");
    assert_eq!(r.text, "75");
    assert_eq!(r.note.action, NoteAction::Postfix);
}

#[test]
fn dagger_and_what_follows_it_are_cut() {
    let r = run("12†<sup>3</sup>");
    assert_eq!(r.text, "12");
    assert_eq!(r.note.action, NoteAction::Prefix);
    assert_eq!(r.note.text, "&#x002A;");
}

#[test]
fn dagger_mark_depends_on_the_context() {
    let infix = Note::new(NoteAction::Infix, "&#x002A;");
    let r = substitute_tags(&"12†".to_string(), &infix);
    assert_eq!(r.text, "12");
    assert_eq!(r.note.action, NoteAction::Infix);
    let none = Note::default();
    let r = substitute_tags(&"12†".to_string(), &none);
    assert_eq!(r.text, "12");
    assert_eq!(r.note.action, NoteAction::Unset);
}

#[test]
fn five_lobed_tag_beats_the_dagger() {
    let r = run("75[*]†");
    assert_eq!(r.text, "75");
    assert_eq!(r.note.action, NoteAction::Postfix);
    assert_eq!(r.note.text, "&#x002A;");
    let r = run("[*]75†<sup>2</sup>");
    assert_eq!(r.text, "75");
    assert_eq!(r.note.action, NoteAction::Prefix);
}

#[test]
fn earlier_tag_beats_later_tag() {
    // the five-lobed tag stands last in the text and is found first
    let r = run("<*>75[*]");
    assert_eq!(r.text, "75");
    assert_eq!(r.note.action, NoteAction::Postfix);
    assert_eq!(r.note.text, "&#x002A;");
    let r = run("*75<*>");
    assert_eq!(r.text, "75");
    assert_eq!(r.note.action, NoteAction::Postfix);
    assert_eq!(r.note.text, "&#x273D;");
}

#[test]
fn mark_that_is_set_is_never_replaced() {
    let mut tagged = TaggedText {
        text: "[*]75<*>†".to_string(),
        note: Note::new(NoteAction::Delete, "kept"),
    };
    tagged.substitute(&prefix_five());
    assert_eq!(tagged.text, "75");
    assert_eq!(tagged.note.action, NoteAction::Delete);
    assert_eq!(tagged.note.text, "kept");
}

#[test]
fn text_without_tags_is_left_alone() {
    let r = run("75L");
    assert_eq!(r.text, "75L");
    assert_eq!(r.note.action, NoteAction::Unset);
    assert_eq!(r.note.text, "");
}

#[test]
fn substitution_is_idempotent() {
    for text in ["[*]75L", "75<*>", "*12†<sup>1</sup>", "[[*]*]", "a[_*]b*c†d", "75", "", "[*<*>]†*"] {
        let mut once = TaggedText::new(text.to_string());
        once.substitute(&prefix_five());
        let mut twice = TaggedText { text: once.text.clone(), note: once.note.clone() };
        twice.substitute(&prefix_five());
        assert_eq!(twice.text, once.text);
        assert_eq!(twice.note.action, once.note.action);
        assert_eq!(twice.note.text, once.note.text);
        assert!(!once.text.contains('*'));
        assert!(!once.text.contains('†'));
    }
}

#[test]
fn nested_tag_leaves_no_tag_behind() {
    let r = run("[[*]*]");
    assert_eq!(r.text, "[]");
    assert_eq!(r.note.action, NoteAction::Postfix);
}

#[test]
fn single_rules_can_be_applied_alone() {
    let mut tagged = TaggedText::new("[b*]8".to_string());
    tagged.apply_tag_rule("[b*]", "black", false);
    assert_eq!(tagged.text, "8");
    assert_eq!(tagged.note.action, NoteAction::Prefix);
    assert_eq!(tagged.note.text, "black");
    let mut tagged = TaggedText::new("8†".to_string());
    tagged.apply_asterisk_rules();
    assert_eq!(tagged.text, "8†");
    assert_eq!(tagged.note.action, NoteAction::Unset);
    tagged.apply_dagger_rule(&prefix_five());
    assert_eq!(tagged.text, "8");
    assert_eq!(tagged.note.action, NoteAction::Prefix);
}
