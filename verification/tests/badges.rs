use common_functions::classes::{
    class_badge, class_emblem, class_frame, class_sign, ClassEmblem, ClassFrame, ClassIdentifier,
    ClassSign,
};
use common_functions::malfunction::{Malf, BREAKDOWN_FONTS};
use common_functions::text_field::{Note, NoteAction};

#[test]
fn class_without_a_sign_has_a_blank_badge() {
    for class in [
        ClassIdentifier::Unclassified,
        ClassIdentifier::Crew,
        ClassIdentifier::Broken,
        ClassIdentifier::Cloaking,
        ClassIdentifier::Concealment,
        ClassIdentifier::LargeConcealment,
        ClassIdentifier::MiniConcealment,
        ClassIdentifier::Roi,
    ] {
        let badge = class_badge(class);
        assert_eq!(badge.frame, ClassFrame::Bare);
        assert_eq!(badge.sign, ClassSign::Blank);
        assert_eq!(badge.content, "");
    }
}

#[test]
fn lettered_classes_show_their_letters() {
    let cases = [
        (ClassIdentifier::AssaultEngineer1, ClassFrame::Bare, "AE"),
        (ClassIdentifier::AssaultEngineer2, ClassFrame::Bare, "A"),
        (ClassIdentifier::Engineer, ClassFrame::Bare, "E"),
        (ClassIdentifier::BoxedEngineer, ClassFrame::Boxed, "E"),
        (ClassIdentifier::CircledEngineer, ClassFrame::Circled, "E"),
        (ClassIdentifier::Firstline, ClassFrame::Bare, "1"),
        (ClassIdentifier::BoxedFirstline, ClassFrame::Boxed, "1"),
        (ClassIdentifier::CircledFirstline, ClassFrame::Circled, "1"),
        (ClassIdentifier::Secondline, ClassFrame::Bare, "2"),
        (ClassIdentifier::BoxedSecondline, ClassFrame::Boxed, "2"),
        (ClassIdentifier::CircledSecondline, ClassFrame::Circled, "2"),
        (ClassIdentifier::Green, ClassFrame::Bare, "G"),
        (ClassIdentifier::Conscript, ClassFrame::Bare, "C"),
        (ClassIdentifier::BoxedConscript, ClassFrame::Boxed, "C"),
        (ClassIdentifier::CircledConscript, ClassFrame::Circled, "C"),
        (ClassIdentifier::Fn16, ClassFrame::Bare, "16"),
    ];
    for (class, frame, letters) in cases {
        let badge = class_badge(class);
        assert_eq!(badge.frame, frame);
        assert_eq!(badge.sign, ClassSign::Letters);
        assert_eq!(badge.content, letters);
        assert_eq!(class_frame(class), frame);
        assert_eq!(class_sign(class), ClassSign::Letters);
    }
}

#[test]
fn pictured_classes_show_their_picture() {
    let cases = [
        (ClassIdentifier::Shutzstaffel, "./svg/class_ss.svg"),
        (ClassIdentifier::Paratroop, "./svg/class_para.svg"),
        (ClassIdentifier::Nkvd, "./svg/class_nkvd.svg"),
        (ClassIdentifier::Marines, "./svg/class_marines.svg"),
        (ClassIdentifier::Pegasus, "./svg/class_pegasus.svg"),
        (ClassIdentifier::FirstAirborne, "./svg/class_first_airborne.svg"),
        (ClassIdentifier::RoyalMarines, "./svg/class_royal_marines.svg"),
    ];
    for (class, path) in cases {
        let badge = class_badge(class);
        assert_eq!(badge.frame, ClassFrame::Bare);
        assert_eq!(badge.sign, ClassSign::Picture);
        assert_eq!(badge.content, path);
    }
}

#[test]
fn framed_pictures_are_set_in() {
    let cases = [
        (ClassIdentifier::BoxedMarines, ClassFrame::Boxed, "./svg/class_marines.svg"),
        (ClassIdentifier::CircledMarines, ClassFrame::Circled, "./svg/class_marines.svg"),
        (ClassIdentifier::ParaMarines, ClassFrame::Circled, "./svg/class_marines.svg"),
        (ClassIdentifier::BoxedPegasus, ClassFrame::Boxed, "./svg/class_pegasus.svg"),
        (ClassIdentifier::BoxedFirstAirborne, ClassFrame::Boxed, "./svg/class_first_airborne"),
        (ClassIdentifier::KoreanMarines, ClassFrame::Bare, "./svg/class_sk_marines.svg"),
    ];
    for (class, frame, path) in cases {
        let badge = class_badge(class);
        assert_eq!(badge.frame, frame);
        assert_eq!(badge.sign, ClassSign::InsetPicture);
        assert_eq!(badge.content, path);
    }
}

#[test]
fn cross_of_lorraine_goes_before_the_demolition_charge() {
    assert_eq!(class_emblem("ff", true), ClassEmblem::CrossOfLorraine);
    assert_eq!(class_emblem("ff", false), ClassEmblem::CrossOfLorraine);
    assert_eq!(class_emblem("fr", true), ClassEmblem::DemolitionCharge);
    assert_eq!(class_emblem("fr", false), ClassEmblem::Unmarked);
    assert_eq!(class_emblem("", false), ClassEmblem::Unmarked);
    assert_eq!(class_emblem("ffi", false), ClassEmblem::Unmarked);
}

fn number(category: char, text: &str) -> Malf {
    let mut malf = Malf::default();
    malf.category = category;
    malf.value.text = text.to_string();
    malf.value.fonts.initialize(BREAKDOWN_FONTS);
    malf
}

#[test]
fn breakdown_is_spelled_with_its_category() {
    assert_eq!(number('B', "11").markup(), "B11");
    assert_eq!(number('X', "").markup(), "X");
}

#[test]
fn breakdown_mark_stands_before_or_behind() {
    let mut malf = number('B', "11");
    malf.value.note = Note::new(NoteAction::Prefix, "*");
    assert_eq!(malf.markup(), "*B11");
    malf.value.note = Note::new(NoteAction::Postfix, "*");
    assert_eq!(malf.markup(), "B11*");
    malf.value.note = Note::new(NoteAction::Infix, "*");
    assert_eq!(malf.markup(), "B11");
    malf.value.note = Note::new(NoteAction::Postfix, "&#x273D;");
    let raised = "<tspan style=\"font-family:Nimbus Sans L;font-weight:bold;font-size:4.8px\" baseline-shift=\"super\">&#x273D;</tspan>";
    assert_eq!(malf.markup(), format!("B11{raised}"));
    malf.value.note = Note::new(NoteAction::Prefix, "&#x273D;");
    assert_eq!(malf.markup(), "&#x273D;B11");
}

#[test]
fn breakdown_superscript_is_wrapped_in_a_span() {
    let mut malf = number('B', "11");
    malf.superscript = "4+".to_string();
    let markup = malf.markup();
    assert!(markup.starts_with("B11<tspan "));
    assert!(markup.ends_with("4+</tspan>"));
    assert_eq!(
        markup,
        format!(
            "B11{}",
            common_functions::utils::wrap_superscripts(&"4+".to_string(), malf.value.fonts.sup_size())
        )
    );
}

#[test]
fn circled_number_of_two_digits_is_drawn_smaller() {
    let size = BREAKDOWN_FONTS[0][0];
    assert_eq!(number('B', "9").circled_size(), size);
    assert_eq!(number('B', "").circled_size(), size);
    assert_eq!(number('B', "11").circled_size(), size - 120);
    assert_eq!(number('B', "110").circled_size(), size - 120);
}
