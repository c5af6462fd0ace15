//! The class of a squad or a half-squad, and its morale.

use vstd::prelude::*;
use crate::metrics::{integer_value, parse_integer};
use crate::overrides::DirectiveError;
use crate::scan::{same_chars, split_once_text, to_chars};
use crate::text::split_once_at;

verus! {

/// The class that marks a multi-man counter.
#[derive(PartialEq, Eq, Structural, Clone, Copy, Debug)]
pub enum ClassIdentifier {
    /// No class.
    Unclassified,
    Shutzstaffel,
    /// Marked `AE`.
    AssaultEngineer1,
    /// Marked `A`.
    AssaultEngineer2,
    Engineer,
    BoxedEngineer,
    CircledEngineer,
    Firstline,
    BoxedFirstline,
    CircledFirstline,
    Secondline,
    BoxedSecondline,
    CircledSecondline,
    Green,
    Conscript,
    BoxedConscript,
    CircledConscript,
    Crew,
    Paratroop,
    Nkvd,
    Marines,
    BoxedMarines,
    CircledMarines,
    ParaMarines,
    Pegasus,
    BoxedPegasus,
    FirstAirborne,
    BoxedFirstAirborne,
    RoyalMarines,
    KoreanMarines,
    Fn16,
    Broken,
    Cloaking,
    Concealment,
    LargeConcealment,
    MiniConcealment,
    Roi,
}

impl Default for ClassIdentifier {
    fn default() -> (r: Self)
        ensures
            r == ClassIdentifier::Unclassified,
    {
        ClassIdentifier::Unclassified
    }
}

impl ClassIdentifier {
    /// The name of the class.
    pub fn name(&self) -> (r: String)
        ensures
            r@ == match *self {
                ClassIdentifier::Unclassified => "None"@,
                ClassIdentifier::Shutzstaffel => "Shutzstaffel"@,
                ClassIdentifier::AssaultEngineer1 => "AssaultEngineer - AE"@,
                ClassIdentifier::AssaultEngineer2 => "AssaultEngineer - A"@,
                ClassIdentifier::Engineer => "Engineer"@,
                ClassIdentifier::BoxedEngineer => "BoxedEngineer"@,
                ClassIdentifier::CircledEngineer => "CircledEngineer"@,
                ClassIdentifier::Firstline => "Firstline"@,
                ClassIdentifier::BoxedFirstline => "BoxedFirstline"@,
                ClassIdentifier::CircledFirstline => "CircledFirstline"@,
                ClassIdentifier::Secondline => "Secondline"@,
                ClassIdentifier::BoxedSecondline => "BoxedSecondline"@,
                ClassIdentifier::CircledSecondline => "CircledSecondline"@,
                ClassIdentifier::Green => "Green"@,
                ClassIdentifier::Conscript => "Conscript"@,
                ClassIdentifier::BoxedConscript => "BoxedConscript"@,
                ClassIdentifier::CircledConscript => "CircledConscript"@,
                ClassIdentifier::Crew => "Crew"@,
                ClassIdentifier::Paratroop => "Paratroop"@,
                ClassIdentifier::Nkvd => "Nkvd"@,
                ClassIdentifier::Marines => "Marines"@,
                ClassIdentifier::BoxedMarines => "BoxedMarines"@,
                ClassIdentifier::CircledMarines => "CircledMarines"@,
                ClassIdentifier::ParaMarines => "ParaMarines"@,
                ClassIdentifier::Pegasus => "Pegasus"@,
                ClassIdentifier::BoxedPegasus => "BoxedPegasus"@,
                ClassIdentifier::FirstAirborne => "FirstAirborne"@,
                ClassIdentifier::BoxedFirstAirborne => "BoxedFirstAirborne"@,
                ClassIdentifier::RoyalMarines => "RoyalMarines"@,
                ClassIdentifier::KoreanMarines => "KoreanMarines"@,
                ClassIdentifier::Fn16 => "Fn16"@,
                ClassIdentifier::Broken => "Broken"@,
                ClassIdentifier::Cloaking => "Cloaking"@,
                ClassIdentifier::Concealment => "Concealment"@,
                ClassIdentifier::LargeConcealment => "LargeConcealment"@,
                ClassIdentifier::MiniConcealment => "MiniConcealment"@,
                ClassIdentifier::Roi => "Roi"@,
            },
    {
        match self {
            ClassIdentifier::Unclassified => "None".to_string(),
            ClassIdentifier::Shutzstaffel => "Shutzstaffel".to_string(),
            ClassIdentifier::AssaultEngineer1 => "AssaultEngineer - AE".to_string(),
            ClassIdentifier::AssaultEngineer2 => "AssaultEngineer - A".to_string(),
            ClassIdentifier::Engineer => "Engineer".to_string(),
            ClassIdentifier::BoxedEngineer => "BoxedEngineer".to_string(),
            ClassIdentifier::CircledEngineer => "CircledEngineer".to_string(),
            ClassIdentifier::Firstline => "Firstline".to_string(),
            ClassIdentifier::BoxedFirstline => "BoxedFirstline".to_string(),
            ClassIdentifier::CircledFirstline => "CircledFirstline".to_string(),
            ClassIdentifier::Secondline => "Secondline".to_string(),
            ClassIdentifier::BoxedSecondline => "BoxedSecondline".to_string(),
            ClassIdentifier::CircledSecondline => "CircledSecondline".to_string(),
            ClassIdentifier::Green => "Green".to_string(),
            ClassIdentifier::Conscript => "Conscript".to_string(),
            ClassIdentifier::BoxedConscript => "BoxedConscript".to_string(),
            ClassIdentifier::CircledConscript => "CircledConscript".to_string(),
            ClassIdentifier::Crew => "Crew".to_string(),
            ClassIdentifier::Paratroop => "Paratroop".to_string(),
            ClassIdentifier::Nkvd => "Nkvd".to_string(),
            ClassIdentifier::Marines => "Marines".to_string(),
            ClassIdentifier::BoxedMarines => "BoxedMarines".to_string(),
            ClassIdentifier::CircledMarines => "CircledMarines".to_string(),
            ClassIdentifier::ParaMarines => "ParaMarines".to_string(),
            ClassIdentifier::Pegasus => "Pegasus".to_string(),
            ClassIdentifier::BoxedPegasus => "BoxedPegasus".to_string(),
            ClassIdentifier::FirstAirborne => "FirstAirborne".to_string(),
            ClassIdentifier::BoxedFirstAirborne => "BoxedFirstAirborne".to_string(),
            ClassIdentifier::RoyalMarines => "RoyalMarines".to_string(),
            ClassIdentifier::KoreanMarines => "KoreanMarines".to_string(),
            ClassIdentifier::Fn16 => "Fn16".to_string(),
            ClassIdentifier::Broken => "Broken".to_string(),
            ClassIdentifier::Cloaking => "Cloaking".to_string(),
            ClassIdentifier::Concealment => "Concealment".to_string(),
            ClassIdentifier::LargeConcealment => "LargeConcealment".to_string(),
            ClassIdentifier::MiniConcealment => "MiniConcealment".to_string(),
            ClassIdentifier::Roi => "Roi".to_string(),
        }
    }
}

/// The class that the text `class` names, where it names one.
pub open spec fn class_of(class: Seq<char>) -> Option<ClassIdentifier> {
    if class == "ss"@ {
        Some(ClassIdentifier::Shutzstaffel)
    } else if class == "AE"@ {
        Some(ClassIdentifier::AssaultEngineer1)
    } else if class == "A"@ {
        Some(ClassIdentifier::AssaultEngineer2)
    } else if class == "E"@ {
        Some(ClassIdentifier::Engineer)
    } else if class == "[E]"@ {
        Some(ClassIdentifier::BoxedEngineer)
    } else if class == "(E)"@ {
        Some(ClassIdentifier::CircledEngineer)
    } else if class == "1"@ {
        Some(ClassIdentifier::Firstline)
    } else if class == "[1]"@ {
        Some(ClassIdentifier::BoxedFirstline)
    } else if class == "(1)"@ {
        Some(ClassIdentifier::CircledFirstline)
    } else if class == "2"@ {
        Some(ClassIdentifier::Secondline)
    } else if class == "[2]"@ {
        Some(ClassIdentifier::BoxedSecondline)
    } else if class == "(2)"@ {
        Some(ClassIdentifier::CircledSecondline)
    } else if class == "G"@ {
        Some(ClassIdentifier::Green)
    } else if class == "C"@ {
        Some(ClassIdentifier::Conscript)
    } else if class == "[C]"@ {
        Some(ClassIdentifier::BoxedConscript)
    } else if class == "(C)"@ {
        Some(ClassIdentifier::CircledConscript)
    } else if class == "crew"@ {
        Some(ClassIdentifier::Crew)
    } else if class == "P"@ {
        Some(ClassIdentifier::Paratroop)
    } else if class == "NKVD"@ {
        Some(ClassIdentifier::Nkvd)
    } else if class == "M"@ {
        Some(ClassIdentifier::Marines)
    } else if class == "[M]"@ {
        Some(ClassIdentifier::BoxedMarines)
    } else if class == "(M)"@ {
        Some(ClassIdentifier::CircledMarines)
    } else if class == "(M)P"@ {
        Some(ClassIdentifier::ParaMarines)
    } else if class == "pegasus"@ {
        Some(ClassIdentifier::Pegasus)
    } else if class == "[pegasus]"@ {
        Some(ClassIdentifier::BoxedPegasus)
    } else if class == "first_ab"@ {
        Some(ClassIdentifier::FirstAirborne)
    } else if class == "[first_ab]"@ {
        Some(ClassIdentifier::BoxedFirstAirborne)
    } else if class == "RM"@ {
        Some(ClassIdentifier::RoyalMarines)
    } else if class == "KMC"@ {
        Some(ClassIdentifier::KoreanMarines)
    } else if class == "Fn16"@ {
        Some(ClassIdentifier::Fn16)
    } else if class == "broken"@ {
        Some(ClassIdentifier::Broken)
    } else if class == "?C"@ {
        Some(ClassIdentifier::Cloaking)
    } else if class == "?"@ {
        Some(ClassIdentifier::Concealment)
    } else if class == "?58"@ {
        Some(ClassIdentifier::LargeConcealment)
    } else if class == "?me"@ {
        Some(ClassIdentifier::MiniConcealment)
    } else if class == "?roi"@ {
        Some(ClassIdentifier::Roi)
    } else if class == "none"@ {
        Some(ClassIdentifier::Unclassified)
    } else {
        None
    }
}

/// Reads the class of a row. A text that names no class is an error that
/// holds it.
pub fn sanitize_class_identifier(class: &str) -> (r: Result<ClassIdentifier, DirectiveError>)
    ensures
        match class_of(class@) {
            Some(c) => r == Ok::<ClassIdentifier, DirectiveError>(c),
            None => r matches Err(DirectiveError::UnrecognizedDirective(t)) && t@ == class@,
        },
{
    let c = to_chars(class);
    if same_chars(&c, &to_chars("ss")) {
        Ok(ClassIdentifier::Shutzstaffel)
    } else if same_chars(&c, &to_chars("AE")) {
        Ok(ClassIdentifier::AssaultEngineer1)
    } else if same_chars(&c, &to_chars("A")) {
        Ok(ClassIdentifier::AssaultEngineer2)
    } else if same_chars(&c, &to_chars("E")) {
        Ok(ClassIdentifier::Engineer)
    } else if same_chars(&c, &to_chars("[E]")) {
        Ok(ClassIdentifier::BoxedEngineer)
    } else if same_chars(&c, &to_chars("(E)")) {
        Ok(ClassIdentifier::CircledEngineer)
    } else if same_chars(&c, &to_chars("1")) {
        Ok(ClassIdentifier::Firstline)
    } else if same_chars(&c, &to_chars("[1]")) {
        Ok(ClassIdentifier::BoxedFirstline)
    } else if same_chars(&c, &to_chars("(1)")) {
        Ok(ClassIdentifier::CircledFirstline)
    } else if same_chars(&c, &to_chars("2")) {
        Ok(ClassIdentifier::Secondline)
    } else if same_chars(&c, &to_chars("[2]")) {
        Ok(ClassIdentifier::BoxedSecondline)
    } else if same_chars(&c, &to_chars("(2)")) {
        Ok(ClassIdentifier::CircledSecondline)
    } else if same_chars(&c, &to_chars("G")) {
        Ok(ClassIdentifier::Green)
    } else if same_chars(&c, &to_chars("C")) {
        Ok(ClassIdentifier::Conscript)
    } else if same_chars(&c, &to_chars("[C]")) {
        Ok(ClassIdentifier::BoxedConscript)
    } else if same_chars(&c, &to_chars("(C)")) {
        Ok(ClassIdentifier::CircledConscript)
    } else if same_chars(&c, &to_chars("crew")) {
        Ok(ClassIdentifier::Crew)
    } else if same_chars(&c, &to_chars("P")) {
        Ok(ClassIdentifier::Paratroop)
    } else if same_chars(&c, &to_chars("NKVD")) {
        Ok(ClassIdentifier::Nkvd)
    } else if same_chars(&c, &to_chars("M")) {
        Ok(ClassIdentifier::Marines)
    } else if same_chars(&c, &to_chars("[M]")) {
        Ok(ClassIdentifier::BoxedMarines)
    } else if same_chars(&c, &to_chars("(M)")) {
        Ok(ClassIdentifier::CircledMarines)
    } else if same_chars(&c, &to_chars("(M)P")) {
        Ok(ClassIdentifier::ParaMarines)
    } else if same_chars(&c, &to_chars("pegasus")) {
        Ok(ClassIdentifier::Pegasus)
    } else if same_chars(&c, &to_chars("[pegasus]")) {
        Ok(ClassIdentifier::BoxedPegasus)
    } else if same_chars(&c, &to_chars("first_ab")) {
        Ok(ClassIdentifier::FirstAirborne)
    } else if same_chars(&c, &to_chars("[first_ab]")) {
        Ok(ClassIdentifier::BoxedFirstAirborne)
    } else if same_chars(&c, &to_chars("RM")) {
        Ok(ClassIdentifier::RoyalMarines)
    } else if same_chars(&c, &to_chars("KMC")) {
        Ok(ClassIdentifier::KoreanMarines)
    } else if same_chars(&c, &to_chars("Fn16")) {
        Ok(ClassIdentifier::Fn16)
    } else if same_chars(&c, &to_chars("broken")) {
        Ok(ClassIdentifier::Broken)
    } else if same_chars(&c, &to_chars("?C")) {
        Ok(ClassIdentifier::Cloaking)
    } else if same_chars(&c, &to_chars("?")) {
        Ok(ClassIdentifier::Concealment)
    } else if same_chars(&c, &to_chars("?58")) {
        Ok(ClassIdentifier::LargeConcealment)
    } else if same_chars(&c, &to_chars("?me")) {
        Ok(ClassIdentifier::MiniConcealment)
    } else if same_chars(&c, &to_chars("?roi")) {
        Ok(ClassIdentifier::Roi)
    } else if same_chars(&c, &to_chars("none")) {
        Ok(ClassIdentifier::Unclassified)
    } else {
        Err(DirectiveError::UnrecognizedDirective(class.to_string()))
    }
}

/// What is drawn around the sign of a class.
#[derive(PartialEq, Eq, Structural, Clone, Copy, Debug)]
pub enum ClassFrame {
    Bare,
    Boxed,
    Circled,
}

/// How the sign of a class is drawn.
#[derive(PartialEq, Eq, Structural, Clone, Copy, Debug)]
pub enum ClassSign {
    /// The class has no sign.
    Blank,
    /// Letters or digits.
    Letters,
    /// A picture that fills the badge.
    Picture,
    /// A picture set into a frame, or drawn as small as one that is.
    InsetPicture,
}

/// What a `ClassBadge` holds.
pub struct ClassBadgeView {
    pub frame: ClassFrame,
    pub sign: ClassSign,
    pub content: Seq<char>,
}

/// The badge of a class: its frame, and its sign with the letters or the
/// picture's path.
#[derive(Debug)]
pub struct ClassBadge {
    pub frame: ClassFrame,
    pub sign: ClassSign,
    pub content: String,
}

impl View for ClassBadge {
    type V = ClassBadgeView;

    open spec fn view(&self) -> ClassBadgeView {
        ClassBadgeView { frame: self.frame, sign: self.sign, content: self.content@ }
    }
}

/// The frame of a class: a box or a circle for the classes named so, a
/// circle for the parachute marines, none for the others.
pub open spec fn frame_of(class: ClassIdentifier) -> ClassFrame {
    match class {
        ClassIdentifier::BoxedEngineer | ClassIdentifier::BoxedFirstline
        | ClassIdentifier::BoxedSecondline | ClassIdentifier::BoxedConscript
        | ClassIdentifier::BoxedMarines | ClassIdentifier::BoxedPegasus
        | ClassIdentifier::BoxedFirstAirborne => ClassFrame::Boxed,
        ClassIdentifier::CircledEngineer | ClassIdentifier::CircledFirstline
        | ClassIdentifier::CircledSecondline | ClassIdentifier::CircledConscript
        | ClassIdentifier::CircledMarines | ClassIdentifier::ParaMarines => ClassFrame::Circled,
        _ => ClassFrame::Bare,
    }
}

/// How the sign of a class is drawn.
pub open spec fn sign_of(class: ClassIdentifier) -> ClassSign {
    match class {
        ClassIdentifier::AssaultEngineer1 | ClassIdentifier::AssaultEngineer2
        | ClassIdentifier::Engineer | ClassIdentifier::BoxedEngineer
        | ClassIdentifier::CircledEngineer | ClassIdentifier::Firstline
        | ClassIdentifier::BoxedFirstline | ClassIdentifier::CircledFirstline
        | ClassIdentifier::Secondline | ClassIdentifier::BoxedSecondline
        | ClassIdentifier::CircledSecondline | ClassIdentifier::Green
        | ClassIdentifier::Conscript | ClassIdentifier::BoxedConscript
        | ClassIdentifier::CircledConscript | ClassIdentifier::Fn16 => ClassSign::Letters,
        ClassIdentifier::Shutzstaffel | ClassIdentifier::Paratroop | ClassIdentifier::Nkvd
        | ClassIdentifier::Marines | ClassIdentifier::Pegasus | ClassIdentifier::FirstAirborne
        | ClassIdentifier::RoyalMarines => ClassSign::Picture,
        ClassIdentifier::BoxedMarines | ClassIdentifier::CircledMarines
        | ClassIdentifier::ParaMarines | ClassIdentifier::BoxedPegasus
        | ClassIdentifier::BoxedFirstAirborne | ClassIdentifier::KoreanMarines => ClassSign::InsetPicture,
        _ => ClassSign::Blank,
    }
}

/// The letters of a class that is marked with letters, the path of the
/// picture of one that is marked with a picture, and nothing for a class
/// without a sign.
pub open spec fn content_of(class: ClassIdentifier) -> Seq<char> {
    match class {
        ClassIdentifier::Shutzstaffel => "./svg/class_ss.svg"@,
        ClassIdentifier::AssaultEngineer1 => "AE"@,
        ClassIdentifier::AssaultEngineer2 => "A"@,
        ClassIdentifier::Engineer => "E"@,
        ClassIdentifier::BoxedEngineer => "E"@,
        ClassIdentifier::CircledEngineer => "E"@,
        ClassIdentifier::Firstline => "1"@,
        ClassIdentifier::BoxedFirstline => "1"@,
        ClassIdentifier::CircledFirstline => "1"@,
        ClassIdentifier::Secondline => "2"@,
        ClassIdentifier::BoxedSecondline => "2"@,
        ClassIdentifier::CircledSecondline => "2"@,
        ClassIdentifier::Green => "G"@,
        ClassIdentifier::Conscript => "C"@,
        ClassIdentifier::BoxedConscript => "C"@,
        ClassIdentifier::CircledConscript => "C"@,
        ClassIdentifier::Paratroop => "./svg/class_para.svg"@,
        ClassIdentifier::Nkvd => "./svg/class_nkvd.svg"@,
        ClassIdentifier::Marines => "./svg/class_marines.svg"@,
        ClassIdentifier::BoxedMarines => "./svg/class_marines.svg"@,
        ClassIdentifier::CircledMarines => "./svg/class_marines.svg"@,
        ClassIdentifier::ParaMarines => "./svg/class_marines.svg"@,
        ClassIdentifier::Pegasus => "./svg/class_pegasus.svg"@,
        ClassIdentifier::BoxedPegasus => "./svg/class_pegasus.svg"@,
        ClassIdentifier::FirstAirborne => "./svg/class_first_airborne.svg"@,
        ClassIdentifier::BoxedFirstAirborne => "./svg/class_first_airborne"@,
        ClassIdentifier::RoyalMarines => "./svg/class_royal_marines.svg"@,
        ClassIdentifier::KoreanMarines => "./svg/class_sk_marines.svg"@,
        ClassIdentifier::Fn16 => "16"@,
        _ => ""@,
    }
}

/// The badge of a class.
pub open spec fn badge_of(class: ClassIdentifier) -> ClassBadgeView {
    ClassBadgeView { frame: frame_of(class), sign: sign_of(class), content: content_of(class) }
}

/// The frame of a class.
pub fn class_frame(class: ClassIdentifier) -> (r: ClassFrame)
    ensures
        r == frame_of(class),
{
    match class {
        ClassIdentifier::BoxedEngineer | ClassIdentifier::BoxedFirstline
        | ClassIdentifier::BoxedSecondline | ClassIdentifier::BoxedConscript
        | ClassIdentifier::BoxedMarines | ClassIdentifier::BoxedPegasus
        | ClassIdentifier::BoxedFirstAirborne => ClassFrame::Boxed,
        ClassIdentifier::CircledEngineer | ClassIdentifier::CircledFirstline
        | ClassIdentifier::CircledSecondline | ClassIdentifier::CircledConscript
        | ClassIdentifier::CircledMarines | ClassIdentifier::ParaMarines => ClassFrame::Circled,
        _ => ClassFrame::Bare,
    }
}

/// How the sign of a class is drawn.
pub fn class_sign(class: ClassIdentifier) -> (r: ClassSign)
    ensures
        r == sign_of(class),
{
    match class {
        ClassIdentifier::AssaultEngineer1 | ClassIdentifier::AssaultEngineer2
        | ClassIdentifier::Engineer | ClassIdentifier::BoxedEngineer
        | ClassIdentifier::CircledEngineer | ClassIdentifier::Firstline
        | ClassIdentifier::BoxedFirstline | ClassIdentifier::CircledFirstline
        | ClassIdentifier::Secondline | ClassIdentifier::BoxedSecondline
        | ClassIdentifier::CircledSecondline | ClassIdentifier::Green
        | ClassIdentifier::Conscript | ClassIdentifier::BoxedConscript
        | ClassIdentifier::CircledConscript | ClassIdentifier::Fn16 => ClassSign::Letters,
        ClassIdentifier::Shutzstaffel | ClassIdentifier::Paratroop | ClassIdentifier::Nkvd
        | ClassIdentifier::Marines | ClassIdentifier::Pegasus | ClassIdentifier::FirstAirborne
        | ClassIdentifier::RoyalMarines => ClassSign::Picture,
        ClassIdentifier::BoxedMarines | ClassIdentifier::CircledMarines
        | ClassIdentifier::ParaMarines | ClassIdentifier::BoxedPegasus
        | ClassIdentifier::BoxedFirstAirborne | ClassIdentifier::KoreanMarines => ClassSign::InsetPicture,
        _ => ClassSign::Blank,
    }
}

/// The badge of a class.
pub fn class_badge(class: ClassIdentifier) -> (r: ClassBadge)
    ensures
        r@ == badge_of(class),
{
    let content: &str = match class {
        ClassIdentifier::Shutzstaffel => "./svg/class_ss.svg",
        ClassIdentifier::AssaultEngineer1 => "AE",
        ClassIdentifier::AssaultEngineer2 => "A",
        ClassIdentifier::Engineer => "E",
        ClassIdentifier::BoxedEngineer => "E",
        ClassIdentifier::CircledEngineer => "E",
        ClassIdentifier::Firstline => "1",
        ClassIdentifier::BoxedFirstline => "1",
        ClassIdentifier::CircledFirstline => "1",
        ClassIdentifier::Secondline => "2",
        ClassIdentifier::BoxedSecondline => "2",
        ClassIdentifier::CircledSecondline => "2",
        ClassIdentifier::Green => "G",
        ClassIdentifier::Conscript => "C",
        ClassIdentifier::BoxedConscript => "C",
        ClassIdentifier::CircledConscript => "C",
        ClassIdentifier::Paratroop => "./svg/class_para.svg",
        ClassIdentifier::Nkvd => "./svg/class_nkvd.svg",
        ClassIdentifier::Marines => "./svg/class_marines.svg",
        ClassIdentifier::BoxedMarines => "./svg/class_marines.svg",
        ClassIdentifier::CircledMarines => "./svg/class_marines.svg",
        ClassIdentifier::ParaMarines => "./svg/class_marines.svg",
        ClassIdentifier::Pegasus => "./svg/class_pegasus.svg",
        ClassIdentifier::BoxedPegasus => "./svg/class_pegasus.svg",
        ClassIdentifier::FirstAirborne => "./svg/class_first_airborne.svg",
        ClassIdentifier::BoxedFirstAirborne => "./svg/class_first_airborne",
        ClassIdentifier::RoyalMarines => "./svg/class_royal_marines.svg",
        ClassIdentifier::KoreanMarines => "./svg/class_sk_marines.svg",
        ClassIdentifier::Fn16 => "16",
        _ => "",
    };
    ClassBadge { frame: class_frame(class), sign: class_sign(class), content: content.to_owned() }
}

/// What stands beside the badge.
#[derive(PartialEq, Eq, Structural, Clone, Copy, Debug)]
pub enum ClassEmblem {
    Unmarked,
    CrossOfLorraine,
    DemolitionCharge,
}

/// The emblem beside the badge: the cross of Lorraine for the nationality
/// `ff`, which goes before the demolition charge of an assault engineer.
pub open spec fn emblem_of(nationality: Seq<char>, assault_engineer: bool) -> ClassEmblem {
    if nationality == "ff"@ {
        ClassEmblem::CrossOfLorraine
    } else if assault_engineer {
        ClassEmblem::DemolitionCharge
    } else {
        ClassEmblem::Unmarked
    }
}

/// The emblem beside the badge.
pub fn class_emblem(nationality: &str, assault_engineer: bool) -> (r: ClassEmblem)
    ensures
        r == emblem_of(nationality@, assault_engineer),
{
    if same_chars(&to_chars(nationality), &to_chars("ff")) {
        ClassEmblem::CrossOfLorraine
    } else if assault_engineer {
        ClassEmblem::DemolitionCharge
    } else {
        ClassEmblem::Unmarked
    }
}


/// The count that `s` names: the whole number where it names one that is
/// not negative, zero otherwise.
pub open spec fn count_of(s: Seq<char>) -> int {
    match integer_value(s) {
        Some(v) => if v >= 0 {
            v
        } else {
            0
        },
        None => 0,
    }
}

/// The count that `s` names.
pub fn parse_count(s: &Vec<char>) -> (r: usize)
    ensures
        r == count_of(s@),
{
    let v = parse_integer(s);
    if v >= 0 {
        v as usize
    } else {
        0
    }
}

/// The morale of a unit and its morale when broken: the two counts around
/// the slash, or the one count twice where there is no slash.
pub open spec fn morale_of(morale: Seq<char>) -> (int, int) {
    match split_once_at(morale, "/"@) {
        Some((left, right)) => (count_of(left), count_of(right)),
        None => (count_of(morale), count_of(morale)),
    }
}

/// Reads the morale of a row.
pub fn sanitize_morale(morale: &str) -> (r: (usize, usize))
    ensures
        (r.0 as int, r.1 as int) == morale_of(morale@),
{
    let m = to_chars(morale);
    match split_once_text(&m, &to_chars("/")) {
        Some((left, right)) => (parse_count(&left), parse_count(&right)),
        None => {
            let v = parse_count(&m);
            (v, v)
        },
    }
}

} // verus!
