//! How a piece moves: the movement points, movement type and ground
//! pressure of a vehicle, and the manhandling number of a gun.

use vstd::prelude::*;
use crate::colors::{Colors, ColorsView, BLACK, RED};
use crate::metrics::{integer_or_zero, parse_integer};
use crate::overrides::{DirectiveError, Overrides, OverridesView};
use crate::pattern::{regex_capture, regex_captured, view_of};
use crate::scan::{
    contains_char, contains_text, cut_before, extend_chars, replace_text, same_chars,
    split_once_text, to_chars, to_text,
};
use crate::tags::{dagger_rule, TaggedText, TaggedTextView};
use crate::text::{before_first, occurs_in, replaced, split_once_at};
use crate::text_field::{
    table_in_range, table_view, FontsView, Note, NoteAction, NoteView, TextField, TextFieldTraits,
    TextFieldView, BLACK_ASTERISK_SVG, BLACK_ASTERISK_TAG, COPY_FIELD, DAGGER,
    FIVE_LOBED_ASTERISK_TAG, FIVE_LOBED_ASTERISK_UC, LEAVE_ASTERISK_TAGS, NO_FONTS,
    SIX_LOBED_ASTERISK_TAG, WHITE_ASTERISK_SVG, WHITE_ASTERISK_TAG,
};
use crate::utils::{
    drop_first, extract_string, strip_bold_span, strip_html_italics, strip_superscript,
    superscript_removed, text_between, unbolded, without_first, ITALICS_PATTERN,
    SUPERSCRIPT_PATTERN,
};

verus! {

pub const GP_FONT_SIZE: i64 = 600;

pub const GP_FONT_SIZE_STR: &'static str = "6.0";

pub const GP_SIX_LOBED_ASTERISK_SVG: &'static str =
    "<tspan style=\"font-family:Nimbus Sans L;font-weight:bold;font-size:6.0px\">&#x273D;</tspan>";

/// Metrics of the movement points.
pub const MP_FONTS: [[i64; 4]; 8] = [
    [1100, 500, 9600, 800],
    [1100, 500, 7200, 1100],
    [1100, 500, 9600, 1100],
    [1100, 500, 7700, 1400],
    [800, 400, 9600, 600],
    [800, 400, 7200, 800],
    [800, 400, 9600, 800],
    [800, 400, 7700, 900],
];

/// Marks the movement points of a truck.
pub const TRUCK_MOVEMENT_TYPE_SUPERSCRIPT: &'static str = "<sup>t</sup>";

/// Marks the movement points of an amphibious truck.
pub const TRUCK_MOVEMENT_TYPE_SUPERSCRIPT_AMPHIBIOUS_2: &'static str = "<sup>2t</sup>";

/// Marks the movement points of an amphibious truck.
pub const TRUCK_MOVEMENT_TYPE_SUPERSCRIPT_AMPHIBIOUS_3: &'static str = "<sup>3t</sup>";

pub const SIX_LOBED_ASTERISK_MP_FONT_SIZE: i64 = 600;

pub const SIX_LOBED_ASTERISK_MP_FONT_SIZE_STR: &'static str = "6.0";

pub const SIX_LOBED_BLACK_ASTERISK_MP_SVG: &'static str =
    "<tspan style=\"font-family:Nimbus Sans L;font-weight:bold;font-size:6.0px;fill:black\" baseline-shift=\"super\">&#x273D;</tspan>";

/// The movement points at the start of a text.
pub const MOVEMENT_POINTS_PATTERN: &'static str = "(?<keep>[0-9][0-9]*)(.*)";

/// The manhandling number of a gun that cannot be moved.
pub const MANHANDLING_IMMOBLE: &'static str = "–†";

/// Metrics of the manhandling number.
pub const MH_NUMBER_FONTS: [[i64; 4]; 8] = [
    [840, 480, 590, 630],
    [0, 0, 0, 0],
    [0, 0, 0, 0],
    [0, 0, 0, 0],
    [0, 0, 0, 0],
    [0, 0, 0, 0],
    [0, 0, 0, 0],
    [0, 0, 0, 0],
];

/// Metrics of the mark of a manhandling number.
pub const MH_NOTE_FONTS: [[i64; 4]; 8] = [
    [1080, 770, 760, 850],
    [0, 0, 0, 0],
    [0, 0, 0, 0],
    [0, 0, 0, 0],
    [0, 0, 0, 0],
    [0, 0, 0, 0],
    [0, 0, 0, 0],
    [0, 0, 0, 0],
];

/// Metrics of the letter before a manhandling number.
pub const MH_M_FONTS: [[i64; 4]; 8] = [
    [840, 480, 590, 630],
    [0, 0, 0, 0],
    [0, 0, 0, 0],
    [0, 0, 0, 0],
    [0, 0, 0, 0],
    [0, 0, 0, 0],
    [0, 0, 0, 0],
    [0, 0, 0, 0],
];

pub const MH_NOTE_FONT_SIZE: i64 = 1080;

pub const MH_M_FONT_SIZE: i64 = 840;

/// A text with its mark in place: a mark to delete leaves the text once,
/// a prefix goes before the text and a postfix behind it.
pub open spec fn with_note(source: Seq<char>, note: NoteView) -> Seq<char> {
    let kept = if note.action == NoteAction::Delete && occurs_in(note.text, source) {
        without_first(source, note.text)
    } else {
        source
    };
    (if note.action == NoteAction::Prefix {
        note.text
    } else {
        Seq::empty()
    }) + kept + (if note.action == NoteAction::Postfix {
        note.text
    } else {
        Seq::empty()
    })
}

pub fn generate_note_actions(source: &String, note: &Note) -> (result: String)
    ensures
        result@ == with_note(source@, note@),
{
    let s = to_chars(source.as_str());
    let n = to_chars(note.text.as_str());
    let kept = match note.action {
        NoteAction::Delete => {
            if contains_text(&s, &n) {
                drop_first(&s, &n)
            } else {
                s
            }
        },
        _ => s,
    };
    let mut result: Vec<char> = Vec::new();
    match note.action {
        NoteAction::Prefix => {
            extend_chars(&mut result, &n);
        },
        _ => {},
    }
    extend_chars(&mut result, &kept);
    match note.action {
        NoteAction::Postfix => {
            extend_chars(&mut result, &n);
        },
        _ => {},
    }
    assert(result@ =~= with_note(source@, note@));
    to_text(&result)
}

/// How a vehicle moves.
#[derive(PartialEq, Eq, Structural, Clone, Copy, Debug)]
pub enum MovementType {
    FullyTracked,
    HalfTracked,
    ArmoredCar,
    Truck,
    Skis,
    Motorcycle,
    Nimbus,
    /// No movement type is drawn.
    Unspecified,
}

impl Default for MovementType {
    fn default() -> (r: Self)
        ensures
            r == MovementType::Unspecified,
    {
        MovementType::Unspecified
    }
}

impl MovementType {
    /// The name of the movement type.
    pub fn name(&self) -> (r: String)
        ensures
            r@ == match *self {
                MovementType::FullyTracked => "FullyTracked"@,
                MovementType::HalfTracked => "HalfTracked"@,
                MovementType::ArmoredCar => "ArmoredCar"@,
                MovementType::Truck => "Truck"@,
                MovementType::Skis => "Skis"@,
                MovementType::Motorcycle => "Motorcycle"@,
                MovementType::Nimbus => "Nimbus"@,
                MovementType::Unspecified => "None"@,
            },
    {
        match self {
            MovementType::FullyTracked => "FullyTracked".to_string(),
            MovementType::HalfTracked => "HalfTracked".to_string(),
            MovementType::ArmoredCar => "ArmoredCar".to_string(),
            MovementType::Truck => "Truck".to_string(),
            MovementType::Skis => "Skis".to_string(),
            MovementType::Motorcycle => "Motorcycle".to_string(),
            MovementType::Nimbus => "Nimbus".to_string(),
            MovementType::Unspecified => "None".to_string(),
        }
    }
}

/// How heavily a vehicle weighs on the ground.
#[derive(PartialEq, Eq, Structural, Clone, Copy, Debug)]
pub enum GroundPressure {
    Low,
    Normal,
    High,
}

impl Default for GroundPressure {
    fn default() -> (r: Self)
        ensures
            r == GroundPressure::Normal,
    {
        GroundPressure::Normal
    }
}

/// `t` is one of the texts `names`.
pub open spec fn one_of(t: Seq<char>, names: Seq<Seq<char>>) -> bool {
    exists|i: int| 0 <= i < names.len() && names[i] == t
}

/// The vehicle types that are fully tracked.
pub open spec fn tracked_names() -> Seq<Seq<char>> {
    seq![
        "AAMT"@,
        "AATt"@,
        "AG"@,
        "AG/TD"@,
        "APC"@,
        "APCv"@,
        "HT"@,
        "HTt"@,
        "HTv"@,
        "LT"@,
        "LTv"@,
        "MT"@,
        "MTv"@,
        "PC"@,
        "SPA"@,
        "SPAA"@,
        "TD"@,
        "TDv"@,
        "Tt"@,
        "Ttv"@,
        "aAPC"@,
        "aLT"@,
        "aMT"@,
        "aPC"@,
        "aTt"@,
        "TD/AA"@,
    ]
}

/// The vehicle types that are half-tracked.
pub open spec fn half_tracked_names() -> Seq<Seq<char>> {
    seq!["AAht"@, "SPAht"@, "TDht"@, "ht"@, "htMC"@]
}

/// The vehicle types that are armoured cars.
pub open spec fn armored_car_names() -> Seq<Seq<char>> {
    seq!["AAAC"@, "AC"@, "AC/TD"@]
}

/// The vehicle types that are trucks.
pub open spec fn truck_names() -> Seq<Seq<char>> {
    seq!["SC"@, "TDtr"@, "tr"@, "atr"@]
}

/// The movement type of a vehicle type: the first of the fully tracked,
/// half-tracked, armoured-car and truck types, skis, the motorcycle and its
/// armed relative that the type is; none otherwise.
pub open spec fn movement_type_of(t: Seq<char>) -> MovementType {
    if one_of(t, tracked_names()) {
        MovementType::FullyTracked
    } else if one_of(t, half_tracked_names()) {
        MovementType::HalfTracked
    } else if one_of(t, armored_car_names()) {
        MovementType::ArmoredCar
    } else if one_of(t, truck_names()) {
        MovementType::Truck
    } else if t == "AS"@ {
        MovementType::Skis
    } else if t == "mc"@ {
        MovementType::Motorcycle
    } else if t == "TDmc"@ {
        MovementType::Nimbus
    } else {
        MovementType::Unspecified
    }
}

/// Whether `t` is one of the texts `names`.
fn is_one_of(t: &Vec<char>, names: &Vec<&'static str>) -> (r: bool)
    ensures
        r == one_of(t@, names@.map_values(|n: &'static str| n@)),
{
    let ghost all = names@.map_values(|n: &'static str| n@);
    let mut i: usize = 0;
    while i < names.len()
        invariant
            i <= names.len(),
            all == names@.map_values(|n: &'static str| n@),
            forall|k: int| 0 <= k < i ==> all[k] != t@,
        decreases names.len() - i,
    {
        if same_chars(t, &to_chars(names[i])) {
            assert(all[i as int] == t@);
            return true;
        }
        i = i + 1;
    }
    false
}

/// The movement type of a vehicle type.
pub fn string_to_movement_type(text: &String) -> (r: MovementType)
    ensures
        r == movement_type_of(text@),
{
    let t = to_chars(text.as_str());
    let full: Vec<&'static str> = vec![
        "AAMT",
        "AATt",
        "AG",
        "AG/TD",
        "APC",
        "APCv",
        "HT",
        "HTt",
        "HTv",
        "LT",
        "LTv",
        "MT",
        "MTv",
        "PC",
        "SPA",
        "SPAA",
        "TD",
        "TDv",
        "Tt",
        "Ttv",
        "aAPC",
        "aLT",
        "aMT",
        "aPC",
        "aTt",
        "TD/AA",
    ];
    let half: Vec<&'static str> = vec!["AAht", "SPAht", "TDht", "ht", "htMC"];
    let cars: Vec<&'static str> = vec!["AAAC", "AC", "AC/TD"];
    let trucks: Vec<&'static str> = vec!["SC", "TDtr", "tr", "atr"];
    assert(full@.map_values(|n: &'static str| n@) =~= tracked_names());
    assert(half@.map_values(|n: &'static str| n@) =~= half_tracked_names());
    assert(cars@.map_values(|n: &'static str| n@) =~= armored_car_names());
    assert(trucks@.map_values(|n: &'static str| n@) =~= truck_names());
    if is_one_of(&t, &full) {
        MovementType::FullyTracked
    } else if is_one_of(&t, &half) {
        MovementType::HalfTracked
    } else if is_one_of(&t, &cars) {
        MovementType::ArmoredCar
    } else if is_one_of(&t, &trucks) {
        MovementType::Truck
    } else if same_chars(&t, &to_chars("AS")) {
        MovementType::Skis
    } else if same_chars(&t, &to_chars("mc")) {
        MovementType::Motorcycle
    } else if same_chars(&t, &to_chars("TDmc")) {
        MovementType::Nimbus
    } else {
        MovementType::Unspecified
    }
}

/// The movement points hold the mark of a truck.
pub open spec fn marked_as_truck(mps: Seq<char>) -> bool {
    occurs_in(TRUCK_MOVEMENT_TYPE_SUPERSCRIPT@, mps) || occurs_in(
        TRUCK_MOVEMENT_TYPE_SUPERSCRIPT_AMPHIBIOUS_2@,
        mps,
    ) || occurs_in(TRUCK_MOVEMENT_TYPE_SUPERSCRIPT_AMPHIBIOUS_3@, mps)
}

/// The vehicle type that decides how a vehicle moves, given the type that
/// stands in italics in its name (`italic`): the override where there is
/// one; a truck where the movement points are marked so; the italic type
/// where the name holds italics, and no answer where none was found there;
/// else the name.
pub open spec fn vehicle_type(
    name: Seq<char>,
    mps: Seq<char>,
    type_override: Seq<char>,
    italic: Option<Seq<char>>,
) -> Option<Seq<char>> {
    if type_override.len() > 0 {
        Some(type_override)
    } else if marked_as_truck(mps) {
        Some("tr"@)
    } else if occurs_in("<i>"@, name) {
        italic
    } else {
        Some(name)
    }
}

/// The vehicle type that decides how a vehicle moves.
pub fn find_vehicle_type(
    name: &String,
    mps: &String,
    type_override: &String,
    italic: Option<String>,
) -> (r: Option<String>)
    ensures
        view_of(r) == vehicle_type(name@, mps@, type_override@, view_of(italic)),
{
    let m = to_chars(mps.as_str());
    if !type_override.as_str().is_empty() {
        Some(type_override.clone())
    } else if contains_text(&m, &to_chars(TRUCK_MOVEMENT_TYPE_SUPERSCRIPT)) || contains_text(
        &m,
        &to_chars(TRUCK_MOVEMENT_TYPE_SUPERSCRIPT_AMPHIBIOUS_2),
    ) || contains_text(&m, &to_chars(TRUCK_MOVEMENT_TYPE_SUPERSCRIPT_AMPHIBIOUS_3)) {
        Some("tr".to_string())
    } else if contains_text(&to_chars(name.as_str()), &to_chars("<i>")) {
        italic
    } else {
        Some(name.clone())
    }
}

/// The movement points as they are drawn, before the movement type has its
/// say: the override where there is one, with the row's points for the
/// copy-field sentinel and cut before its first dagger; the asterisk tags
/// turned into their glyphs.
pub open spec fn points_markup(mps: Seq<char>, points_override: Seq<char>) -> Seq<char> {
    let chosen = if points_override.len() > 0 {
        before_first(replaced(points_override, COPY_FIELD@, mps), seq![DAGGER])
    } else {
        mps
    };
    let glyphs = replaced(
        replaced(chosen, FIVE_LOBED_ASTERISK_TAG@, FIVE_LOBED_ASTERISK_UC@),
        SIX_LOBED_ASTERISK_TAG@,
        SIX_LOBED_BLACK_ASTERISK_MP_SVG@,
    );
    if occurs_in(BLACK_ASTERISK_TAG@, glyphs) {
        replaced(glyphs, BLACK_ASTERISK_TAG@, BLACK_ASTERISK_SVG@)
    } else {
        replaced(glyphs, WHITE_ASTERISK_TAG@, WHITE_ASTERISK_SVG@)
    }
}

/// The movement points as they are drawn, before the movement type has its
/// say.
pub fn make_points_markup(mps: &String, points_override: &String) -> (r: Vec<char>)
    ensures
        r@ == points_markup(mps@, points_override@),
{
    let chosen = if !points_override.as_str().is_empty() {
        let mut dagger: Vec<char> = Vec::new();
        dagger.push(DAGGER);
        assert(dagger@ =~= seq![DAGGER]);
        cut_before(
            &replace_text(
                &to_chars(points_override.as_str()),
                &to_chars(COPY_FIELD),
                &to_chars(mps.as_str()),
            ),
            &dagger,
        )
    } else {
        to_chars(mps.as_str())
    };
    let five = replace_text(
        &chosen,
        &to_chars(FIVE_LOBED_ASTERISK_TAG),
        &to_chars(FIVE_LOBED_ASTERISK_UC),
    );
    let glyphs = replace_text(
        &five,
        &to_chars(SIX_LOBED_ASTERISK_TAG),
        &to_chars(SIX_LOBED_BLACK_ASTERISK_MP_SVG),
    );
    if contains_text(&glyphs, &to_chars(BLACK_ASTERISK_TAG)) {
        replace_text(&glyphs, &to_chars(BLACK_ASTERISK_TAG), &to_chars(BLACK_ASTERISK_SVG))
    } else {
        replace_text(&glyphs, &to_chars(WHITE_ASTERISK_TAG), &to_chars(WHITE_ASTERISK_SVG))
    }
}

/// The mark that a dagger in the movement points stands for: a black
/// asterisk before the points.
pub open spec fn points_mark() -> NoteView {
    NoteView { action: NoteAction::Prefix, text: BLACK_ASTERISK_SVG@ }
}

/// The movement points once the movement type has its say, given the digits
/// that the text starts with (`digits`): on skis those digits, and no
/// answer where there are none; otherwise the dagger rule runs.
pub open spec fn points_settled(
    m: TaggedTextView,
    mt: MovementType,
    digits: Option<Seq<char>>,
) -> Option<TaggedTextView> {
    if mt == MovementType::Skis {
        match digits {
            Some(d) => Some(TaggedTextView { text: d, note: m.note }),
            None => None,
        }
    } else {
        Some(dagger_rule(m, points_mark()))
    }
}

/// Settles the movement points once the movement type is known.
pub fn settle_points(text: String, note: Note, mt: MovementType, digits: Option<String>) -> (r:
    Option<TaggedText>)
    ensures
        match r {
            Some(s) => points_settled(
                TaggedTextView { text: text@, note: note@ },
                mt,
                view_of(digits),
            ) == Some(s@),
            None => points_settled(
                TaggedTextView { text: text@, note: note@ },
                mt,
                view_of(digits),
            ) is None,
        },
{
    match mt {
        MovementType::Skis => match digits {
            Some(d) => Some(TaggedText { text: d, note: note }),
            None => None,
        },
        _ => {
            let mut m = TaggedText { text: text, note: note };
            m.apply_dagger_rule(&Note::new(NoteAction::Prefix, BLACK_ASTERISK_SVG));
            Some(m)
        },
    }
}

/// The movement points without the mark of a truck, given what stands
/// around their superscript (`stripped`): where the points hold the plain
/// mark, what stands around it, and no answer where that was not found;
/// the mark of an amphibious truck keeps its number.
pub open spec fn truck_mark_dropped(text: Seq<char>, stripped: Option<Seq<char>>) -> Option<
    Seq<char>,
> {
    let plain = if occurs_in(TRUCK_MOVEMENT_TYPE_SUPERSCRIPT@, text) {
        stripped
    } else {
        Some(text)
    };
    match plain {
        Some(t) => if occurs_in(TRUCK_MOVEMENT_TYPE_SUPERSCRIPT_AMPHIBIOUS_2@, t) || occurs_in(
            TRUCK_MOVEMENT_TYPE_SUPERSCRIPT_AMPHIBIOUS_3@,
            t,
        ) {
            Some(replaced(t, "t</sup>"@, "</sup>"@))
        } else {
            Some(t)
        },
        None => None,
    }
}

/// Takes the mark of a truck out of the movement points.
pub fn drop_truck_mark(text: &String, stripped: Option<String>) -> (r: Option<String>)
    ensures
        view_of(r) == truck_mark_dropped(text@, view_of(stripped)),
{
    let plain = if contains_text(
        &to_chars(text.as_str()),
        &to_chars(TRUCK_MOVEMENT_TYPE_SUPERSCRIPT),
    ) {
        stripped
    } else {
        Some(text.clone())
    };
    match plain {
        Some(t) => {
            let c = to_chars(t.as_str());
            if contains_text(&c, &to_chars(TRUCK_MOVEMENT_TYPE_SUPERSCRIPT_AMPHIBIOUS_2))
                || contains_text(&c, &to_chars(TRUCK_MOVEMENT_TYPE_SUPERSCRIPT_AMPHIBIOUS_3)) {
                Some(to_text(&replace_text(&c, &to_chars("t</sup>"), &to_chars("</sup>"))))
            } else {
                Some(t)
            }
        },
        None => None,
    }
}

/// What a `VehicleMovementValues` holds.
pub struct VehicleMovementValuesView {
    pub points: TextFieldView,
    pub mt: MovementType,
    pub mt_color: Seq<char>,
    pub gp: GroundPressure,
    pub gp_note: NoteView,
    pub gp_color: Seq<char>,
    pub rfnm: bool,
}

/// How a vehicle moves, ready to be drawn.
#[derive(Debug)]
pub struct VehicleMovementValues {
    pub points: TextField,
    pub mt: MovementType,
    pub mt_color: String,
    pub gp: GroundPressure,
    pub gp_note: Note,
    pub gp_color: String,
    pub rfnm: bool,
}

impl View for VehicleMovementValues {
    type V = VehicleMovementValuesView;

    open spec fn view(&self) -> VehicleMovementValuesView {
        VehicleMovementValuesView {
            points: self.points@,
            mt: self.mt,
            mt_color: self.mt_color@,
            gp: self.gp,
            gp_note: self.gp_note@,
            gp_color: self.gp_color@,
            rfnm: self.rfnm,
        }
    }
}

impl VehicleMovementValuesView {
    /// What a new `VehicleMovementValues` holds.
    pub open spec fn blank() -> VehicleMovementValuesView {
        VehicleMovementValuesView {
            points: TextFieldView::blank(NO_FONTS),
            mt: MovementType::Unspecified,
            mt_color: Seq::empty(),
            gp: GroundPressure::Normal,
            gp_note: NoteView::unset(),
            gp_color: Seq::empty(),
            rfnm: false,
        }
    }
}

impl Default for VehicleMovementValues {
    fn default() -> (r: Self)
        ensures
            r@ == VehicleMovementValuesView::blank(),
    {
        VehicleMovementValues {
            points: TextField::default(),
            mt: MovementType::Unspecified,
            mt_color: String::new(),
            gp: GroundPressure::Normal,
            gp_note: Note::default(),
            gp_color: String::new(),
            rfnm: false,
        }
    }
}

/// The first part of reading how a vehicle moves, with its movement type
/// `mt` known: type and ground pressure with their colours, and the
/// movement points as far as they do not depend on the type. A bold span
/// turns the points red and puts them behind the text that the field holds.
pub open spec fn movement_opened(
    before: VehicleMovementValuesView,
    mps: Seq<char>,
    gp: Seq<char>,
    overrides: OverridesView,
    open_topped: bool,
    colors: ColorsView,
    mt: MovementType,
) -> VehicleMovementValuesView {
    let pressure = if overrides.ground_pressure.len() > 0 {
        overrides.ground_pressure
    } else {
        gp
    };
    let markup = points_markup(mps, overrides.mp);
    VehicleMovementValuesView {
        points: TextFieldView {
            text: if occurs_in("<b>"@, markup) {
                before.points.text + unbolded(markup)
            } else {
                markup
            },
            color: if occurs_in("<b>"@, markup) {
                RED@
            } else {
                colors.movement_points_text
            },
            fonts: FontsView { selected_font: 0, fonts: table_view(MP_FONTS) },
            ..before.points
        },
        mt: mt,
        mt_color: if open_topped {
            colors.movement_type_open_topped
        } else {
            colors.movement_type
        },
        gp: if pressure.contains('H') {
            GroundPressure::High
        } else if pressure.contains('L') {
            GroundPressure::Low
        } else {
            before.gp
        },
        gp_note: if pressure.contains(DAGGER) {
            NoteView { action: NoteAction::Postfix, text: GP_SIX_LOBED_ASTERISK_SVG@ }
        } else {
            before.gp_note
        },
        gp_color: colors.text,
        rfnm: overrides.rfnm,
    }
}

/// The text that the movement of a vehicle cannot be read from, where it
/// cannot: the name that gives no vehicle type, else the movement points.
pub open spec fn movement_subject(
    name: Seq<char>,
    mps: Seq<char>,
    overrides: OverridesView,
) -> Seq<char> {
    if vehicle_type(
        name,
        mps,
        overrides.movement_type,
        regex_captured(ITALICS_PATTERN@, name, "keep"@),
    ) is None {
        name
    } else {
        mps
    }
}

/// What `sanitize` makes of the movement of a vehicle; no answer where the
/// pattern engine does not find what a step calls for.
pub open spec fn movement_sanitized(
    before: VehicleMovementValuesView,
    name: Seq<char>,
    mps: Seq<char>,
    gp: Seq<char>,
    overrides: OverridesView,
    open_topped: bool,
    colors: ColorsView,
) -> Option<VehicleMovementValuesView> {
    match vehicle_type(
        name,
        mps,
        overrides.movement_type,
        regex_captured(ITALICS_PATTERN@, name, "keep"@),
    ) {
        Some(t) => {
            let opened = movement_opened(
                before,
                mps,
                gp,
                overrides,
                open_topped,
                colors,
                movement_type_of(t),
            );
            match points_settled(
                TaggedTextView { text: opened.points.text, note: opened.points.note },
                opened.mt,
                regex_captured(MOVEMENT_POINTS_PATTERN@, opened.points.text, "keep"@),
            ) {
                Some(settled) => match truck_mark_dropped(
                    settled.text,
                    superscript_removed(
                        settled.text,
                        regex_captured(SUPERSCRIPT_PATTERN@, settled.text, "keep1"@),
                        regex_captured(SUPERSCRIPT_PATTERN@, settled.text, "keep2"@),
                    ),
                ) {
                    Some(text) => Some(
                        VehicleMovementValuesView {
                            points: TextFieldView { text: text, note: settled.note, ..opened.points },
                            ..opened
                        },
                    ),
                    None => None,
                },
                None => None,
            }
        },
        None => None,
    }
}

/// The digits that a text starts with, where it starts with any.
pub fn extract_movement_points(original: &String) -> (r: Option<String>)
    ensures
        view_of(r) == regex_captured(MOVEMENT_POINTS_PATTERN@, original@, "keep"@),
{
    regex_capture(MOVEMENT_POINTS_PATTERN, original.as_str(), "keep")
}

impl VehicleMovementValues {
    /// The first part of `sanitize`, with the movement type known.
    pub fn begin(
        &mut self,
        mps: &String,
        gp: &String,
        overrides: &Overrides,
        open_topped: bool,
        colors: &Colors,
        mt: MovementType,
    )
        ensures
            final(self)@ == movement_opened(
                old(self)@,
                mps@,
                gp@,
                overrides@,
                open_topped,
                colors@,
                mt,
            ),
            final(self).points.fonts.well_formed(),
    {
        self.mt = mt;
        if open_topped {
            self.mt_color = colors.movement_type_open_topped.clone();
        } else {
            self.mt_color = colors.movement_type.clone();
        }
        let pressure = if !overrides.ground_pressure.as_str().is_empty() {
            to_chars(overrides.ground_pressure.as_str())
        } else {
            to_chars(gp.as_str())
        };
        if contains_char(&pressure, 'H') {
            self.gp = GroundPressure::High;
        } else if contains_char(&pressure, 'L') {
            self.gp = GroundPressure::Low;
        }
        if contains_char(&pressure, DAGGER) {
            self.gp_note = Note::new(NoteAction::Postfix, GP_SIX_LOBED_ASTERISK_SVG);
        }
        self.gp_color = colors.text.clone();
        let markup = make_points_markup(mps, &overrides.mp);
        assert(table_in_range(MP_FONTS));
        self.points.fonts.initialize(MP_FONTS);
        if contains_text(&markup, &to_chars("<b>")) {
            self.points.color = RED.to_owned();
            let mut text = to_chars(self.points.text.as_str());
            let plain = strip_bold_span(to_text(&markup).as_str());
            extend_chars(&mut text, &to_chars(plain.as_str()));
            self.points.text = to_text(&text);
        } else {
            self.points.color = colors.movement_points_text.clone();
            self.points.text = to_text(&markup);
        }
        self.rfnm = overrides.rfnm;
    }

    /// Reads how a vehicle moves. Where the pattern engine does not find
    /// what a step calls for, the reading ends with an error and nothing is
    /// changed.
    pub fn sanitize(
        &mut self,
        name: &String,
        mps: &String,
        gp: &String,
        overrides: &Overrides,
        open_topped: bool,
        colors: &Colors,
    ) -> (r: Result<(), DirectiveError>)
        ensures
            match movement_sanitized(
                old(self)@,
                name@,
                mps@,
                gp@,
                overrides@,
                open_topped,
                colors@,
            ) {
                Some(v) => r is Ok && final(self)@ == v,
                None => r matches Err(DirectiveError::PatternMismatch(t)) && t@
                    == movement_subject(name@, mps@, overrides@) && final(self)@ == old(self)@,
            },
    {
        let italic = strip_html_italics(name);
        let kind = match find_vehicle_type(name, mps, &overrides.movement_type, italic) {
            Some(t) => t,
            None => {
                return Err(DirectiveError::PatternMismatch(name.clone()));
            },
        };
        let mut next = VehicleMovementValues {
            points: self.points.clone(),
            mt: self.mt,
            mt_color: self.mt_color.clone(),
            gp: self.gp,
            gp_note: self.gp_note.clone(),
            gp_color: self.gp_color.clone(),
            rfnm: self.rfnm,
        };
        assert(next@ == old(self)@);
        next.begin(mps, gp, overrides, open_topped, colors, string_to_movement_type(&kind));
        let digits = extract_movement_points(&next.points.text);
        let settled = match settle_points(
            next.points.text.clone(),
            next.points.note.clone(),
            next.mt,
            digits,
        ) {
            Some(s) => s,
            None => {
                return Err(DirectiveError::PatternMismatch(mps.clone()));
            },
        };
        let stripped = strip_superscript(&settled.text);
        let text = match drop_truck_mark(&settled.text, stripped) {
            Some(t) => t,
            None => {
                return Err(DirectiveError::PatternMismatch(mps.clone()));
            },
        };
        next.points.text = text;
        next.points.note = settled.note;
        *self = next;
        Ok(())
    }
}

/// What an `OrdnanceMovementValues` holds.
pub struct OrdnanceMovementValuesView {
    pub manhandling_number: TextFieldView,
    pub color: Seq<char>,
    pub target_size: int,
    pub unhooking_penalty: bool,
    pub unhooking_penalty_color: Seq<char>,
}

/// How a gun is moved by hand, ready to be drawn.
#[derive(Debug)]
pub struct OrdnanceMovementValues {
    pub manhandling_number: TextField,
    pub color: String,
    pub target_size: i64,
    pub unhooking_penalty: bool,
    pub unhooking_penalty_color: String,
}

impl View for OrdnanceMovementValues {
    type V = OrdnanceMovementValuesView;

    open spec fn view(&self) -> OrdnanceMovementValuesView {
        OrdnanceMovementValuesView {
            manhandling_number: self.manhandling_number@,
            color: self.color@,
            target_size: self.target_size as int,
            unhooking_penalty: self.unhooking_penalty,
            unhooking_penalty_color: self.unhooking_penalty_color@,
        }
    }
}

impl OrdnanceMovementValuesView {
    /// What a new `OrdnanceMovementValues` holds.
    pub open spec fn blank() -> OrdnanceMovementValuesView {
        OrdnanceMovementValuesView {
            manhandling_number: TextFieldView::blank(NO_FONTS),
            color: Seq::empty(),
            target_size: 0,
            unhooking_penalty: false,
            unhooking_penalty_color: Seq::empty(),
        }
    }
}

impl Default for OrdnanceMovementValues {
    fn default() -> (r: Self)
        ensures
            r@ == OrdnanceMovementValuesView::blank(),
    {
        OrdnanceMovementValues {
            manhandling_number: TextField::default(),
            color: String::new(),
            target_size: 0,
            unhooking_penalty: false,
            unhooking_penalty_color: String::new(),
        }
    }
}

/// The mark of a manhandling number: a five-lobed asterisk that the
/// drawing code places.
pub open spec fn manhandling_mark() -> NoteView {
    NoteView { action: NoteAction::Infix, text: FIVE_LOBED_ASTERISK_UC@ }
}

/// The colour of a manhandling number by the size of its target: black for
/// a small target, the fill colour for a normal one, red for a large one.
pub open spec fn manhandling_color(size: int, colors: ColorsView) -> Seq<char> {
    if 0 < size {
        BLACK@
    } else if size == 0 {
        colors.manhandling_fill
    } else {
        RED@
    }
}

/// The colour of an unhooking penalty by the size of its target: red for a
/// large target.
pub open spec fn penalty_color(size: int, colors: ColorsView) -> Seq<char> {
    if 0 <= size {
        colors.unhooking_penalty_color
    } else {
        RED@
    }
}

/// What `sanitize` makes of the manhandling number of a gun. The override,
/// where there is one, is applied to the row's number as its original text;
/// a five-lobed tag in what results, an `NM` in the special column and a
/// dagger each attach the mark, if none is attached yet; the tag and what
/// follows the dagger leave the text. A gun that cannot be moved shows the
/// asterisk alone. A bold span counts as an unhooking penalty, and what
/// stands in it is the number.
pub open spec fn manhandling_sanitized(
    before: OrdnanceMovementValuesView,
    manhandling: Seq<char>,
    target_size: int,
    special: Seq<char>,
    overrides: OverridesView,
    colors: ColorsView,
) -> OrdnanceMovementValuesView {
    let size = if overrides.target_size.len() > 0 {
        integer_or_zero(overrides.target_size)
    } else {
        target_size
    };
    let start = TextFieldView {
        text: manhandling,
        color: manhandling_color(size, colors),
        fonts: FontsView { selected_font: 0, fonts: table_view(MH_NUMBER_FONTS) },
        ..before.manhandling_number
    };
    let processed = if overrides.manhandling.len() > 0 {
        start.processed(overrides.manhandling, LEAVE_ASTERISK_TAGS)
    } else {
        start
    };
    let tagged = overrides.manhandling.len() > 0 && occurs_in(
        FIVE_LOBED_ASTERISK_TAG@,
        processed.text,
    );
    let untagged = if tagged {
        replaced(processed.text, FIVE_LOBED_ASTERISK_TAG@, Seq::empty())
    } else {
        processed.text
    };
    let shown = if manhandling == MANHANDLING_IMMOBLE@ {
        FIVE_LOBED_ASTERISK_UC@
    } else {
        untagged
    };
    let cut = before_first(shown, seq![DAGGER]);
    let marked = tagged || occurs_in("NM"@, special) || shown.contains(DAGGER);
    OrdnanceMovementValuesView {
        manhandling_number: TextFieldView {
            text: if occurs_in("<b>"@, cut) {
                text_between(cut, "</b>"@, "<b>"@)
            } else {
                cut
            },
            note: if marked && processed.note.action == NoteAction::Unset {
                manhandling_mark()
            } else {
                processed.note
            },
            ..processed
        },
        color: colors.manhandling_fill,
        target_size: size,
        unhooking_penalty: occurs_in("<b>"@, cut),
        unhooking_penalty_color: penalty_color(size, colors),
    }
}

impl OrdnanceMovementValues {
    pub fn sanitize(
        &mut self,
        manhandling: &String,
        target_size: i64,
        special: &String,
        overrides: &Overrides,
        colors: &Colors,
    )
        ensures
            final(self)@ == manhandling_sanitized(
                old(self)@,
                manhandling@,
                target_size as int,
                special@,
                overrides@,
                colors@,
            ),
            final(self).manhandling_number.fonts.well_formed(),
    {
        self.color = colors.manhandling_fill.clone();
        assert(table_in_range(MH_NUMBER_FONTS));
        self.manhandling_number.fonts.initialize(MH_NUMBER_FONTS);
        if !overrides.target_size.as_str().is_empty() {
            self.target_size = parse_integer(&to_chars(overrides.target_size.as_str()));
        } else {
            self.target_size = target_size;
        }
        if 0 < self.target_size {
            self.manhandling_number.color = BLACK.to_owned();
            self.unhooking_penalty_color = colors.unhooking_penalty_color.clone();
        } else if 0 == self.target_size {
            self.manhandling_number.color = colors.manhandling_fill.clone();
            self.unhooking_penalty_color = colors.unhooking_penalty_color.clone();
        } else {
            self.manhandling_number.color = RED.to_owned();
            self.unhooking_penalty_color = RED.to_owned();
        }
        self.manhandling_number.text = manhandling.clone();
        let mut marked = false;
        if !overrides.manhandling.as_str().is_empty() {
            self.manhandling_number.process_overrides(&overrides.manhandling, LEAVE_ASTERISK_TAGS);
            let t = to_chars(self.manhandling_number.text.as_str());
            if contains_text(&t, &to_chars(FIVE_LOBED_ASTERISK_TAG)) {
                marked = true;
                let empty: Vec<char> = Vec::new();
                self.manhandling_number.text = to_text(
                    &replace_text(&t, &to_chars(FIVE_LOBED_ASTERISK_TAG), &empty),
                );
            }
        }
        if same_chars(&to_chars(manhandling.as_str()), &to_chars(MANHANDLING_IMMOBLE)) {
            self.manhandling_number.text = FIVE_LOBED_ASTERISK_UC.to_owned();
        }
        if contains_text(&to_chars(special.as_str()), &to_chars("NM")) {
            marked = true;
        }
        let shown = to_chars(self.manhandling_number.text.as_str());
        if contains_char(&shown, DAGGER) {
            marked = true;
        }
        let mut dagger: Vec<char> = Vec::new();
        dagger.push(DAGGER);
        assert(dagger@ =~= seq![DAGGER]);
        let cut = to_text(&cut_before(&shown, &dagger));
        if marked {
            match self.manhandling_number.note.action {
                NoteAction::Unset => {
                    self.manhandling_number.note = Note::new(
                        NoteAction::Infix,
                        FIVE_LOBED_ASTERISK_UC,
                    );
                },
                _ => {},
            }
        }
        if contains_text(&to_chars(cut.as_str()), &to_chars("<b>")) {
            self.manhandling_number.text = extract_string(&cut, "</b>", "<b>");
            self.unhooking_penalty = true;
        } else {
            self.manhandling_number.text = cut;
            self.unhooking_penalty = false;
        }
    }

    pub fn set_font_and_color(&mut self, colors: &Colors)
        ensures
            final(self)@ == (OrdnanceMovementValuesView {
                manhandling_number: TextFieldView {
                    fonts: FontsView { selected_font: 0, fonts: table_view(MH_NUMBER_FONTS) },
                    ..old(self)@.manhandling_number
                },
                color: colors.manhandling_fill@,
                ..old(self)@
            }),
    {
        self.manhandling_number.fonts.initialize(MH_NUMBER_FONTS);
        self.color = colors.manhandling_fill.clone();
    }
}

/// What a `RepairValues` holds.
pub struct RepairValuesView {
    pub repair: TextFieldView,
    pub disable: TextFieldView,
}

/// The repair and the disablement number of a gun.
#[derive(Debug)]
pub struct RepairValues {
    pub repair: TextField,
    pub disable: TextField,
}

impl View for RepairValues {
    type V = RepairValuesView;

    open spec fn view(&self) -> RepairValuesView {
        RepairValuesView { repair: self.repair@, disable: self.disable@ }
    }
}

impl RepairValuesView {
    /// What a new `RepairValues` holds.
    pub open spec fn blank() -> RepairValuesView {
        RepairValuesView {
            repair: TextFieldView::blank(NO_FONTS),
            disable: TextFieldView::blank(NO_FONTS),
        }
    }
}

impl Default for RepairValues {
    fn default() -> (r: Self)
        ensures
            r@ == RepairValuesView::blank(),
    {
        RepairValues { repair: TextField::default(), disable: TextField::default() }
    }
}

/// The repair and the disablement number of a row: what stands before and
/// behind its first slash, or 1 and 6 where it has none.
pub open spec fn repair_numbers(source: Seq<char>) -> (Seq<char>, Seq<char>) {
    match split_once_at(source, "/"@) {
        Some((repair, disable)) => (repair, disable),
        None => ("1"@, "6"@),
    }
}

/// The two numbers of a row as fields, in the text colour.
pub open spec fn repair_values(source: Seq<char>, color: Seq<char>) -> RepairValuesView {
    RepairValuesView {
        repair: TextFieldView {
            text: repair_numbers(source).0,
            color: color,
            ..TextFieldView::blank(NO_FONTS)
        },
        disable: TextFieldView {
            text: repair_numbers(source).1,
            color: color,
            ..TextFieldView::blank(NO_FONTS)
        },
    }
}

pub fn sanitize_repair_numbers(source: &String, colors: &Colors) -> (result: RepairValues)
    ensures
        result@ == repair_values(source@, colors.text@),
{
    let mut result = RepairValues::default();
    match split_once_text(&to_chars(source.as_str()), &to_chars("/")) {
        Some((repair, disable)) => {
            result.repair.text = to_text(&repair);
            result.disable.text = to_text(&disable);
        },
        None => {
            result.repair.text = "1".to_string();
            result.disable.text = "6".to_string();
        },
    }
    result.repair.color = colors.text.clone();
    result.disable.color = colors.text.clone();
    result
}

} // verus!
