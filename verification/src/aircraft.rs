//! The fields of an aircraft counter: the metrics of its categories, and
//! how the columns of a row become fields.

use vstd::prelude::*;
use crate::armament::ROF_FONTS;
use crate::colors::{colors_of, Colors, ColorsView};
use crate::common_record::{extract_note_number, NOTE_NUMBER_PATTERN};
use crate::directive::directives_of;
use crate::machine_guns::{
    gun_directed_all, gun_start, guns_sanitized, guns_unknown, MachineGuns, MachineGunsView,
};
use crate::overrides::{
    applied_all, first_unrecognized, DirectiveError, DirectiveErrorView, Overrides, OverridesView,
    MOD_DELIMITER2, NOVR_NATIONALITY, OVERRIDE_DELIMITER,
};
use crate::pattern::{regex_captured, regex_replaced};
use crate::rows::{chosen, first_filled, row_colors};
use crate::scan::{split_once_text, to_chars, to_text};
use crate::text::split_once_at;
use crate::text_field::{
    built, decoration_of, find_decoration, table_in_range, table_view, FontsView, NoteView,
    TextField, TextFieldTraits, TextFieldView, FONT_NORMAL, NO_FONTS,
};
use crate::transport::{craft_settled, TransportValues, TransportValuesView};
use crate::utils::{
    entries_of, extract_from, note_pattern, note_settled, strip_html_italics, value_for,
    ITALICS_PATTERN,
};

verus! {

/// The metrics of the date line.
pub const DATE_FONTS: [[i64; 4]; 8] = [
    [600, 400, 8000, 660],
    [0, 0, 0, 0],
    [0, 0, 0, 0],
    [0, 0, 0, 0],
    [0, 0, 0, 0],
    [0, 0, 0, 0],
    [0, 0, 0, 0],
    [0, 0, 0, 0],
];

/// The metrics of the bomb load.
pub const ORD_FONTS: [[i64; 4]; 8] = [
    [1200, 600, 8600, 1200],
    [1200, 600, 6000, 1500],
    [1200, 600, 8000, 1500],
    [1200, 600, 6667, 1800],
    [800, 400, 6667, 900],
    [800, 400, 5455, 1100],
    [800, 400, 7273, 1100],
    [800, 400, 6154, 1300],
];

/// The metrics of the morale level.
pub const ML_FONTS: [[i64; 4]; 8] = [
    [800, 400, 9800, 600],
    [750, 400, 7300, 800],
    [800, 400, 9800, 800],
    [800, 400, 8000, 1000],
    [0, 0, 0, 0],
    [0, 0, 0, 0],
    [0, 0, 0, 0],
    [0, 0, 0, 0],
];

/// The metrics of the class of an aircraft.
pub const CLASS_FONTS: [[i64; 4]; 8] = [
    [1300, 700, 9000, 1020],
    [0, 0, 0, 0],
    [0, 0, 0, 0],
    [0, 0, 0, 0],
    [0, 0, 0, 0],
    [0, 0, 0, 0],
    [0, 0, 0, 0],
    [0, 0, 0, 0],
];

/// The metrics of the anti-aircraft value.
pub const AA_FONTS: [[i64; 4]; 8] = [
    [840, 600, 7500, 660],
    [0, 0, 0, 0],
    [0, 0, 0, 0],
    [0, 0, 0, 0],
    [0, 0, 0, 0],
    [0, 0, 0, 0],
    [0, 0, 0, 0],
    [0, 0, 0, 0],
];

/// The field of a column that has no override.
pub open spec fn plain_field(text: Seq<char>, table: [[i64; 4]; 8], color: Seq<char>) -> TextFieldView {
    built(text, Seq::empty(), table, color, NoteView::unset())
}

/// The field of a column that may be empty: a blank field where it is.
pub open spec fn filled_field(
    text: Seq<char>,
    table: [[i64; 4]; 8],
    color: Seq<char>,
) -> TextFieldView {
    if text.len() == 0 {
        TextFieldView::blank(NO_FONTS)
    } else {
        plain_field(text, table, color)
    }
}

/// Builds the field of a column that has no override.
pub fn build_plain(text: &String, table: [[i64; 4]; 8], colors: &Colors) -> (r: TextField)
    ensures
        r@ == plain_field(text@, table, colors.text@),
        r.fonts.selected_font < 4,
        table_in_range(table) ==> r.fonts.well_formed(),
{
    let nothing = String::new();
    assert(nothing@ =~= Seq::<char>::empty());
    let mut r = TextField::default();
    r.sanitize(text, &nothing, table, colors);
    r
}

/// Builds the field of a column that may be empty.
pub fn build_filled(text: &String, table: [[i64; 4]; 8], colors: &Colors) -> (r: TextField)
    ensures
        r@ == filled_field(text@, table, colors.text@),
        r.fonts.selected_font < 4,
        table_in_range(table) ==> r.fonts.well_formed(),
{
    if text.as_str().is_empty() {
        TextField::default()
    } else {
        build_plain(text, table, colors)
    }
}

/// The date line: the text as it stands, in the colour of the counter and
/// with the metrics of the date.
pub open spec fn date_field(date: Seq<char>, color: Seq<char>) -> TextFieldView {
    TextFieldView {
        text: date,
        color: color,
        fonts: FontsView { selected_font: FONT_NORMAL as int, fonts: table_view(DATE_FONTS) },
        ..TextFieldView::blank(NO_FONTS)
    }
}

/// Builds the date line.
pub fn build_date(date: &String, colors: &Colors) -> (r: TextField)
    ensures
        r@ == date_field(date@, colors.text@),
        r.fonts.well_formed(),
{
    let mut r = TextField::default();
    r.color = colors.text.clone();
    assert(table_in_range(DATE_FONTS));
    r.fonts.initialize(DATE_FONTS);
    r.text = date.clone();
    assert(r@.fonts.fonts =~~= table_view(DATE_FONTS));
    r
}

/// The class of an aircraft: the field of what stands in the italic
/// element of its name; nothing where the name has no such element.
pub open spec fn class_field(name: Seq<char>, color: Seq<char>) -> Option<TextFieldView> {
    match regex_captured(ITALICS_PATTERN@, name, "keep"@) {
        Some(class) => Some(plain_field(class, CLASS_FONTS, color)),
        None => None,
    }
}

/// The field of the class, given the class that the name holds.
pub fn build_class(class: &String, colors: &Colors) -> (r: TextField)
    ensures
        r@ == plain_field(class@, CLASS_FONTS, colors.text@),
        r.fonts.well_formed(),
{
    assert(table_in_range(CLASS_FONTS));
    build_plain(class, CLASS_FONTS, colors)
}

/// Reads the class of an aircraft from its name.
pub fn sanitize_class(name: &String, colors: &Colors) -> (r: Option<TextField>)
    ensures
        match r {
            Some(f) => class_field(name@, colors.text@) == Some(f@) && f.fonts.well_formed(),
            None => class_field(name@, colors.text@) is None,
        },
{
    match strip_html_italics(name) {
        Some(class) => Some(build_class(&class, colors)),
        None => None,
    }
}

/// The bomb load: a blank field for an empty column; else the field of the
/// column, in the variant that the decorations left in its text call for.
pub open spec fn ord_field(ord: Seq<char>, color: Seq<char>) -> TextFieldView {
    if ord.len() == 0 {
        TextFieldView::blank(NO_FONTS)
    } else {
        let f = plain_field(ord, ORD_FONTS, color);
        if decoration_of(f.text) == FONT_NORMAL {
            f
        } else {
            TextFieldView {
                fonts: FontsView { selected_font: decoration_of(f.text), ..f.fonts },
                ..f
            }
        }
    }
}

/// Builds the bomb load.
pub fn build_ord(ord: &String, colors: &Colors) -> (r: TextField)
    ensures
        r@ == ord_field(ord@, colors.text@),
        r.fonts.selected_font < 4,
{
    if ord.as_str().is_empty() {
        TextField::default()
    } else {
        let mut r = build_plain(ord, ORD_FONTS, colors);
        let d = find_decoration(&r.text);
        if d != FONT_NORMAL {
            r.fonts.selected_font = d;
        }
        r
    }
}

/// The two rates of fire of an aircraft, the aerial one and that of its
/// bombs: the column is cut at its first slash. An empty column gives two
/// blank fields, and a column without a slash, or with nothing behind it,
/// a blank second field.
pub open spec fn rof_pair(rof: Seq<char>, color: Seq<char>) -> (TextFieldView, TextFieldView) {
    if rof.len() == 0 {
        (TextFieldView::blank(NO_FONTS), TextFieldView::blank(NO_FONTS))
    } else {
        match split_once_at(rof, "/"@) {
            Some((aerial, bomb)) => (
                plain_field(aerial, ROF_FONTS, color),
                filled_field(bomb, ROF_FONTS, color),
            ),
            None => (plain_field(rof, ROF_FONTS, color), TextFieldView::blank(NO_FONTS)),
        }
    }
}

/// Builds the two rates of fire of an aircraft.
pub fn build_rof_pair(rof: &String, colors: &Colors) -> (r: (TextField, TextField))
    ensures
        (r.0@, r.1@) == rof_pair(rof@, colors.text@),
{
    if rof.as_str().is_empty() {
        (TextField::default(), TextField::default())
    } else {
        match split_once_text(&to_chars(rof.as_str()), &to_chars("/")) {
            Some((aerial, bomb)) => {
                let first = build_plain(&to_text(&aerial), ROF_FONTS, colors);
                let second = build_filled(&to_text(&bomb), ROF_FONTS, colors);
                (first, second)
            },
            None => (build_plain(rof, ROF_FONTS, colors), TextField::default()),
        }
    }
}

/// The overrides with the machine-gun column of the row in the place of a
/// machine-gun override, where the row's overrides give none.
pub open spec fn with_guns(o: OverridesView, mgs: Seq<char>) -> OverridesView {
    if o.machine_guns_set {
        o
    } else {
        OverridesView { machine_guns_set: true, machine_guns: mgs, ..o }
    }
}

/// Puts the machine-gun column of a row in the place of a machine-gun
/// override, where the overrides give none.
pub fn put_guns(overrides: &Overrides, mgs: &String) -> (r: Overrides)
    ensures
        r@ == with_guns(overrides@, mgs@),
{
    let mut r = overrides.clone();
    if !r.machine_guns_set {
        r.machine_guns_set = true;
        r.machine_guns = mgs.clone();
    }
    r
}

/// Reads the machine guns of an aircraft, which stand in one column: the
/// column is read as a machine-gun override would be, unless the row's
/// overrides hold one.
pub fn sanitize_single(
    guns: &mut MachineGuns,
    mgs: &String,
    overrides: &Overrides,
    colors: &Colors,
) -> (r: Result<(), DirectiveError>)
    ensures
        match guns_unknown(with_guns(overrides@, mgs@)) {
            None => r is Ok && final(guns)@ == guns_sanitized(
                old(guns)@,
                Seq::empty(),
                Seq::empty(),
                Seq::empty(),
                with_guns(overrides@, mgs@),
                colors.text@,
            ),
            Some(k) => r matches Err(DirectiveError::UnrecognizedDirective(t)) && t@ == entries_of(
                with_guns(overrides@, mgs@).machine_guns,
                MOD_DELIMITER2,
            )[k] && final(guns)@ == (MachineGunsView {
                field: gun_directed_all(
                    gun_start(old(guns).field@, colors.text@),
                    directives_of(
                        entries_of(with_guns(overrides@, mgs@).machine_guns, MOD_DELIMITER2),
                    ).subrange(0, k),
                ),
                ..old(guns)@
            }),
        },
{
    let read = put_guns(overrides, mgs);
    let nothing = String::new();
    assert(nothing@ =~= Seq::<char>::empty());
    guns.sanitize(&nothing, &nothing, &nothing, &read, colors)
}

/// The columns of an aircraft's row.
#[derive(Debug)]
pub struct AircraftRow {
    pub name: String,
    pub date: String,
    pub aa: String,
    pub ml: String,
    pub ord: String,
    pub ord_type: String,
    pub rof: String,
    pub mgs: String,
    pub pp: String,
    pub notes: String,
    pub version: String,
    pub piece: String,
    pub overrides: String,
    pub svg_image_transform: String,
    pub comments: String,
}

/// What an `AircraftRecord` holds.
pub struct AircraftRecordView {
    pub nationality: Seq<char>,
    pub name: Seq<char>,
    pub class: TextFieldView,
    pub date: TextFieldView,
    pub aa: TextFieldView,
    pub ml: TextFieldView,
    pub ord: TextFieldView,
    pub ord_type: Seq<char>,
    pub rof_aerial: TextFieldView,
    pub rof_bomb: TextFieldView,
    pub mgs: MachineGunsView,
    pub transport_values: TransportValuesView,
    pub note: Seq<char>,
    pub version: Seq<char>,
    pub piece: Seq<char>,
    pub overrides: OverridesView,
    pub colors: ColorsView,
    pub svg_image_transform: Seq<char>,
    pub comments: Seq<char>,
}

/// An aircraft's row, read and ready to be drawn.
#[derive(Debug)]
pub struct AircraftRecord {
    pub nationality: String,
    pub name: String,
    pub class: TextField,
    pub date: TextField,
    pub aa: TextField,
    pub ml: TextField,
    pub ord: TextField,
    pub ord_type: String,
    pub rof_aerial: TextField,
    pub rof_bomb: TextField,
    pub mgs: MachineGuns,
    pub transport_values: TransportValues,
    pub note: String,
    pub version: String,
    pub piece: String,
    pub overrides: Overrides,
    pub colors: Colors,
    pub svg_image_transform: String,
    pub comments: String,
}

impl View for AircraftRecord {
    type V = AircraftRecordView;

    open spec fn view(&self) -> AircraftRecordView {
        AircraftRecordView {
            nationality: self.nationality@,
            name: self.name@,
            class: self.class@,
            date: self.date@,
            aa: self.aa@,
            ml: self.ml@,
            ord: self.ord@,
            ord_type: self.ord_type@,
            rof_aerial: self.rof_aerial@,
            rof_bomb: self.rof_bomb@,
            mgs: self.mgs@,
            transport_values: self.transport_values@,
            note: self.note@,
            version: self.version@,
            piece: self.piece@,
            overrides: self.overrides@,
            colors: self.colors@,
            svg_image_transform: self.svg_image_transform@,
            comments: self.comments@,
        }
    }
}

/// What the override column of a row overrides.
pub open spec fn row_overrides(row: AircraftRow) -> OverridesView {
    applied_all(OverridesView::empty(), entries_of(row.overrides@, OVERRIDE_DELIMITER))
}

/// The name of a row: the one that its overrides give, else its own.
pub open spec fn row_name(row: AircraftRow) -> Seq<char> {
    chosen(row_overrides(row).name, row.name@)
}

/// The colours of a row: those of the background that its overrides name,
/// else those of the nationality that its override column names.
pub open spec fn row_palette(row: AircraftRow) -> ColorsView {
    colors_of(
        chosen(row_overrides(row).background_color, value_for(row.overrides@, NOVR_NATIONALITY@)),
    )
}

/// The passenger column of a row without its daggered notes, where they
/// can be taken out.
pub open spec fn row_passengers(row: AircraftRow) -> Option<Seq<char>> {
    note_settled(row.pp@, regex_replaced(note_pattern(row.pp@), row.pp@, Seq::empty()))
}

/// Why a row cannot be read, where it cannot; the first of: an entry of
/// the override column that names no key; a note column without a note
/// number; a name without an italic element for the class; a directive of
/// the machine guns that is not recognized; a passenger column whose
/// daggers cannot be taken out.
pub open spec fn aircraft_fault(row: AircraftRow) -> Option<DirectiveErrorView> {
    let entries = entries_of(row.overrides@, OVERRIDE_DELIMITER);
    let guns = with_guns(row_overrides(row), row.mgs@);
    match first_unrecognized(entries) {
        Some(k) => Some(DirectiveErrorView::UnrecognizedDirective(entries[k])),
        None => if regex_captured(NOTE_NUMBER_PATTERN@, row.notes@, "keep"@) is None {
            Some(DirectiveErrorView::PatternMismatch(row.notes@))
        } else if regex_captured(ITALICS_PATTERN@, row_name(row), "keep"@) is None {
            Some(DirectiveErrorView::PatternMismatch(row_name(row)))
        } else {
            match guns_unknown(guns) {
                Some(k) => Some(
                    DirectiveErrorView::UnrecognizedDirective(
                        entries_of(guns.machine_guns, MOD_DELIMITER2)[k],
                    ),
                ),
                None => if row_passengers(row) is None {
                    Some(DirectiveErrorView::PatternMismatch(row.pp@))
                } else {
                    None
                },
            }
        },
    }
}

/// What a row that can be read is read as.
pub open spec fn aircraft_record(row: AircraftRow) -> AircraftRecordView {
    let o = row_overrides(row);
    let color = row_palette(row).text;
    AircraftRecordView {
        nationality: value_for(row.overrides@, NOVR_NATIONALITY@),
        name: row_name(row),
        class: plain_field(
            regex_captured(ITALICS_PATTERN@, row_name(row), "keep"@)->0,
            CLASS_FONTS,
            color,
        ),
        date: date_field(row.date@, color),
        aa: filled_field(row.aa@, AA_FONTS, color),
        ml: plain_field(row.ml@, ML_FONTS, color),
        ord: ord_field(row.ord@, color),
        ord_type: if row.ord@.len() > 0 {
            row.ord_type@
        } else {
            Seq::empty()
        },
        rof_aerial: rof_pair(row.rof@, color).0,
        rof_bomb: rof_pair(row.rof@, color).1,
        mgs: guns_sanitized(
            MachineGunsView::blank(),
            Seq::empty(),
            Seq::empty(),
            Seq::empty(),
            with_guns(o, row.mgs@),
            color,
        ),
        transport_values: craft_settled(
            TransportValuesView::blank(),
            row.pp@,
            row_passengers(row)->0,
            false,
            o,
            color,
        ),
        note: regex_captured(NOTE_NUMBER_PATTERN@, row.notes@, "keep"@)->0,
        version: row.version@,
        piece: row.piece@,
        overrides: o,
        colors: row_palette(row),
        svg_image_transform: row.svg_image_transform@,
        comments: row.comments@,
    }
}

/// Reads the row of an aircraft. The columns are read in a fixed order,
/// and the first that cannot be read ends the reading with its error.
pub fn sanitize_aircraft(row: &AircraftRow) -> (r: Result<AircraftRecord, DirectiveError>)
    ensures
        match r {
            Ok(record) => aircraft_fault(*row) is None && record@ == aircraft_record(*row),
            Err(e) => aircraft_fault(*row) == Some(e@),
        },
{
    let mut overrides = Overrides::default();
    match overrides.sanitize(&row.overrides) {
        Err(e) => {
            return Err(e);
        },
        Ok(_) => {},
    }
    let note = match extract_note_number(&row.notes) {
        Some(note) => note,
        None => {
            return Err(DirectiveError::PatternMismatch(row.notes.clone()));
        },
    };
    let nationality = extract_from(row.overrides.as_str(), NOVR_NATIONALITY);
    let name = first_filled(overrides.name.as_str(), row.name.as_str());
    let colors = row_colors(&overrides.background_color, &nationality);
    let class = match sanitize_class(&name, &colors) {
        Some(class) => class,
        None => {
            return Err(DirectiveError::PatternMismatch(name));
        },
    };
    let date = build_date(&row.date, &colors);
    let aa = build_filled(&row.aa, AA_FONTS, &colors);
    let ml = build_plain(&row.ml, ML_FONTS, &colors);
    let ord = build_ord(&row.ord, &colors);
    let ord_type = if !row.ord.as_str().is_empty() {
        row.ord_type.clone()
    } else {
        String::new()
    };
    let (rof_aerial, rof_bomb) = build_rof_pair(&row.rof, &colors);
    let mut mgs = MachineGuns::default();
    match sanitize_single(&mut mgs, &row.mgs, &overrides, &colors) {
        Err(e) => {
            return Err(e);
        },
        Ok(_) => {},
    }
    let mut transport_values = TransportValues::default();
    match transport_values.gl_sanitize(&row.pp, &overrides, &colors) {
        Err(e) => {
            return Err(e);
        },
        Ok(_) => {},
    }
    Ok(
        AircraftRecord {
            nationality: nationality,
            name: name,
            class: class,
            date: date,
            aa: aa,
            ml: ml,
            ord: ord,
            ord_type: ord_type,
            rof_aerial: rof_aerial,
            rof_bomb: rof_bomb,
            mgs: mgs,
            transport_values: transport_values,
            note: note,
            version: row.version.clone(),
            piece: row.piece.clone(),
            overrides: overrides,
            colors: colors,
            svg_image_transform: row.svg_image_transform.clone(),
            comments: row.comments.clone(),
        },
    )
}

} // verus!
