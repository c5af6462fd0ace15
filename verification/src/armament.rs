//! The armament of a counter: how the caliber text of a row is taken apart
//! into location, caliber, velocity and footnote mark, and how the fields
//! round it are built.

use vstd::prelude::*;
use crate::colors::{Colors, ColorsView, RED};
use crate::directive::directives_of;
use crate::overrides::{
    Overrides, OverridesView, MOD_DELIMITER2, MOD_LOCATION_ABOVE_MGS, NOVR_IFE, NOVR_ROF,
};
use crate::pattern::{regex_replace_all, regex_replaced};
use crate::metrics::{fixed_text, format_fixed};
use crate::scan::{
    contains_char, contains_text, count_bytes, cut_before, extend_chars, same_chars, slice_chars,
    split_once_text, strip_char, to_chars, to_text,
};
use crate::tags::{
    asterisk_rules, dagger_rule, five_lobed_rule, lemma_asterisk_rules_clean,
    lemma_asterisk_rules_rest, six_lobed_rule, TaggedText, TaggedTextView,
};
use crate::text::{
    before_first, byte_length, first_match, lemma_absent_char, lemma_before_first_char,
    lemma_occurs_iff_first_match, occurs_in, replaced, split_once_at, without,
};
use crate::text_field::{
    built, decoration_of, find_decoration, table_in_range, table_view, FontsObj, FontsView, Note,
    NoteAction, NoteView, TextField, TextFieldView, DAGGER, FIVE_LOBED_ASTERISK,
    FIVE_LOBED_ASTERISK_SVG, FIVE_LOBED_ASTERISK_TAG, FIVE_LOBED_ASTERISK_UC, FONT_BOTHLINED,
    FONT_NORMAL, FONT_OVERLINED, FONT_UNDERLINED, NO_FONTS, RANGE_FONTS, SIX_LOBED_ASTERISK_TAG,
    SIX_LOBED_ASTERISK_UC, UNDERLINED_CALIBER_NOTE_TAG,
};
use crate::turret::{extract_turret_type, mount_text, turret_type_of, Turret, TurretView};
use crate::utils::{
    convert_superscripts, convert_text, entries_of, extract_from, extract_string,
    generate_six_lobed_asterisk_svg, strip_bold_span, superscript_open, text_between, unbolded,
    value_for, with_superscripts, without_first,
};

verus! {

pub const ROF_HEIGHT: i64 = 1122;

pub const ROF_STROKE_WIDTH: i64 = 50;

pub const ROF_OFFSET: i64 = 25;

pub const ROF_BOX_SIZE: i64 = 1072;

/// Metrics of the main armament.
pub const MA_FONTS: [[i64; 4]; 8] = [
    [1200, 600, 7500, 1200],
    [1200, 600, 6000, 1500],
    [1200, 600, 8000, 1500],
    [1200, 600, 6667, 1800],
    [800, 400, 6667, 900],
    [800, 400, 5455, 1100],
    [800, 400, 7273, 1100],
    [800, 400, 6154, 1300],
];

/// Metrics of the secondary armament.
pub const SA_FONTS: [[i64; 4]; 8] = [
    [800, 400, 9800, 600],
    [800, 400, 7500, 800],
    [800, 400, 9800, 800],
    [800, 400, 8000, 1000],
    [800, 400, 9800, 600],
    [800, 400, 7500, 800],
    [800, 400, 9800, 800],
    [800, 400, 8000, 1000],
];

/// Metrics of the rate of fire.
pub const ROF_FONTS: [[i64; 4]; 8] = [
    [840, 600, 7500, 660],
    [0, 0, 0, 0],
    [0, 0, 0, 0],
    [0, 0, 0, 0],
    [0, 0, 0, 0],
    [0, 0, 0, 0],
    [0, 0, 0, 0],
    [0, 0, 0, 0],
];

/// Metrics of the infantry firepower equivalent.
pub const IFE_FONTS: [[i64; 4]; 8] = [
    [840, 600, 8200, 860],
    [0, 0, 0, 0],
    [0, 0, 0, 0],
    [0, 0, 0, 0],
    [0, 0, 0, 0],
    [0, 0, 0, 0],
    [0, 0, 0, 0],
    [0, 0, 0, 0],
];

pub const MA_MOVT_WHITE_CIRCLE: &'static str =
    "<tspan style=\"font-size:6.00px;fill:white\" baseline-shift=\"super\">●</tspan></text>";

pub const SA_MOVT_WHITE_CIRCLE: &'static str =
    "<tspan style=\"font-size:4.80px;fill:white\" baseline-shift=\"super\">●</tspan></text>";

/// A closing span tag.
pub const SPAN_CLOSE_PATTERN: &'static str = "</span>";

/// An opening span tag with its attributes.
pub const SPAN_OPEN_PATTERN: &'static str = "<span(.*?)>";

/// What an `Armament` holds.
pub struct ArmamentView {
    pub caliber_note: NoteView,
    pub location: Seq<char>,
    pub caliber: Seq<char>,
    pub velocity: Seq<char>,
    pub rof: TextFieldView,
    pub ife: TextFieldView,
    pub range: TextFieldView,
    pub range2: TextFieldView,
    pub special_ammo: TextFieldView,
    pub multiple_hits: bool,
    pub color: Seq<char>,
    pub underline_note: NoteView,
    pub raw_caliber: Seq<char>,
    pub overline: bool,
    pub underline: bool,
    pub fonts: FontsView,
    pub is_secondary: bool,
}

/// One armament of a counter, taken apart and ready to be drawn.
#[derive(Debug)]
pub struct Armament {
    pub caliber_note: Note,
    /// Where the gun is mounted (`B`, `T`, `S`), or a flamethrower's mark.
    pub location: String,
    pub caliber: String,
    /// `L`, `LL` or a six-lobed asterisk.
    pub velocity: String,
    pub rof: TextField,
    pub ife: TextField,
    pub range: TextField,
    pub range2: TextField,
    pub special_ammo: TextField,
    pub multiple_hits: bool,
    pub color: String,
    pub underline_note: Note,
    pub raw_caliber: String,
    pub overline: bool,
    pub underline: bool,
    pub fonts: FontsObj,
    pub is_secondary: bool,
}

impl View for Armament {
    type V = ArmamentView;

    open spec fn view(&self) -> ArmamentView {
        ArmamentView {
            caliber_note: self.caliber_note@,
            location: self.location@,
            caliber: self.caliber@,
            velocity: self.velocity@,
            rof: self.rof@,
            ife: self.ife@,
            range: self.range@,
            range2: self.range2@,
            special_ammo: self.special_ammo@,
            multiple_hits: self.multiple_hits,
            color: self.color@,
            underline_note: self.underline_note@,
            raw_caliber: self.raw_caliber@,
            overline: self.overline,
            underline: self.underline,
            fonts: self.fonts@,
            is_secondary: self.is_secondary,
        }
    }
}

impl ArmamentView {
    /// An armament of which nothing is known yet.
    pub open spec fn blank() -> ArmamentView {
        ArmamentView {
            caliber_note: NoteView::unset(),
            location: Seq::empty(),
            caliber: Seq::empty(),
            velocity: Seq::empty(),
            rof: TextFieldView::blank(NO_FONTS),
            ife: TextFieldView::blank(NO_FONTS),
            range: TextFieldView::blank(NO_FONTS),
            range2: TextFieldView::blank(NO_FONTS),
            special_ammo: TextFieldView::blank(NO_FONTS),
            multiple_hits: false,
            color: Seq::empty(),
            underline_note: NoteView::unset(),
            raw_caliber: Seq::empty(),
            overline: false,
            underline: false,
            fonts: FontsView { selected_font: 0, fonts: table_view(NO_FONTS) },
            is_secondary: false,
        }
    }
}

impl Default for Armament {
    fn default() -> (r: Self)
        ensures
            r@ == ArmamentView::blank(),
    {
        Armament {
            caliber_note: Note::default(),
            location: String::new(),
            caliber: String::new(),
            velocity: String::new(),
            rof: TextField::default(),
            ife: TextField::default(),
            range: TextField::default(),
            range2: TextField::default(),
            special_ammo: TextField::default(),
            multiple_hits: false,
            color: String::new(),
            underline_note: Note::default(),
            raw_caliber: String::new(),
            overline: false,
            underline: false,
            fonts: FontsObj::default(),
            is_secondary: false,
        }
    }
}

/// The caliber text that the directive chain `overrides` makes of
/// `original`: `original` itself where the chain is empty; else the chain's
/// replacement, with `original` for each copy-field sentinel, cut before its
/// first dagger.
pub open spec fn gun_text(original: Seq<char>, overrides: Seq<char>) -> Seq<char> {
    let chain = directives_of(entries_of(overrides, MOD_DELIMITER2));
    if chain.len() == 0 {
        original
    } else {
        before_first(
            TextFieldView { text: original, ..TextFieldView::blank(NO_FONTS) }.directed_all(
                chain,
                original,
            ).text,
            seq![DAGGER],
        )
    }
}

/// The metrics that the size changes of the directive chain `overrides`
/// make of `fonts`.
pub open spec fn gun_fonts(fonts: FontsView, original: Seq<char>, overrides: Seq<char>) -> FontsView {
    TextFieldView { text: original, fonts: fonts, ..TextFieldView::blank(NO_FONTS) }.directed_all(
        directives_of(entries_of(overrides, MOD_DELIMITER2)),
        original,
    ).fonts
}

/// What the class of a caliber text decides.
pub struct CaliberClassView {
    /// The text without what the class takes from it.
    pub text: Seq<char>,
    /// Where the gun is mounted.
    pub location: Seq<char>,
    /// The class is drawn in the alternate variants.
    pub alternate: bool,
    /// A bold span turned the armament red.
    pub alert: bool,
}

/// What the class of a caliber text decides.
#[derive(Debug)]
pub struct CaliberClass {
    pub text: String,
    pub location: String,
    pub alternate: bool,
    pub alert: bool,
}

impl View for CaliberClass {
    type V = CaliberClassView;

    open spec fn view(&self) -> CaliberClassView {
        CaliberClassView {
            text: self.text@,
            location: self.location@,
            alternate: self.alternate,
            alert: self.alert,
        }
    }
}

/// `text` without its first character.
pub open spec fn behind_first(text: Seq<char>) -> Seq<char> {
    if text.len() == 0 {
        text
    } else {
        text.subrange(1, text.len() as int)
    }
}

/// `text` begins with one of the characters `a`, `b` and `c`.
pub open spec fn begins_with_one_of(text: Seq<char>, a: char, b: char, c: char) -> bool {
    text.len() > 0 && (text[0] == a || text[0] == b || text[0] == c)
}

/// The class of a caliber text and what it decides. A machine gun or an
/// anti-tank rifle is drawn in the alternate variants as main armament and
/// loses its dagger as secondary armament; the rifle also loses a leading
/// mount letter. A gun of the armoured-car class loses its first character.
/// A flamethrower gives its first two characters as location, after a bold
/// span was taken out and counted. Any other text that begins with a mount
/// letter loses it, and gives it as location on a secondary armament. What
/// is left of a secondary armament loses its dagger.
pub open spec fn classified(text: Seq<char>, secondary: bool) -> CaliberClassView {
    if occurs_in("MG"@, text) {
        CaliberClassView {
            text: if secondary {
                before_first(text, seq![DAGGER])
            } else {
                text
            },
            location: Seq::empty(),
            alternate: !secondary,
            alert: false,
        }
    } else if occurs_in("ATR"@, text) {
        CaliberClassView {
            text: if secondary {
                before_first(text, seq![DAGGER])
            } else if begins_with_one_of(text, 'B', 'T', 'T') {
                behind_first(text)
            } else {
                text
            },
            location: Seq::empty(),
            alternate: !secondary,
            alert: false,
        }
    } else if occurs_in("TTACP"@, text) {
        CaliberClassView {
            text: behind_first(text),
            location: Seq::empty(),
            alternate: true,
            alert: false,
        }
    } else if occurs_in("BF"@, text) || occurs_in("TF"@, text) || occurs_in("SF"@, text) {
        let plain = unbolded(text);
        let n = if plain.len() < 2 {
            plain.len() as int
        } else {
            2
        };
        CaliberClassView {
            text: plain.subrange(n, plain.len() as int),
            location: plain.subrange(0, n),
            alternate: false,
            alert: occurs_in("<b>"@, text),
        }
    } else if begins_with_one_of(text, 'B', 'T', 'R') {
        CaliberClassView {
            text: behind_first(text),
            location: if secondary {
                text.subrange(0, 1)
            } else {
                Seq::empty()
            },
            alternate: false,
            alert: false,
        }
    } else {
        CaliberClassView {
            text: if secondary {
                before_first(text, seq![DAGGER])
            } else {
                text
            },
            location: Seq::empty(),
            alternate: false,
            alert: false,
        }
    }
}

/// `text` cut before its first dagger.
fn cut_dagger(text: &Vec<char>) -> (r: Vec<char>)
    ensures
        r@ == before_first(text@, seq![DAGGER]),
{
    let mut dagger: Vec<char> = Vec::new();
    dagger.push(DAGGER);
    assert(dagger@ =~= seq![DAGGER]);
    cut_before(text, &dagger)
}

/// `text` without its first character.
fn drop_head(text: &Vec<char>) -> (r: Vec<char>)
    ensures
        r@ == behind_first(text@),
{
    if text.len() == 0 {
        Vec::new()
    } else {
        slice_chars(text, 1, text.len())
    }
}

/// Finds the class of a caliber text and what it decides.
pub fn classify_caliber(text: &String, secondary: bool) -> (r: CaliberClass)
    ensures
        r@ == classified(text@, secondary),
{
    let t = to_chars(text.as_str());
    let head_b = t.len() > 0 && t[0] == 'B';
    let head_t = t.len() > 0 && t[0] == 'T';
    let head_r = t.len() > 0 && t[0] == 'R';
    if contains_text(&t, &to_chars("MG")) {
        let kept = if secondary {
            cut_dagger(&t)
        } else {
            t
        };
        CaliberClass {
            text: to_text(&kept),
            location: String::new(),
            alternate: !secondary,
            alert: false,
        }
    } else if contains_text(&t, &to_chars("ATR")) {
        let kept = if secondary {
            cut_dagger(&t)
        } else if head_b || head_t {
            drop_head(&t)
        } else {
            t
        };
        CaliberClass {
            text: to_text(&kept),
            location: String::new(),
            alternate: !secondary,
            alert: false,
        }
    } else if contains_text(&t, &to_chars("TTACP")) {
        CaliberClass {
            text: to_text(&drop_head(&t)),
            location: String::new(),
            alternate: true,
            alert: false,
        }
    } else if contains_text(&t, &to_chars("BF")) || contains_text(&t, &to_chars("TF"))
        || contains_text(&t, &to_chars("SF")) {
        let alert = contains_text(&t, &to_chars("<b>"));
        let plain = to_chars(strip_bold_span(text.as_str()).as_str());
        let n: usize = if plain.len() < 2 {
            plain.len()
        } else {
            2
        };
        CaliberClass {
            text: to_text(&slice_chars(&plain, n, plain.len())),
            location: to_text(&slice_chars(&plain, 0, n)),
            alternate: false,
            alert: alert,
        }
    } else if head_b || head_t || head_r {
        CaliberClass {
            text: to_text(&drop_head(&t)),
            location: if secondary {
                to_text(&slice_chars(&t, 0, 1))
            } else {
                String::new()
            },
            alternate: false,
            alert: false,
        }
    } else {
        let kept = if secondary {
            cut_dagger(&t)
        } else {
            t
        };
        CaliberClass {
            text: to_text(&kept),
            location: String::new(),
            alternate: false,
            alert: false,
        }
    }
}

/// The caliber and the velocity that a caliber text spells: a doubled or a
/// single `L` is the velocity and every `L` leaves the caliber; without an
/// `L`, a five-lobed glyph that is not at the start leaves the caliber and
/// makes the velocity a six-lobed asterisk, and one at the start leaves
/// both empty; any other text is the caliber.
pub open spec fn ballistics_of(text: Seq<char>) -> (Seq<char>, Seq<char>) {
    if occurs_in("LL"@, text) {
        (without(text, 'L'), "LL"@)
    } else if occurs_in("L"@, text) {
        (without(text, 'L'), "L"@)
    } else if text.contains(FIVE_LOBED_ASTERISK) {
        if text[0] != FIVE_LOBED_ASTERISK {
            (without(text, FIVE_LOBED_ASTERISK), SIX_LOBED_ASTERISK_UC@)
        } else {
            (Seq::empty(), Seq::empty())
        }
    } else {
        (text, Seq::empty())
    }
}

/// Reads the caliber and the velocity off a caliber text.
pub fn read_ballistics(text: &String) -> (r: (String, String))
    ensures
        (r.0@, r.1@) == ballistics_of(text@),
{
    let t = to_chars(text.as_str());
    if contains_text(&t, &to_chars("LL")) {
        (to_text(&strip_char(&t, 'L')), "LL".to_string())
    } else if contains_text(&t, &to_chars("L")) {
        (to_text(&strip_char(&t, 'L')), "L".to_string())
    } else if contains_char(&t, FIVE_LOBED_ASTERISK) {
        if t[0] != FIVE_LOBED_ASTERISK {
            (to_text(&strip_char(&t, FIVE_LOBED_ASTERISK)), SIX_LOBED_ASTERISK_UC.to_owned())
        } else {
            (String::new(), String::new())
        }
    } else {
        (text.clone(), String::new())
    }
}

/// `text` without its span tags, as the pattern engine takes them out: the
/// closing tags first and, where an opening is left, the openings with
/// their attributes. A text without a closing tag is left alone, and so is
/// it where the engine gives no answer.
pub open spec fn spans_stripped(text: Seq<char>) -> Seq<char> {
    if occurs_in(SPAN_CLOSE_PATTERN@, text) {
        let closed = match regex_replaced(SPAN_CLOSE_PATTERN@, text, Seq::empty()) {
            Some(t) => t,
            None => text,
        };
        if occurs_in("<span"@, closed) {
            match regex_replaced(SPAN_OPEN_PATTERN@, closed, Seq::empty()) {
                Some(t) => t,
                None => closed,
            }
        } else {
            closed
        }
    } else {
        text
    }
}

/// Takes the span tags out of `text`.
pub fn strip_spans(text: &String) -> (r: String)
    ensures
        r@ == spans_stripped(text@),
{
    proof {
        reveal_strlit("");
        assert(""@ =~= Seq::<char>::empty());
    }
    if contains_text(&to_chars(text.as_str()), &to_chars(SPAN_CLOSE_PATTERN)) {
        let closed = match regex_replace_all(SPAN_CLOSE_PATTERN, text.as_str(), "") {
            Some(t) => t,
            None => text.clone(),
        };
        if contains_text(&to_chars(closed.as_str()), &to_chars("<span")) {
            match regex_replace_all(SPAN_OPEN_PATTERN, closed.as_str(), "") {
                Some(t) => t,
                None => closed,
            }
        } else {
            closed
        }
    } else {
        text.clone()
    }
}

/// A caliber text on its way through `sanitize_caliber`: the armament as
/// far as it is settled, the text that is left, and whether the alternate
/// variants are called for.
pub struct CaliberDraft {
    pub arm: ArmamentView,
    pub text: Seq<char>,
    pub alternate: bool,
}

/// The mark that a dagger in a caliber text stands for: a five-lobed
/// asterisk before the caliber.
pub open spec fn caliber_mark() -> NoteView {
    NoteView { action: NoteAction::Prefix, text: FIVE_LOBED_ASTERISK_UC@ }
}

/// The first part of taking a caliber text apart. The metrics are those of
/// the main or the secondary armament, with the size changes of the
/// directive chain. The text is what the chain makes of `source`. The four
/// asterisk rules run on it: the mark they attach is the caliber note, or
/// the underline note where the underline-note tag attached it. The
/// decoration of the spans selects the variant.
pub open spec fn caliber_opened(
    a: ArmamentView,
    source: Seq<char>,
    overrides: OverridesView,
) -> CaliberDraft {
    let chain = if a.is_secondary {
        overrides.sa.text
    } else {
        overrides.ma.text
    };
    let table = if a.is_secondary {
        SA_FONTS
    } else {
        MA_FONTS
    };
    let text = gun_text(source, chain);
    let tagged = six_lobed_rule(
        five_lobed_rule(TaggedTextView { text: text, note: NoteView::unset() }),
    );
    let by_underline = tagged.note.action == NoteAction::Unset && occurs_in(
        UNDERLINED_CALIBER_NOTE_TAG@,
        tagged.text,
    );
    let marked = asterisk_rules(TaggedTextView { text: text, note: NoteView::unset() });
    let decoration = decoration_of(marked.text);
    CaliberDraft {
        arm: ArmamentView {
            caliber_note: if by_underline {
                NoteView::unset()
            } else {
                marked.note
            },
            underline_note: if by_underline {
                marked.note
            } else {
                NoteView::unset()
            },
            location: Seq::empty(),
            caliber: Seq::empty(),
            velocity: Seq::empty(),
            overline: decoration == FONT_OVERLINED || decoration == FONT_BOTHLINED,
            underline: decoration == FONT_UNDERLINED || decoration == FONT_BOTHLINED,
            fonts: FontsView {
                selected_font: decoration,
                fonts: gun_fonts(
                    FontsView { selected_font: 0, fonts: table_view(table) },
                    source,
                    chain,
                ).fonts,
            },
            ..a
        },
        text: marked.text,
        alternate: text == "VBM NA"@,
    }
}

/// The second part of taking a caliber text apart, on the text `text` that
/// is left once the spans are out. The class of the text decides location,
/// colour and variant. The dagger rule runs: where neither note is set, a
/// dagger attaches the caliber mark. What is left spells caliber and
/// velocity.
pub open spec fn caliber_closed(a: ArmamentView, text: Seq<char>, alternate: bool) -> ArmamentView {
    let class = classified(text, a.is_secondary);
    let held = if a.underline_note.action != NoteAction::Unset {
        a.underline_note
    } else {
        a.caliber_note
    };
    let daggered = dagger_rule(TaggedTextView { text: class.text, note: held }, caliber_mark());
    ArmamentView {
        caliber_note: if a.underline_note.action != NoteAction::Unset {
            a.caliber_note
        } else {
            daggered.note
        },
        location: class.location,
        caliber: ballistics_of(daggered.text).0,
        velocity: ballistics_of(daggered.text).1,
        color: if class.alert {
            RED@
        } else {
            a.color
        },
        fonts: FontsView {
            selected_font: if alternate || class.alternate {
                a.fonts.selected_font + 4
            } else {
                a.fonts.selected_font
            },
            fonts: a.fonts.fonts,
        },
        ..a
    }
}

/// What `sanitize_caliber` makes of an armament: the first part, the spans
/// taken out, the second part.
pub open spec fn caliber_sanitized(
    a: ArmamentView,
    source: Seq<char>,
    overrides: OverridesView,
) -> ArmamentView {
    let draft = caliber_opened(a, source, overrides);
    caliber_closed(draft.arm, spans_stripped(draft.text), draft.alternate)
}

/// The text that a rate-of-fire or firepower field starts from: with an
/// override, the whole of `source` where the override gives a chain and
/// nothing where it gives none; without one, `part`.
pub open spec fn fire_base(
    source: Seq<char>,
    overrides: Seq<char>,
    key: Seq<char>,
    part: Seq<char>,
) -> Seq<char> {
    if overrides.len() > 0 {
        if value_for(overrides, key).len() > 0 {
            source
        } else {
            Seq::empty()
        }
    } else {
        part
    }
}

/// The rate-of-fire field of `source`: built from what stands before the
/// first space, or from the override's chain where there is an override.
pub open spec fn rof_field(source: Seq<char>, overrides: Seq<char>, color: Seq<char>) -> TextFieldView {
    built(
        fire_base(source, overrides, NOVR_ROF@, before_first(source, " "@)),
        value_for(overrides, NOVR_ROF@),
        ROF_FONTS,
        color,
        NoteView::unset(),
    )
}

/// What stands behind the first space of `source`.
pub open spec fn behind_space(source: Seq<char>) -> Seq<char> {
    match split_once_at(source, " "@) {
        Some((left, right)) => right,
        None => Seq::empty(),
    }
}

/// The firepower field of `source`: built from what stands behind the first
/// space, or from the override's chain where there is an override; of the
/// text that results, what stands between the parentheses is kept.
pub open spec fn ife_field(source: Seq<char>, overrides: Seq<char>, color: Seq<char>) -> TextFieldView {
    let field = built(
        fire_base(source, overrides, NOVR_IFE@, behind_space(source)),
        value_for(overrides, NOVR_IFE@),
        IFE_FONTS,
        color,
        NoteView::unset(),
    );
    TextFieldView { text: text_between(field.text, ")"@, "("@), ..field }
}

pub fn sanitize_rof(source: &String, overrides: &String, colors: &Colors) -> (result: TextField)
    ensures
        result@ == rof_field(source@, overrides@, colors.text@),
        result.fonts.well_formed(),
{
    let chain = extract_from(overrides.as_str(), NOVR_ROF);
    let base: String = if !overrides.as_str().is_empty() {
        if !chain.as_str().is_empty() {
            source.clone()
        } else {
            String::new()
        }
    } else {
        to_text(&cut_before(&to_chars(source.as_str()), &to_chars(" ")))
    };
    assert(table_in_range(ROF_FONTS));
    TextField::build(&base, &chain, ROF_FONTS, colors, &Note::default())
}

pub fn sanitize_ife(source: &String, overrides: &String, colors: &Colors) -> (result: TextField)
    ensures
        result@ == ife_field(source@, overrides@, colors.text@),
        result.fonts.well_formed(),
{
    let chain = extract_from(overrides.as_str(), NOVR_IFE);
    let base: String = if !overrides.as_str().is_empty() {
        if !chain.as_str().is_empty() {
            source.clone()
        } else {
            String::new()
        }
    } else {
        match split_once_text(&to_chars(source.as_str()), &to_chars(" ")) {
            Some((left, right)) => to_text(&right),
            None => String::new(),
        }
    };
    assert(table_in_range(IFE_FONTS));
    let mut result = TextField::build(&base, &chain, IFE_FONTS, colors, &Note::default());
    result.text = extract_string(&result.text, ")", "(");
    result
}

/// The gun-type field: `source` in the text colour, or nothing where the
/// main armament is ignored.
pub open spec fn gun_type_field(source: Seq<char>, ignore: bool, color: Seq<char>) -> TextFieldView {
    TextFieldView {
        text: if ignore {
            Seq::empty()
        } else {
            source
        },
        color: color,
        ..TextFieldView::blank(NO_FONTS)
    }
}

pub fn sanitize_gun_type(source: &String, overrides: &Overrides, colors: &Colors) -> (result:
    TextField)
    ensures
        result@ == gun_type_field(source@, overrides.ma.ignore, colors.text@),
{
    let mut result = TextField::default();
    if !overrides.ma.ignore {
        result.text = source.clone();
    }
    result.color = colors.text.clone();
    result
}

/// The mount of a row: none where the main armament is ignored; else the
/// one that the override or the column names, in the colour of mounts.
pub open spec fn mounted(source: Seq<char>, overrides: OverridesView, colors: ColorsView) -> TurretView {
    if overrides.ma.ignore {
        TurretView::blank()
    } else {
        TurretView {
            speed: turret_type_of(mount_text(source, overrides.ma.mount)),
            color: colors.turret_type,
        }
    }
}

pub fn sanitize_mount(source: &String, overrides: &Overrides, colors: &Colors) -> (result: Turret)
    ensures
        result@ == mounted(source@, overrides@, colors@),
{
    let mut result = Turret::default();
    if !overrides.ma.ignore {
        result.speed = extract_turret_type(source, overrides);
        result.color = colors.turret_type.clone();
    }
    result
}

/// A field that is shown only where it is overridden: built from `base` and
/// the chain where there is one, else empty in the text colour.
pub open spec fn shown_if_overridden(
    base: Seq<char>,
    overrides: Seq<char>,
    color: Seq<char>,
) -> TextFieldView {
    if overrides.len() > 0 {
        built(base, overrides, RANGE_FONTS, color, NoteView::unset())
    } else {
        TextFieldView { color: color, ..TextFieldView::blank(RANGE_FONTS) }
    }
}

/// Builds a field that is shown only where it is overridden.
pub fn build_if_overridden(base: &String, overrides: &String, colors: &Colors) -> (r: TextField)
    ensures
        r@ == shown_if_overridden(base@, overrides@, colors.text@),
        r.fonts.well_formed(),
{
    assert(table_in_range(RANGE_FONTS));
    if !overrides.as_str().is_empty() {
        TextField::build(base, overrides, RANGE_FONTS, colors, &Note::default())
    } else {
        let mut r = TextField::default();
        r.color = colors.text.clone();
        r.fonts.initialize(RANGE_FONTS);
        r
    }
}

/// What `sanitize` makes of an armament. The raw caliber and the colour are
/// set. A main armament that is not ignored has its caliber taken apart and
/// its range, second range, rate of fire and firepower built; the second
/// range, where it is overridden, stands above the machine guns. A
/// secondary armament has its caliber taken apart where the row or the
/// override gives one.
pub open spec fn armament_sanitized(
    a: ArmamentView,
    source: Seq<char>,
    range: Seq<char>,
    rof_ife: Seq<char>,
    overrides: OverridesView,
    color: Seq<char>,
) -> ArmamentView {
    let start = ArmamentView { raw_caliber: source, color: color, ..a };
    if !a.is_secondary {
        if overrides.ma.ignore {
            start
        } else {
            let taken = caliber_sanitized(start, source, overrides);
            ArmamentView {
                range: shown_if_overridden(range, overrides.range_values, color),
                range2: if overrides.range2_values.len() > 0 {
                    TextFieldView {
                        alternate_location: MOD_LOCATION_ABOVE_MGS@,
                        ..built(
                            Seq::empty(),
                            overrides.range2_values,
                            RANGE_FONTS,
                            color,
                            NoteView::unset(),
                        )
                    }
                } else {
                    taken.range2
                },
                rof: rof_field(rof_ife, overrides.rof, color),
                ife: ife_field(rof_ife, overrides.ife, color),
                ..taken
            }
        }
    } else if source.len() > 0 || overrides.sa.text.len() > 0 {
        caliber_sanitized(start, source, overrides)
    } else {
        start
    }
}

impl Armament {
    /// Reads the directive chain `overrides` for the caliber text
    /// `original`: the size changes are applied to the armament's metrics,
    /// and the text that the chain makes of `original` is returned in a
    /// field that is otherwise empty.
    pub fn process_overrides(&mut self, original: &String, overrides: &String) -> (result:
        TextField)
        ensures
            result@ == (TextFieldView {
                text: gun_text(original@, overrides@),
                ..TextFieldView::blank(NO_FONTS)
            }),
            final(self)@ == (ArmamentView {
                fonts: gun_fonts(old(self)@.fonts, original@, overrides@),
                ..old(self)@
            }),
            final(self).fonts.selected_font == old(self).fonts.selected_font,
            table_in_range(old(self).fonts.fonts) ==> table_in_range(final(self).fonts.fonts),
    {
        let ghost ds = directives_of(entries_of(overrides@, MOD_DELIMITER2));
        let mut text_only = TextField::default();
        text_only.text = original.clone();
        let count = text_only.apply_chain(overrides, original);
        let mut sized = TextField::default();
        sized.text = original.clone();
        sized.fonts = self.fonts;
        let _ = sized.apply_chain(overrides, original);
        self.fonts = sized.fonts;
        let mut result = TextField::default();
        if count == 0 {
            result.text = original.clone();
        } else {
            result.text = to_text(&cut_dagger(&to_chars(text_only.text.as_str())));
        }
        result
    }

    /// The first part of `sanitize_caliber`: everything up to the text that
    /// is handed to the pattern engine. Returns that text and whether the
    /// alternate variants are called for.
    pub fn begin_caliber(&mut self, source: &String, overrides: &Overrides) -> (r: (String, bool))
        ensures
            final(self)@ == caliber_opened(old(self)@, source@, overrides@).arm,
            r.0@ == caliber_opened(old(self)@, source@, overrides@).text,
            r.1 == caliber_opened(old(self)@, source@, overrides@).alternate,
            final(self).fonts.selected_font < 4,
            table_in_range(final(self).fonts.fonts),
    {
        let chain: &String = if self.is_secondary {
            &overrides.sa.text
        } else {
            &overrides.ma.text
        };
        if self.is_secondary {
            assert(table_in_range(SA_FONTS));
            self.fonts.initialize(SA_FONTS);
        } else {
            assert(table_in_range(MA_FONTS));
            self.fonts.initialize(MA_FONTS);
        }
        self.location = String::new();
        self.caliber = String::new();
        self.velocity = String::new();
        let gun = self.process_overrides(source, chain);
        let alternate = same_chars(&to_chars(gun.text.as_str()), &to_chars("VBM NA"));
        let mut tagged = TaggedText::new(gun.text);
        tagged.apply_tag_rule(FIVE_LOBED_ASTERISK_TAG, FIVE_LOBED_ASTERISK_UC, false);
        tagged.apply_tag_rule(SIX_LOBED_ASTERISK_TAG, SIX_LOBED_ASTERISK_UC, false);
        let by_underline = match tagged.note.action {
            NoteAction::Unset => contains_text(
                &to_chars(tagged.text.as_str()),
                &to_chars(UNDERLINED_CALIBER_NOTE_TAG),
            ),
            _ => false,
        };
        tagged.apply_tag_rule(UNDERLINED_CALIBER_NOTE_TAG, FIVE_LOBED_ASTERISK_SVG, true);
        tagged.apply_tag_rule(crate::tags::FIVE_LOBED_GLYPH, FIVE_LOBED_ASTERISK_UC, false);
        let decoration = find_decoration(&tagged.text);
        self.overline = decoration == FONT_OVERLINED || decoration == FONT_BOTHLINED;
        self.underline = decoration == FONT_UNDERLINED || decoration == FONT_BOTHLINED;
        self.fonts.selected_font = decoration;
        if by_underline {
            self.caliber_note = Note::default();
            self.underline_note = tagged.note;
        } else {
            self.caliber_note = tagged.note;
            self.underline_note = Note::default();
        }
        (tagged.text, alternate)
    }

    /// The second part of `sanitize_caliber`: everything that follows the
    /// pattern engine, on the text that it left.
    pub fn finish_caliber(&mut self, text: &String, alternate: bool)
        requires
            old(self).fonts.selected_font < 4,
        ensures
            final(self)@ == caliber_closed(old(self)@, text@, alternate),
            final(self).fonts.selected_font < 8,
            final(self).fonts.fonts == old(self).fonts.fonts,
    {
        let class = classify_caliber(text, self.is_secondary);
        let underlined = match self.underline_note.action {
            NoteAction::Unset => false,
            _ => true,
        };
        let held = if underlined {
            self.underline_note.clone()
        } else {
            self.caliber_note.clone()
        };
        let mut daggered = TaggedText { text: class.text, note: held };
        daggered.apply_dagger_rule(&Note::new(NoteAction::Prefix, FIVE_LOBED_ASTERISK_UC));
        let ballistics = read_ballistics(&daggered.text);
        if !underlined {
            self.caliber_note = daggered.note;
        }
        self.location = class.location;
        self.caliber = ballistics.0;
        self.velocity = ballistics.1;
        if class.alert {
            self.color = RED.to_owned();
        }
        if alternate || class.alternate {
            self.fonts.selected_font = self.fonts.selected_font + 4;
        }
    }

    /// Takes the caliber text of a row apart: the directive chain of the
    /// override decides text and size, the tags give the footnote mark, the
    /// class of the gun gives location, colour and variant, and what is left
    /// spells caliber and velocity.
    pub fn sanitize_caliber(&mut self, source: &String, overrides: &Overrides)
        ensures
            final(self)@ == caliber_sanitized(old(self)@, source@, overrides@),
            final(self).fonts.well_formed(),
    {
        let (text, alternate) = self.begin_caliber(source, overrides);
        let plain = strip_spans(&text);
        self.finish_caliber(&plain, alternate);
    }

    pub fn sanitize(
        &mut self,
        source: &String,
        range: &String,
        rof_ife: &String,
        overrides: &Overrides,
        colors: &Colors,
    )
        ensures
            final(self)@ == armament_sanitized(
                old(self)@,
                source@,
                range@,
                rof_ife@,
                overrides@,
                colors.text@,
            ),
    {
        self.raw_caliber = source.clone();
        self.color = colors.text.clone();
        if !self.is_secondary {
            if !overrides.ma.ignore {
                self.sanitize_caliber(source, overrides);
                self.range = build_if_overridden(range, &overrides.range_values, colors);
                if !overrides.range2_values.as_str().is_empty() {
                    assert(table_in_range(RANGE_FONTS));
                    let mut second = TextField::build(
                        &String::new(),
                        &overrides.range2_values,
                        RANGE_FONTS,
                        colors,
                        &Note::default(),
                    );
                    second.alternate_location = MOD_LOCATION_ABOVE_MGS.to_owned();
                    self.range2 = second;
                }
                self.rof = sanitize_rof(rof_ife, &overrides.rof, colors);
                self.ife = sanitize_ife(rof_ife, &overrides.ife, colors);
            }
        } else if !source.as_str().is_empty() || !overrides.sa.text.as_str().is_empty() {
            self.sanitize_caliber(source, overrides);
        }
    }
}

/// The markup of the firepower that stands on the caliber line: the
/// firepower in parentheses, in the size of its field where it takes a
/// single byte and 1.2 pixels smaller otherwise, and the end of the text
/// element.
pub open spec fn ife_on_caliber_line(ife: TextFieldView) -> Seq<char> {
    "<tspan style=\"font-size:"@ + fixed_text(
        if byte_length(ife.text) == 1 {
            ife.fonts.size()
        } else {
            ife.fonts.size() - 120
        },
    ) + "px\">("@ + ife.text + ")</tspan></text>"@
}

pub fn generate_ife_element_on_caliber_line(arm: &Armament) -> (r: String)
    requires
        arm.ife.fonts.well_formed(),
    ensures
        r@ == ife_on_caliber_line(arm.ife@),
{
    let text = to_chars(arm.ife.text.as_str());
    let size = arm.ife.fonts.size();
    assert(size == arm.ife.fonts.fonts[arm.ife.fonts.selected_font as int][0]);
    let font_size = if count_bytes(arm.ife.text.as_str()) == 1 {
        size
    } else {
        size - 120
    };
    let mut r = to_chars("<tspan style=\"font-size:");
    extend_chars(&mut r, &format_fixed(font_size));
    extend_chars(&mut r, &to_chars("px\">("));
    extend_chars(&mut r, &text);
    extend_chars(&mut r, &to_chars(")</tspan></text>"));
    to_text(&r)
}

/// The markup of the decoration that opens round a caliber.
pub open spec fn decoration_open(a: ArmamentView) -> Seq<char> {
    (if a.underline {
        "<tspan style=\"text-decoration:underline\">"@
    } else {
        Seq::empty()
    }) + (if a.overline {
        "<tspan style=\"text-decoration:overline\">"@
    } else {
        Seq::empty()
    })
}

/// The markup of the decoration that closes round a caliber.
pub open spec fn decoration_close(a: ArmamentView) -> Seq<char> {
    (if a.underline {
        "</tspan>"@
    } else {
        Seq::empty()
    }) + (if a.overline {
        "</tspan>"@
    } else {
        Seq::empty()
    })
}

/// The markup of a velocity: a six-lobed asterisk becomes a superscript
/// span, any other velocity stands as it is.
pub open spec fn velocity_markup(a: ArmamentView) -> Seq<char> {
    if a.velocity.len() > 0 && occurs_in(SIX_LOBED_ASTERISK_UC@, a.velocity) {
        superscript_open(a.fonts.sup_size()) + "&#x273D;"@ + "</tspan>"@
    } else {
        a.velocity
    }
}

/// The markup of a caliber note that stands behind the caliber: the note in
/// a span where it is one of the two asterisks, an empty span for any other
/// postfix, and nothing for a note that stands elsewhere.
pub open spec fn postfix_markup(a: ArmamentView) -> Seq<char> {
    if a.caliber_note.text.len() > 0 && a.caliber_note.action == NoteAction::Postfix {
        "<tspan>"@ + (if occurs_in(SIX_LOBED_ASTERISK_UC@, a.caliber_note.text) || occurs_in(
            FIVE_LOBED_ASTERISK_UC@,
            a.caliber_note.text,
        ) {
            a.caliber_note.text
        } else {
            Seq::empty()
        }) + "</tspan>"@
    } else {
        Seq::empty()
    }
}

/// The text element of a gun at the place given: location, decorated
/// caliber, velocity and postfix note, in the size of the selected variant
/// and the armament's colour.
pub open spec fn gun_element(a: ArmamentView, x_position: int, y_position: int) -> Seq<char> {
    "\t\t<text x=\""@ + fixed_text(x_position) + "\" y=\""@ + fixed_text(y_position)
        + "%\" dominant-baseline=\"auto\" text-anchor=\"start\" style=\"font-size:"@
        + fixed_text(a.fonts.size())
        + "px;font-weight:bold;font-family:Nimbus Sans L;fill:"@ + a.color + "\">"@
        + a.location + decoration_open(a) + a.caliber + decoration_close(a) + velocity_markup(a)
        + postfix_markup(a) + "</text>"@
}

pub fn generate_gun_element(arm: &Armament, x_position: i64, y_position: i64) -> (result: String)
    requires
        arm.fonts.selected_font < 8,
    ensures
        result@ == gun_element(arm@, x_position as int, y_position as int),
{
    let mut r = to_chars("\t\t<text x=\"");
    extend_chars(&mut r, &format_fixed(x_position));
    extend_chars(&mut r, &to_chars("\" y=\""));
    extend_chars(&mut r, &format_fixed(y_position));
    extend_chars(
        &mut r,
        &to_chars("%\" dominant-baseline=\"auto\" text-anchor=\"start\" style=\"font-size:"),
    );
    extend_chars(&mut r, &format_fixed(arm.fonts.size()));
    extend_chars(&mut r, &to_chars("px;font-weight:bold;font-family:Nimbus Sans L;fill:"));
    extend_chars(&mut r, &to_chars(arm.color.as_str()));
    extend_chars(&mut r, &to_chars("\">"));
    extend_chars(&mut r, &to_chars(arm.location.as_str()));
    let ghost head = r@;
    let mut open: Vec<char> = Vec::new();
    let mut close: Vec<char> = Vec::new();
    if arm.underline {
        extend_chars(&mut open, &to_chars("<tspan style=\"text-decoration:underline\">"));
        extend_chars(&mut close, &to_chars("</tspan>"));
    }
    if arm.overline {
        extend_chars(&mut open, &to_chars("<tspan style=\"text-decoration:overline\">"));
        extend_chars(&mut close, &to_chars("</tspan>"));
    }
    assert(open@ =~= decoration_open(arm@));
    assert(close@ =~= decoration_close(arm@));
    extend_chars(&mut r, &open);
    extend_chars(&mut r, &to_chars(arm.caliber.as_str()));
    extend_chars(&mut r, &close);
    let velocity = to_chars(arm.velocity.as_str());
    if velocity.len() != 0 && contains_text(&velocity, &to_chars(SIX_LOBED_ASTERISK_UC)) {
        extend_chars(&mut r, &to_chars(generate_six_lobed_asterisk_svg(&arm.fonts).as_str()));
    } else {
        extend_chars(&mut r, &velocity);
    }
    let note = to_chars(arm.caliber_note.text.as_str());
    let mut postfix: Vec<char> = Vec::new();
    match arm.caliber_note.action {
        NoteAction::Postfix => {
            if note.len() != 0 {
                extend_chars(&mut postfix, &to_chars("<tspan>"));
                if contains_text(&note, &to_chars(SIX_LOBED_ASTERISK_UC)) || contains_text(
                    &note,
                    &to_chars(FIVE_LOBED_ASTERISK_UC),
                ) {
                    extend_chars(&mut postfix, &note);
                }
                extend_chars(&mut postfix, &to_chars("</tspan>"));
            }
        },
        _ => {},
    }
    assert(postfix@ =~= postfix_markup(arm@));
    extend_chars(&mut r, &postfix);
    extend_chars(&mut r, &to_chars("</text>"));
    assert(r@ =~= gun_element(arm@, x_position as int, y_position as int));
    to_text(&r)
}

/// Where the caliber of a main armament starts on its line: behind a
/// prefixed caliber note, 5.4 for the six-lobed mark and 4.8 for any other,
/// and 0.6 less in a decorated variant; at 4.8 behind a prefixed underline
/// note; else at the left edge.
pub open spec fn main_offset(a: ArmamentView) -> int {
    if a.caliber_note.text.len() > 0 && a.caliber_note.action == NoteAction::Prefix {
        (if occurs_in(SIX_LOBED_ASTERISK_UC@, a.caliber_note.text) {
            540int
        } else {
            480int
        }) - (if a.fonts.selected_font != FONT_NORMAL {
            60int
        } else {
            0int
        })
    } else if a.underline_note.action == NoteAction::Prefix {
        480
    } else {
        0
    }
}

/// Where the caliber of a main armament starts on its line.
pub fn main_gun_offset(ma: &Armament) -> (r: i64)
    ensures
        r == main_offset(ma@),
{
    let prefixed = match ma.caliber_note.action {
        NoteAction::Prefix => !ma.caliber_note.text.as_str().is_empty(),
        _ => false,
    };
    let underlined = match ma.underline_note.action {
        NoteAction::Prefix => true,
        _ => false,
    };
    if prefixed {
        let mark = to_chars(ma.caliber_note.text.as_str());
        let start: i64 = if contains_text(&mark, &to_chars(SIX_LOBED_ASTERISK_UC)) {
            540
        } else {
            480
        };
        if ma.fonts.selected_font != FONT_NORMAL {
            start - 60
        } else {
            start
        }
    } else if underlined {
        480
    } else {
        0
    }
}

/// Where the caliber of a secondary armament starts on its line: behind its
/// caliber note, 3.6 for the six-lobed mark and 3.0 for any other; else at
/// the left edge.
pub open spec fn secondary_offset(a: ArmamentView) -> int {
    if a.caliber_note.text.len() == 0 {
        0
    } else if occurs_in(SIX_LOBED_ASTERISK_UC@, a.caliber_note.text) {
        360
    } else {
        300
    }
}

/// Where the caliber of a secondary armament starts on its line.
pub fn secondary_gun_offset(sa: &Armament) -> (r: i64)
    ensures
        r == secondary_offset(sa@),
{
    let mark = to_chars(sa.caliber_note.text.as_str());
    if mark.len() == 0 {
        0
    } else if contains_text(&mark, &to_chars(SIX_LOBED_ASTERISK_UC)) {
        360
    } else {
        300
    }
}

/// The element of a gun with a moving-target penalty, drawn under the gun:
/// the fill is taken away, the raised six-lobed asterisk is taken out, and
/// the white circle is put where the text ends.
pub open spec fn penalty_element(gun: Seq<char>, asterisk: Seq<char>, circle: Seq<char>) -> Seq<
    char,
> {
    let hollow = replaced(gun, "fill:black"@, "fill:none"@);
    let bare = if occurs_in(asterisk, hollow) {
        replaced(hollow, asterisk, Seq::empty())
    } else {
        hollow
    };
    replaced(bare, "</text>"@, circle)
}

/// The element of a gun with a moving-target penalty; `circle` is the white
/// circle of the armament.
pub fn generate_penalty_element(gun: &String, fonts: &FontsObj, circle: &str) -> (r: String)
    requires
        fonts.selected_font < 8,
    ensures
        r@ == penalty_element(
            gun@,
            superscript_open(fonts@.sup_size()) + "&#x273D;"@ + "</tspan>"@,
            circle@,
        ),
{
    let asterisk = generate_six_lobed_asterisk_svg(fonts);
    let hollow = convert_text(gun, "fill:black", "fill:none");
    let bare = if contains_text(&to_chars(hollow.as_str()), &to_chars(asterisk.as_str())) {
        let nothing = "";
        proof {
            reveal_strlit("");
        }
        assert(nothing@ =~= Seq::<char>::empty());
        convert_text(&hollow, asterisk.as_str(), nothing)
    } else {
        hollow
    };
    convert_text(&bare, "</text>", circle)
}

/// The element of a gun with its firepower on the same line: the firepower
/// stands where the text ends.
pub fn join_ife_element(gun: &String, ife: &String) -> (r: String)
    ensures
        r@ == replaced(gun@, "</text>"@, ife@),
{
    convert_text(gun, "</text>", ife.as_str())
}

/// The element of a secondary gun with its superscripts in spans, 2.4
/// smaller than the gun.
pub open spec fn secondary_raised(gun: Seq<char>, size: int) -> Seq<char> {
    if occurs_in("<sup>"@, gun) {
        with_superscripts(gun, size - 240)
    } else {
        gun
    }
}

/// The element of a secondary gun with its superscripts in spans.
pub fn raise_secondary(gun: &String, fonts: &FontsObj) -> (r: String)
    requires
        fonts.well_formed(),
    ensures
        r@ == secondary_raised(gun@, fonts@.size()),
{
    if contains_text(&to_chars(gun.as_str()), &to_chars("<sup>")) {
        let size = fonts.size();
        assert(size == fonts.fonts[fonts.selected_font as int][0]);
        convert_superscripts(gun, size - 240)
    } else {
        gun.clone()
    }
}

/// What is left of a text when one character is taken out holds no
/// character that the text did not hold, and not the one taken out.
pub proof fn lemma_without_keeps(s: Seq<char>, c: char)
    ensures
        !without(s, c).contains(c),
        forall|d: char| without(s, c).contains(d) ==> s.contains(d),
    decreases s.len(),
{
    if s.len() > 0 {
        let rest = s.subrange(1, s.len() as int);
        lemma_without_keeps(rest, c);
        let w = without(s, c);
        assert forall|d: char| w.contains(d) implies s.contains(d) by {
            let i = choose|i: int| 0 <= i < w.len() && w[i] == d;
            if s[0] != c && i == 0 {
                assert(s[0] == d);
            } else {
                let j = if s[0] == c {
                    i
                } else {
                    i - 1
                };
                assert(without(rest, c)[j] == d);
                assert(without(rest, c).contains(d));
                assert(rest.contains(d));
                let k = choose|k: int| 0 <= k < rest.len() && rest[k] == d;
                assert(s[k + 1] == d);
            }
        }
        if w.contains(c) {
            let i = choose|i: int| 0 <= i < w.len() && w[i] == c;
            if s[0] == c {
                assert(without(rest, c)[i] == c);
            } else {
                assert(i > 0);
                assert(without(rest, c)[i - 1] == c);
            }
            assert(without(rest, c).contains(c));
        }
    }
}

/// What is left of a text when the first occurrence of a mark is taken out
/// holds no character that the text did not hold.
pub proof fn lemma_without_first_keeps(s: Seq<char>, mark: Seq<char>)
    ensures
        forall|d: char| without_first(s, mark).contains(d) ==> s.contains(d),
{
    lemma_occurs_iff_first_match(s, mark);
    let w = without_first(s, mark);
    assert forall|d: char| w.contains(d) implies s.contains(d) by {
        match first_match(s, mark) {
            Some(k) => {
                let i = choose|i: int| 0 <= i < w.len() && w[i] == d;
                if i < k {
                    assert(s[i] == d);
                } else {
                    assert(s[i + mark.len()] == d);
                }
            },
            None => {},
        }
    }
}

/// A text without its bold span holds no character that the text did not
/// hold.
pub proof fn lemma_unbolded_keeps(s: Seq<char>)
    ensures
        forall|d: char| unbolded(s).contains(d) ==> s.contains(d),
{
    lemma_without_first_keeps(s, "<b>"@);
    lemma_without_first_keeps(without_first(s, "<b>"@), "</b>"@);
}

/// The text that a class leaves holds no character that the text it was
/// read from did not hold.
pub proof fn lemma_classified_keeps(text: Seq<char>, secondary: bool)
    ensures
        forall|d: char| classified(text, secondary).text.contains(d) ==> text.contains(d),
{
    let r = classified(text, secondary).text;
    lemma_before_first_char(text, DAGGER);
    lemma_unbolded_keeps(text);
    assert forall|d: char| r.contains(d) implies text.contains(d) by {
        let i = choose|i: int| 0 <= i < r.len() && r[i] == d;
        if r == text || r == before_first(text, seq![DAGGER]) {
        } else if r == behind_first(text) {
            assert(text[i + 1] == d);
        } else {
            let plain = unbolded(text);
            let n = if plain.len() < 2 {
                plain.len() as int
            } else {
                2
            };
            assert(r == plain.subrange(n, plain.len() as int));
            assert(plain[i + n] == d);
            assert(plain.contains(d));
        }
    }
}

/// The caliber that a text spells holds no character that the text did not
/// hold, and no five-lobed glyph where the text spells no velocity letter.
pub proof fn lemma_ballistics_keeps(text: Seq<char>)
    ensures
        forall|d: char| ballistics_of(text).0.contains(d) ==> text.contains(d),
{
    lemma_without_keeps(text, 'L');
    lemma_without_keeps(text, FIVE_LOBED_ASTERISK);
}

/// The caliber never holds a dagger, and it holds no five-lobed glyph where
/// the text that is left once the spans are out holds none.
pub proof fn lemma_caliber_without_marks(a: ArmamentView, text: Seq<char>, alternate: bool)
    ensures
        !caliber_closed(a, text, alternate).caliber.contains(DAGGER),
        !text.contains(FIVE_LOBED_ASTERISK) ==> !caliber_closed(
            a,
            text,
            alternate,
        ).caliber.contains(FIVE_LOBED_ASTERISK),
{
    let class = classified(text, a.is_secondary);
    let held = if a.underline_note.action != NoteAction::Unset {
        a.underline_note
    } else {
        a.caliber_note
    };
    let daggered = dagger_rule(TaggedTextView { text: class.text, note: held }, caliber_mark());
    lemma_classified_keeps(text, a.is_secondary);
    lemma_before_first_char(class.text, DAGGER);
    lemma_ballistics_keeps(daggered.text);
    assert(!daggered.text.contains(DAGGER));
}

/// A caliber text without a closing span tag gives a caliber that holds
/// neither a five-lobed glyph nor a dagger: the tags and marks have all
/// left it.
pub proof fn lemma_caliber_clean(a: ArmamentView, source: Seq<char>, overrides: OverridesView)
    requires
        !occurs_in(SPAN_CLOSE_PATTERN@, caliber_opened(a, source, overrides).text),
    ensures
        !caliber_sanitized(a, source, overrides).caliber.contains(FIVE_LOBED_ASTERISK),
        !caliber_sanitized(a, source, overrides).caliber.contains(DAGGER),
{
    let draft = caliber_opened(a, source, overrides);
    let chain = if a.is_secondary {
        overrides.sa.text
    } else {
        overrides.ma.text
    };
    let start = TaggedTextView { text: gun_text(source, chain), note: NoteView::unset() };
    lemma_asterisk_rules_clean(start);
    assert(draft.text == asterisk_rules(start).text);
    lemma_caliber_without_marks(draft.arm, draft.text, draft.alternate);
}

/// Reading a clean caliber again attaches nothing: a text that holds no
/// five-lobed glyph, no dagger and no closing span tag, read as the caliber
/// of a new armament without overrides, matches none of the tag rules, and
/// both notes stay unset.
pub proof fn lemma_clean_caliber_rests(caliber: Seq<char>, secondary: bool)
    requires
        !caliber.contains(FIVE_LOBED_ASTERISK),
        !caliber.contains(DAGGER),
        !occurs_in(SPAN_CLOSE_PATTERN@, caliber),
    ensures
        asterisk_rules(TaggedTextView { text: caliber, note: NoteView::unset() }) == (
        TaggedTextView { text: caliber, note: NoteView::unset() }),
        caliber_sanitized(
            ArmamentView { is_secondary: secondary, ..ArmamentView::blank() },
            caliber,
            OverridesView::empty(),
        ).caliber_note == NoteView::unset(),
        caliber_sanitized(
            ArmamentView { is_secondary: secondary, ..ArmamentView::blank() },
            caliber,
            OverridesView::empty(),
        ).underline_note == NoteView::unset(),
{
    let a = ArmamentView { is_secondary: secondary, ..ArmamentView::blank() };
    let start = TaggedTextView { text: caliber, note: NoteView::unset() };
    assert(directives_of(entries_of(Seq::<char>::empty(), MOD_DELIMITER2)).len() == 0);
    assert(gun_text(caliber, Seq::empty()) == caliber);
    lemma_asterisk_rules_rest(start);
    reveal_strlit("[_*]");
    assert(UNDERLINED_CALIBER_NOTE_TAG@[2] == '*');
    lemma_absent_char(caliber, UNDERLINED_CALIBER_NOTE_TAG@, '*');
    let draft = caliber_opened(a, caliber, OverridesView::empty());
    assert(draft.text == caliber);
    assert(draft.arm.caliber_note == NoteView::unset());
    assert(draft.arm.underline_note == NoteView::unset());
    lemma_classified_keeps(caliber, secondary);
}

} // verus!
