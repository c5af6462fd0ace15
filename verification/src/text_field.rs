//! A field of a counter as it is drawn: its text, colour, footnote mark,
//! placement and font metrics.

use vstd::prelude::*;
use crate::colors::{Colors, RED};
use crate::directive::{directives_of, tokenize, Directive, DirectiveView};
use crate::metrics::METRIC_LIMIT;
use crate::overrides::{
    MOD_DELIMITER2, MOD_INC_SIZE, MOD_NOTES_INFIX, MOD_NOTES_POSTFIX, MOD_NOTES_PREFIX,
};
use crate::scan::{contains_text, to_chars};
use crate::tags::{substitute_tags, substituted, TaggedTextView};
use crate::text::{occurs_in, replaced};
use crate::utils::{
    convert_superscripts, convert_text, entries_of, strip_bold_span, unbolded, with_superscripts,
};

verus! {

pub const FONT_MAIN: &'static str = "Nimbus Sans L";

pub const FONT_ALT: &'static str = "Nimbus Sans L";

pub const FONT_WEIGHT_BOLD: &'static str = "font-weight:bold";

pub const FONT_WEIGHT_NORM: &'static str = "font-weight:normal";

pub const FONT_NORMAL: usize = 0;

pub const FONT_UNDERLINED: usize = 1;

pub const FONT_OVERLINED: usize = 2;

pub const FONT_BOTHLINED: usize = 3;

pub const FONT_ALT_NORMAL: usize = 4;

pub const FONT_ALT_UNDERLINED: usize = 5;

pub const FONT_ALT_OVERLINED: usize = 6;

pub const FONT_ALT_BOTHLINED: usize = 7;

/// Font size.
pub const FA_SIZE: usize = 0;

/// Font size of a superscript.
pub const FA_SUP_SIZE: usize = 1;

/// Where the baseline lies in the bounding box, in hundredths of a percent.
pub const FA_Y_PERCENTAGE: usize = 2;

/// Height that the element takes in the gun column.
pub const FA_HEIGHT: usize = 3;

/// Metrics of a field that has none yet: every variant is a placeholder.
pub const NO_FONTS: [[i64; 4]; 8] = [
    [0, 0, 0, 0],
    [0, 0, 0, 0],
    [0, 0, 0, 0],
    [0, 0, 0, 0],
    [0, 0, 0, 0],
    [0, 0, 0, 0],
    [0, 0, 0, 0],
    [0, 0, 0, 0],
];

/// Metrics for range and special ammunition.
pub const RANGE_FONTS: [[i64; 4]; 8] = [
    [840, 600, 0, 780],
    [0, 0, 0, 0],
    [0, 0, 0, 0],
    [0, 0, 0, 0],
    [0, 0, 0, 0],
    [0, 0, 0, 0],
    [0, 0, 0, 0],
    [0, 0, 0, 0],
];

pub const FIXED_BMG_FONT_SIZE: i64 = 1440;

pub const MOTORCYCLE_FONT_SIZE: i64 = 900;

pub const MGS_SIX_LOBED_ASTERISK_FONT_SIZE: i64 = 420;

pub const RANGE_FONT_SIZE: i64 = 840;

pub const SPECIAL_AMMO_FONT_SIZE: i64 = 900;

pub const SPECIAL_AMMO_SUPERSCRIPT_FONT_SIZE: i64 = 600;

pub const BREAKDOWN_NOTE_FONT_POS_DELTA: i64 = 120;

pub const LOW_AMMO_BREAKDOWN_FONT_NEG_DELTA: i64 = 120;

pub const TRANSPORT_SUPERSCRIPT_FONT_SIZE: i64 = 480;

pub const NAME_FONT_SIZE: i64 = 600;

pub const SIX_LOBED_ASTERISK_FONT_SIZE: i64 = 480;

pub const MGS_SIX_LOBED_ASTERISK_FONT_SIZE_STR: &'static str = "4.2";

pub const SIX_LOBED_ASTERISK_FONT_SIZE_STR: &'static str = "4.8";

pub const DAGGER: char = '†';

pub const STAR: char = '★';

pub const CIRCLE: char = '●';

pub const FIVE_LOBED_ASTERISK: char = '*';

pub const FIVE_LOBED_ASTERISK_UC: &'static str = "&#x002A;";

pub const SIX_LOBED_ASTERISK: char = '✽';

pub const SIX_LOBED_ASTERISK_UC: &'static str = "&#x273D;";

pub const COLON: char = ':';

pub const COMMA: char = ',';

pub const SPACE: char = ' ';

pub const SUPER: char = '^';

pub const MINUS: char = '-';

pub const EQUALS: char = '=';

pub const UNDERLINE: char = '_';

pub const RAMP_DOT: char = '•';

/// Stands in a replacement for the field's original text.
pub const COPY_FIELD: &'static str = "$$";

/// An asterisk drawn in black whatever the field's colour.
pub const BLACK_ASTERISK_TAG: &'static str = "[b*]";

pub const BLACK_ASTERISK_SVG: &'static str =
    "<tspan style=\"font-family:Nimbus Sans L;fill:black;stroke:none\">&#x002A;</tspan>";

/// An asterisk drawn in white whatever the field's colour.
pub const WHITE_ASTERISK_TAG: &'static str = "[w*]";

pub const WHITE_ASTERISK_SVG: &'static str =
    "<tspan style=\"font-family:Nimbus Sans L;fill:white;stroke:none\">&#x002A;</tspan>";

pub const FIVE_LOBED_ASTERISK_TAG: &'static str = "[*]";

pub const FIVE_LOBED_ASTERISK_SVG: &'static str =
    "<tspan style=\"font-family:Nimbus Sans L\">&#x002A;</tspan>";

pub const UNDERLINED_CALIBER_NOTE_TAG: &'static str = "[_*]";

pub const SIX_LOBED_ASTERISK_TAG: &'static str = "<*>";

pub const SIX_LOBED_ASTERISK_SVG: &'static str =
    "<tspan style=\"font-family:Nimbus Sans L;font-weight:bold;font-size:4.8px\">&#x273D;</tspan>";

pub const SIX_LOBED_ASTERISK_SUPER_SVG: &'static str =
    "<tspan style=\"font-family:Nimbus Sans L;font-weight:bold;font-size:4.8px\" baseline-shift=\"super\">&#x273D;</tspan>";

pub const SIX_LOBED_ASTERISK_MG_SVG: &'static str =
    "<tspan style=\"font-family:Nimbus Sans L;font-weight:bold;font-size:4.2px\" baseline-shift=\"super\">&#x273D;</tspan>";

/// A six-lobed asterisk drawn in black whatever the field's colour.
pub const SIX_LOBED_BLACK_ASTERISK_TAG: &'static str = "<b*>";

pub const SIX_LOBED_BLACK_ASTERISK_SVG: &'static str =
    "<tspan style=\"font-family:Nimbus Sans L;font-weight:bold;fill:black;stroke:none\">&#x273D;</tspan>";

/// A six-lobed asterisk drawn in white whatever the field's colour.
pub const SIX_LOBED_WHITE_ASTERISK_TAG: &'static str = "<w*>";

pub const SIX_LOBED_WHITE_ASTERISK_SVG: &'static str =
    "<tspan style=\"font-family:Nimbus Sans L;font-weight:bold;fill:white;stroke:none\">&#x273D;</tspan>";

pub const SIX_LOBED_BLACK_ASTERISK_SUPER_SVG: &'static str =
    "<tspan style=\"font-family:Nimbus Sans L;font-weight:bold;fill:black;stroke:none\" baseline-shift=\"super\">&#x273D;</tspan>";

pub const CLOSE_TSPAN_SVG: &'static str = "</tspan>";

pub const CALIBER_FONT_FAMILY_SVG: &'static str = "<tspan style=\"font-family:Nimbus Sans L\">";

/// Stands for the star of an unarmoured target.
pub const UNARMORED_TAG: &'static str = "<^>";

pub const PROCESS_ASTERISK_TAGS: bool = true;

pub const LEAVE_ASTERISK_TAGS: bool = false;

/// Where a footnote mark goes relative to its field.
#[derive(PartialEq, Eq, Structural, Clone, Copy, Debug)]
pub enum NoteAction {
    /// No mark has been attached.
    Unset,
    Postfix,
    Prefix,
    /// Placed by whatever draws the field.
    Infix,
    Delete,
}

impl Default for NoteAction {
    fn default() -> (r: Self)
        ensures
            r == NoteAction::Unset,
    {
        NoteAction::Unset
    }
}

impl NoteAction {
    /// The name of the action.
    pub fn name(&self) -> (r: String)
        ensures
            r@ == match *self {
                NoteAction::Unset => "None"@,
                NoteAction::Postfix => "Postfix"@,
                NoteAction::Prefix => "Prefix"@,
                NoteAction::Infix => "Infix"@,
                NoteAction::Delete => "Delete"@,
            },
    {
        match self {
            NoteAction::Unset => "None".to_string(),
            NoteAction::Postfix => "Postfix".to_string(),
            NoteAction::Prefix => "Prefix".to_string(),
            NoteAction::Infix => "Infix".to_string(),
            NoteAction::Delete => "Delete".to_string(),
        }
    }
}

/// The action that `value` asks for: the first of `post`, `pre` and `in`
/// that occurs in it.
pub open spec fn action_of(value: Seq<char>) -> NoteAction {
    if occurs_in(MOD_NOTES_POSTFIX@, value) {
        NoteAction::Postfix
    } else if occurs_in(MOD_NOTES_PREFIX@, value) {
        NoteAction::Prefix
    } else if occurs_in(MOD_NOTES_INFIX@, value) {
        NoteAction::Infix
    } else {
        NoteAction::Unset
    }
}

pub fn string_to_action(value: &String) -> (action: NoteAction)
    ensures
        action == action_of(value@),
{
    let v = to_chars(value.as_str());
    if contains_text(&v, &to_chars(MOD_NOTES_POSTFIX)) {
        NoteAction::Postfix
    } else if contains_text(&v, &to_chars(MOD_NOTES_PREFIX)) {
        NoteAction::Prefix
    } else if contains_text(&v, &to_chars(MOD_NOTES_INFIX)) {
        NoteAction::Infix
    } else {
        NoteAction::Unset
    }
}

/// What a `Note` holds.
pub struct NoteView {
    pub action: NoteAction,
    pub text: Seq<char>,
}

/// A footnote mark: the fragment to draw and where it goes. A field has at
/// most one.
#[derive(Debug)]
pub struct Note {
    pub action: NoteAction,
    pub text: String,
}

impl View for Note {
    type V = NoteView;

    open spec fn view(&self) -> NoteView {
        NoteView { action: self.action, text: self.text@ }
    }
}

impl Clone for Note {
    fn clone(&self) -> (r: Self)
        ensures
            r@ == self@,
    {
        Note { action: self.action, text: self.text.clone() }
    }
}

impl Default for Note {
    fn default() -> (r: Self)
        ensures
            r@ == NoteView::unset(),
    {
        Note { action: NoteAction::Unset, text: String::new() }
    }
}

impl NoteView {
    /// No mark.
    pub open spec fn unset() -> NoteView {
        NoteView { action: NoteAction::Unset, text: Seq::empty() }
    }

    /// The mark that the tag in `note` names, with action `act`: the first
    /// of the five-lobed, six-lobed, black six-lobed, black and white tags
    /// that occurs in `note`; without any, the bare six-lobed glyph for a
    /// deletion and the five-lobed mark otherwise.
    pub open spec fn named(note: Seq<char>, act: NoteAction) -> NoteView {
        NoteView {
            action: act,
            text: if occurs_in(FIVE_LOBED_ASTERISK_TAG@, note) {
                FIVE_LOBED_ASTERISK_SVG@
            } else if occurs_in(SIX_LOBED_ASTERISK_TAG@, note) {
                SIX_LOBED_ASTERISK_SVG@
            } else if occurs_in(SIX_LOBED_BLACK_ASTERISK_TAG@, note) {
                SIX_LOBED_BLACK_ASTERISK_SVG@
            } else if occurs_in(BLACK_ASTERISK_TAG@, note) {
                BLACK_ASTERISK_SVG@
            } else if occurs_in(WHITE_ASTERISK_TAG@, note) {
                WHITE_ASTERISK_SVG@
            } else if act == NoteAction::Delete {
                SIX_LOBED_ASTERISK_UC@
            } else {
                FIVE_LOBED_ASTERISK_SVG@
            },
        }
    }
}

impl Note {
    /// A mark with the given action and fragment.
    pub fn new(action: NoteAction, text: &str) -> (r: Note)
        ensures
            r@ == (NoteView { action: action, text: text@ }),
    {
        Note { action: action, text: text.to_string() }
    }

    pub fn initialize(&mut self, note: &str, act: NoteAction)
        ensures
            final(self)@ == NoteView::named(note@, act),
    {
        let n = to_chars(note);
        self.action = act;
        if contains_text(&n, &to_chars(FIVE_LOBED_ASTERISK_TAG)) {
            self.text = FIVE_LOBED_ASTERISK_SVG.to_string();
        } else if contains_text(&n, &to_chars(SIX_LOBED_ASTERISK_TAG)) {
            self.text = SIX_LOBED_ASTERISK_SVG.to_string();
        } else if contains_text(&n, &to_chars(SIX_LOBED_BLACK_ASTERISK_TAG)) {
            self.text = SIX_LOBED_BLACK_ASTERISK_SVG.to_string();
        } else if contains_text(&n, &to_chars(BLACK_ASTERISK_TAG)) {
            self.text = BLACK_ASTERISK_SVG.to_string();
        } else if contains_text(&n, &to_chars(WHITE_ASTERISK_TAG)) {
            self.text = WHITE_ASTERISK_SVG.to_string();
        } else {
            match self.action {
                NoteAction::Delete => {
                    self.text = SIX_LOBED_ASTERISK_UC.to_string();
                },
                _ => {
                    self.text = FIVE_LOBED_ASTERISK_SVG.to_string();
                },
            }
        }
    }
}

/// Every attribute of every variant lies between zero and `METRIC_LIMIT`.
pub open spec fn table_in_range(table: [[i64; 4]; 8]) -> bool {
    forall|i: int, j: int|
        0 <= i < 8 && 0 <= j < 4 ==> 0 <= (#[trigger] table[i][j]) <= METRIC_LIMIT
}

/// A variant whose attributes are all zero stands for "not applicable".
pub open spec fn is_placeholder(row: [i64; 4]) -> bool {
    row[0] == 0 && row[1] == 0 && row[2] == 0 && row[3] == 0
}

/// An attribute after a change of `delta`: a growth is applied and stops at
/// `METRIC_LIMIT`; a reduction is applied only where it leaves the attribute
/// above zero.
pub open spec fn adjusted_cell(cell: int, delta: int) -> int {
    if delta > 0 {
        if cell + delta > METRIC_LIMIT {
            METRIC_LIMIT as int
        } else {
            cell + delta
        }
    } else if -delta < cell {
        cell + delta
    } else {
        cell
    }
}

/// `after` is `before` with attribute `col` of every variant changed by
/// `delta`.
pub open spec fn table_adjusted(
    before: [[i64; 4]; 8],
    after: [[i64; 4]; 8],
    col: int,
    delta: int,
) -> bool {
    forall|i: int, j: int|
        0 <= i < 8 && 0 <= j < 4 ==> (#[trigger] after[i][j]) == if j == col {
            adjusted_cell(before[i][j] as int, delta)
        } else {
            before[i][j] as int
        }
}

/// The rows of a metrics table as numbers.
pub open spec fn table_view(table: [[i64; 4]; 8]) -> Seq<Seq<int>> {
    Seq::new(8, |i: int| Seq::new(4, |j: int| table[i][j] as int))
}

/// The table `t` with attribute `col` of every variant changed by `delta`.
pub open spec fn adjusted_table(t: Seq<Seq<int>>, col: int, delta: int) -> Seq<Seq<int>> {
    Seq::new(
        8,
        |i: int|
            Seq::new(
                4,
                |j: int|
                    if j == col {
                        adjusted_cell(t[i][j], delta)
                    } else {
                        t[i][j]
                    },
            ),
    )
}

/// What a `FontsObj` holds.
pub struct FontsView {
    pub selected_font: int,
    pub fonts: Seq<Seq<int>>,
}

impl FontsView {
    /// The size of the selected variant.
    pub open spec fn size(self) -> int {
        self.fonts[self.selected_font][FA_SIZE as int]
    }

    /// The superscript size of the selected variant.
    pub open spec fn sup_size(self) -> int {
        self.fonts[self.selected_font][FA_SUP_SIZE as int]
    }

    /// The baseline percentage of the selected variant.
    pub open spec fn y_percentage(self) -> int {
        self.fonts[self.selected_font][FA_Y_PERCENTAGE as int]
    }

    /// The height of the selected variant.
    pub open spec fn height(self) -> int {
        self.fonts[self.selected_font][FA_HEIGHT as int]
    }
}

/// The font metrics of a field: one row of four attributes for each of the
/// eight variants, and the variant in use.
#[derive(Clone, Copy, Debug)]
pub struct FontsObj {
    pub selected_font: usize,
    pub fonts: [[i64; 4]; 8],
}

impl Default for FontsObj {
    fn default() -> (r: Self)
        ensures
            r.selected_font == FONT_NORMAL,
            r.fonts == NO_FONTS,
            r.well_formed(),
    {
        FontsObj { selected_font: FONT_NORMAL, fonts: NO_FONTS }
    }
}

impl View for FontsObj {
    type V = FontsView;

    open spec fn view(&self) -> FontsView {
        FontsView { selected_font: self.selected_font as int, fonts: table_view(self.fonts) }
    }
}

impl FontsObj {
    /// The selected variant exists and every attribute is in range.
    pub open spec fn well_formed(&self) -> bool {
        self.selected_font < 8 && table_in_range(self.fonts)
    }

    /// Whether the selected variant exists and every attribute is in
    /// range.
    pub fn check_well_formed(&self) -> (r: bool)
        ensures
            r == self.well_formed(),
    {
        if self.selected_font >= 8 {
            return false;
        }
        let mut i: usize = 0;
        while i < 8
            invariant
                i <= 8,
                forall|a: int, b: int|
                    0 <= a < i && 0 <= b < 4 ==> 0 <= (#[trigger] self.fonts[a][b])
                        <= METRIC_LIMIT,
            decreases 8 - i,
        {
            let row = self.fonts[i];
            let mut j: usize = 0;
            while j < 4
                invariant
                    i < 8,
                    j <= 4,
                    row == self.fonts[i as int],
                    forall|b: int| 0 <= b < j ==> 0 <= (#[trigger] row[b]) <= METRIC_LIMIT,
                decreases 4 - j,
            {
                if row[j] < 0 || row[j] > METRIC_LIMIT {
                    assert(!(0 <= self.fonts[i as int][j as int] <= METRIC_LIMIT));
                    return false;
                }
                j = j + 1;
            }
            i = i + 1;
        }
        true
    }

    /// The selected variant is applicable: it is no placeholder.
    pub open spec fn selection_applies(&self) -> bool {
        self.selected_font < 8 && !is_placeholder(self.fonts[self.selected_font as int])
    }

    pub fn copy(&mut self, source: &FontsObj)
        ensures
            *final(self) == *source,
    {
        self.selected_font = source.selected_font;
        self.fonts = source.fonts;
    }

    pub fn initialize(&mut self, source: [[i64; 4]; 8])
        ensures
            final(self).selected_font == FONT_NORMAL,
            final(self).fonts == source,
    {
        self.selected_font = FONT_NORMAL;
        self.fonts = source;
    }

    /// Selects `variant` where it is applicable, and says whether it did.
    pub fn select(&mut self, variant: usize) -> (selected: bool)
        ensures
            selected == (variant < 8 && !is_placeholder(old(self).fonts[variant as int])),
            final(self).fonts == old(self).fonts,
            final(self).selected_font == if selected {
                variant
            } else {
                old(self).selected_font
            },
    {
        if variant >= 8 {
            return false;
        }
        let row = self.fonts[variant];
        if row[0] == 0 && row[1] == 0 && row[2] == 0 && row[3] == 0 {
            return false;
        }
        self.selected_font = variant;
        true
    }

    pub fn size(self) -> (r: i64)
        requires
            self.selected_font < 8,
        ensures
            r == self@.size(),
    {
        self.fonts[self.selected_font][FA_SIZE]
    }

    pub fn sup_size(self) -> (r: i64)
        requires
            self.selected_font < 8,
        ensures
            r == self@.sup_size(),
    {
        self.fonts[self.selected_font][FA_SUP_SIZE]
    }

    pub fn y_percentage(self) -> (r: i64)
        requires
            self.selected_font < 8,
        ensures
            r == self@.y_percentage(),
    {
        self.fonts[self.selected_font][FA_Y_PERCENTAGE]
    }

    pub fn height(self) -> (r: i64)
        requires
            self.selected_font < 8,
        ensures
            r == self@.height(),
    {
        self.fonts[self.selected_font][FA_HEIGHT]
    }

    pub fn adjust_size(&mut self, delta: i64)
        ensures
            final(self)@ == (FontsView {
                fonts: adjusted_table(old(self)@.fonts, FA_SIZE as int, delta as int),
                ..old(self)@
            }),
            table_in_range(old(self).fonts) ==> table_in_range(final(self).fonts),
    {
        self.adjust(delta, FA_SIZE);
    }

    pub fn adjust_sup_size(&mut self, delta: i64)
        ensures
            final(self)@ == (FontsView {
                fonts: adjusted_table(old(self)@.fonts, FA_SUP_SIZE as int, delta as int),
                ..old(self)@
            }),
            table_in_range(old(self).fonts) ==> table_in_range(final(self).fonts),
    {
        self.adjust(delta, FA_SUP_SIZE);
    }

    pub fn adjust_y_percentage(&mut self, delta: i64)
        ensures
            final(self)@ == (FontsView {
                fonts: adjusted_table(old(self)@.fonts, FA_Y_PERCENTAGE as int, delta as int),
                ..old(self)@
            }),
            table_in_range(old(self).fonts) ==> table_in_range(final(self).fonts),
    {
        self.adjust(delta, FA_Y_PERCENTAGE);
    }

    pub fn adjust_height(&mut self, delta: i64)
        ensures
            final(self)@ == (FontsView {
                fonts: adjusted_table(old(self)@.fonts, FA_HEIGHT as int, delta as int),
                ..old(self)@
            }),
            table_in_range(old(self).fonts) ==> table_in_range(final(self).fonts),
    {
        self.adjust(delta, FA_HEIGHT);
    }

    fn adjust(&mut self, delta: i64, col: usize)
        requires
            col < 4,
        ensures
            final(self)@ == (FontsView {
                fonts: adjusted_table(old(self)@.fonts, col as int, delta as int),
                ..old(self)@
            }),
            table_in_range(old(self).fonts) ==> table_in_range(final(self).fonts),
    {
        let mut idx: usize = FONT_NORMAL;
        while idx <= FONT_ALT_BOTHLINED
            invariant
                idx <= 8,
                col < 4,
                self.selected_font == old(self).selected_font,
                forall|i: int, j: int|
                    0 <= i < 8 && 0 <= j < 4 ==> (#[trigger] self.fonts[i][j]) == if j == col && i
                        < idx {
                        adjusted_cell(old(self).fonts[i][j] as int, delta as int)
                    } else {
                        old(self).fonts[i][j] as int
                    },
            decreases 8 - idx,
        {
            let mut row = self.fonts[idx];
            let cell: i64 = row[col];
            let changed: i64 = if delta > 0 {
                if cell > METRIC_LIMIT - delta {
                    METRIC_LIMIT
                } else {
                    cell + delta
                }
            } else if cell > 0 && delta > -cell {
                cell + delta
            } else {
                cell
            };
            row[col] = changed;
            self.fonts[idx] = row;
            idx = idx + 1;
        }
        assert(self@.fonts =~~= adjusted_table(old(self)@.fonts, col as int, delta as int));
        proof {
            if_in_range(old(self).fonts, self.fonts, col, delta);
        }
    }
}

/// A change of one attribute keeps a table in range.
proof fn if_in_range(before: [[i64; 4]; 8], after: [[i64; 4]; 8], col: usize, delta: i64)
    requires
        col < 4,
        table_adjusted(before, after, col as int, delta as int),
    ensures
        table_in_range(before) ==> table_in_range(after),
{
    if table_in_range(before) {
        assert forall|i: int, j: int| 0 <= i < 8 && 0 <= j < 4 implies 0 <= (
        #[trigger] after[i][j]) <= METRIC_LIMIT by {
            assert(0 <= before[i][j] <= METRIC_LIMIT);
        }
    }
}

/// How an underlined span is styled.
pub const UNDERLINE_STYLE: &'static str = "text-decoration:underline";

/// How an overlined span is styled.
pub const OVERLINE_STYLE: &'static str = "text-decoration:overline";

/// The decoration that the spans of `text` call for: the normal, the
/// underlined, the overlined or the bothlined variant.
pub open spec fn decoration_of(text: Seq<char>) -> int {
    if occurs_in(UNDERLINE_STYLE@, text) && occurs_in(OVERLINE_STYLE@, text) {
        FONT_BOTHLINED as int
    } else if occurs_in(OVERLINE_STYLE@, text) {
        FONT_OVERLINED as int
    } else if occurs_in(UNDERLINE_STYLE@, text) {
        FONT_UNDERLINED as int
    } else {
        FONT_NORMAL as int
    }
}

/// The decoration that the spans of `text` call for.
pub fn find_decoration(text: &String) -> (r: usize)
    ensures
        r == decoration_of(text@),
        r < 4,
{
    let t = to_chars(text.as_str());
    let under = contains_text(&t, &to_chars(UNDERLINE_STYLE));
    let over = contains_text(&t, &to_chars(OVERLINE_STYLE));
    if under && over {
        FONT_BOTHLINED
    } else if over {
        FONT_OVERLINED
    } else if under {
        FONT_UNDERLINED
    } else {
        FONT_NORMAL
    }
}

/// The variant that a field with `text` is drawn in: the decorated variant
/// that its spans call for where the table has it, the normal one where
/// that variant is a placeholder.
pub open spec fn decorated_variant(text: Seq<char>, fonts: Seq<Seq<int>>) -> int {
    let d = decoration_of(text);
    if fonts[d][0] == 0 && fonts[d][1] == 0 && fonts[d][2] == 0 && fonts[d][3] == 0 {
        FONT_NORMAL as int
    } else {
        d
    }
}

/// The two inline conversions of asterisk tags: the five-lobed tag becomes
/// its glyph and the six-lobed tag its superscript span.
pub open spec fn inline_marks(text: Seq<char>) -> Seq<char> {
    replaced(
        replaced(text, FIVE_LOBED_ASTERISK_TAG@, FIVE_LOBED_ASTERISK_UC@),
        SIX_LOBED_ASTERISK_TAG@,
        SIX_LOBED_ASTERISK_SUPER_SVG@,
    )
}

/// What a `TextField` holds.
pub struct TextFieldView {
    pub is_set: bool,
    pub text: Seq<char>,
    pub color: Seq<char>,
    pub note: NoteView,
    pub alternate_location: Seq<char>,
    pub fonts: FontsView,
}

/// A field ready to be drawn.
#[derive(Debug)]
pub struct TextField {
    pub is_set: bool,
    pub text: String,
    pub color: String,
    pub note: Note,
    pub alternate_location: String,
    pub fonts: FontsObj,
}

impl View for TextField {
    type V = TextFieldView;

    open spec fn view(&self) -> TextFieldView {
        TextFieldView {
            is_set: self.is_set,
            text: self.text@,
            color: self.color@,
            note: self.note@,
            alternate_location: self.alternate_location@,
            fonts: self.fonts@,
        }
    }
}

impl TextFieldView {
    /// An empty field with the metrics of `table`.
    pub open spec fn blank(table: [[i64; 4]; 8]) -> TextFieldView {
        TextFieldView {
            is_set: false,
            text: Seq::empty(),
            color: Seq::empty(),
            note: NoteView::unset(),
            alternate_location: Seq::empty(),
            fonts: FontsView { selected_font: FONT_NORMAL as int, fonts: table_view(table) },
        }
    }

    /// The field after one directive. A replacement sets the text, with
    /// `base` in place of each copy-field sentinel; a size change is applied
    /// to every variant; a location, named or not, moves the field.
    pub open spec fn directed(self, d: DirectiveView, base: Seq<char>) -> TextFieldView {
        match d {
            DirectiveView::FieldReplace(t) => TextFieldView {
                text: replaced(t, COPY_FIELD@, base),
                ..self
            },
            DirectiveView::SizeDelta(v) => TextFieldView {
                fonts: FontsView {
                    fonts: adjusted_table(self.fonts.fonts, FA_SIZE as int, v),
                    ..self.fonts
                },
                ..self
            },
            DirectiveView::AlternateLocation(l) => TextFieldView { alternate_location: l, ..self },
            DirectiveView::Unrecognized(l) => TextFieldView { alternate_location: l, ..self },
        }
    }

    /// The field after the directives `ds`, applied from left to right.
    pub open spec fn directed_all(self, ds: Seq<DirectiveView>, base: Seq<char>) -> TextFieldView
        decreases ds.len(),
    {
        if ds.len() == 0 {
            self
        } else {
            self.directed_all(ds.subrange(0, ds.len() - 1), base).directed(ds[ds.len() - 1], base)
        }
    }

    /// Directives change the text, the sizes and the location of a field,
    /// and nothing else.
    pub proof fn lemma_directed_all_keeps(self, ds: Seq<DirectiveView>, base: Seq<char>)
        ensures
            self.directed_all(ds, base).is_set == self.is_set,
            self.directed_all(ds, base).color == self.color,
            self.directed_all(ds, base).note == self.note,
            self.directed_all(ds, base).fonts.selected_font == self.fonts.selected_font,
        decreases ds.len(),
    {
        if ds.len() > 0 {
            self.lemma_directed_all_keeps(ds.subrange(0, ds.len() - 1), base);
        }
    }

    /// The field after the chain `overrides`, with its own text as the
    /// original: unchanged where the chain is empty; else every directive
    /// is applied, the asterisk tags are converted in place where
    /// `convert` asks for it, and the field counts as set.
    pub open spec fn processed(self, overrides: Seq<char>, convert: bool) -> TextFieldView {
        let ds = directives_of(entries_of(overrides, MOD_DELIMITER2));
        if ds.len() == 0 {
            self
        } else {
            let d = self.directed_all(ds, self.text);
            TextFieldView {
                is_set: true,
                text: if convert {
                    inline_marks(d.text)
                } else {
                    d.text
                },
                ..d
            }
        }
    }
}

/// The field that is built from the text `base`, the directive chain
/// `overrides`, the metrics `table` and the colour `color`, where `mark` is
/// what a dagger stands for. The directives are applied to the text and the
/// metrics; the tags are substituted; a bold span is taken out and turns the
/// field red; the decoration of the spans selects the variant; superscripts
/// become spans of the variant's superscript size. Building does not mark
/// the field as set.
pub open spec fn built(
    base: Seq<char>,
    overrides: Seq<char>,
    table: [[i64; 4]; 8],
    color: Seq<char>,
    mark: NoteView,
) -> TextFieldView {
    let start = TextFieldView { text: base, color: color, ..TextFieldView::blank(table) };
    let directed = start.directed_all(directives_of(entries_of(overrides, MOD_DELIMITER2)), base);
    let sub = substituted(TaggedTextView { text: directed.text, note: NoteView::unset() }, mark);
    let plain = unbolded(sub.text);
    let variant = decorated_variant(plain, directed.fonts.fonts);
    TextFieldView {
        text: with_superscripts(plain, directed.fonts.fonts[variant][FA_SUP_SIZE as int]),
        color: if occurs_in("<b>"@, sub.text) {
            RED@
        } else {
            color
        },
        note: sub.note,
        fonts: FontsView { selected_font: variant, fonts: directed.fonts.fonts },
        ..directed
    }
}

pub trait TextFieldTraits {
    fn initialize(&mut self, source: &TextField);

    fn process_overrides(&mut self, overrides: &String, convert_asterisk_tags: bool);

    fn sanitize(&mut self, source: &String, overrides: &String, fonts: [[i64; 4]; 8], colors: &Colors);
}

impl Default for TextField {
    fn default() -> (r: Self)
        ensures
            r@ == TextFieldView::blank(NO_FONTS),
            r.fonts.well_formed(),
    {
        let r = TextField {
            is_set: false,
            text: String::new(),
            color: String::new(),
            note: Note::default(),
            alternate_location: String::new(),
            fonts: FontsObj::default(),
        };
        assert(r@.fonts.fonts =~~= table_view(NO_FONTS));
        r
    }
}

impl Clone for TextField {
    fn clone(&self) -> (r: Self)
        ensures
            r@ == self@,
            r.fonts == self.fonts,
    {
        TextField {
            is_set: self.is_set,
            text: self.text.clone(),
            color: self.color.clone(),
            note: self.note.clone(),
            alternate_location: self.alternate_location.clone(),
            fonts: self.fonts,
        }
    }
}

impl TextField {
    /// Applies one directive, with `base` as the original text.
    pub fn apply_directive(&mut self, d: &Directive, base: &String)
        ensures
            final(self)@ == old(self)@.directed(d@, base@),
            table_in_range(old(self).fonts.fonts) ==> table_in_range(final(self).fonts.fonts),
            final(self).fonts.selected_font == old(self).fonts.selected_font,
    {
        match d {
            Directive::FieldReplace(t) => {
                self.text = convert_text(t, COPY_FIELD, base.as_str());
            },
            Directive::SizeDelta(v) => {
                self.fonts.adjust_size(*v);
            },
            Directive::AlternateLocation(l) => {
                self.alternate_location = l.clone();
            },
            Directive::Unrecognized(l) => {
                self.alternate_location = l.clone();
            },
        }
    }

    /// Applies the directives of the chain `overrides`, with `base` as the
    /// original text.
    pub fn apply_chain(&mut self, overrides: &String, base: &String) -> (count: usize)
        ensures
            count == entries_of(overrides@, MOD_DELIMITER2).len(),
            final(self)@ == old(self)@.directed_all(
                directives_of(entries_of(overrides@, MOD_DELIMITER2)),
                base@,
            ),
            table_in_range(old(self).fonts.fonts) ==> table_in_range(final(self).fonts.fonts),
            final(self).fonts.selected_font == old(self).fonts.selected_font,
    {
        let directives = tokenize(overrides);
        let ghost ds = directives_of(entries_of(overrides@, MOD_DELIMITER2));
        let mut i: usize = 0;
        assert(ds.subrange(0, 0) =~= Seq::<DirectiveView>::empty());
        while i < directives.len()
            invariant
                i <= directives.len(),
                directives@.map_values(|d: Directive| d@) == ds,
                self@ == old(self)@.directed_all(ds.subrange(0, i as int), base@),
                table_in_range(old(self).fonts.fonts) ==> table_in_range(self.fonts.fonts),
                self.fonts.selected_font == old(self).fonts.selected_font,
            decreases directives.len() - i,
        {
            let ghost upto = ds.subrange(0, i + 1);
            assert(upto.subrange(0, upto.len() - 1) =~= ds.subrange(0, i as int));
            assert(upto[upto.len() - 1] == directives@[i as int]@);
            self.apply_directive(&directives[i], base);
            i = i + 1;
        }
        assert(ds.subrange(0, directives.len() as int) =~= ds);
        directives.len()
    }

    /// Builds a field from its original text, its directive chain, its
    /// metrics and the colours of its counter; `mark` is what a dagger
    /// stands for in the field's context.
    pub fn build(
        source: &String,
        overrides: &String,
        fonts: [[i64; 4]; 8],
        colors: &Colors,
        mark: &Note,
    ) -> (r: TextField)
        ensures
            r@ == built(source@, overrides@, fonts, colors.text@, mark@),
            r.fonts.selected_font < 4,
            table_in_range(fonts) ==> r.fonts.well_formed(),
    {
        let mut r = TextField::default();
        r.text = source.clone();
        r.color = colors.text.clone();
        r.fonts.initialize(fonts);
        let ghost start = TextFieldView {
            text: source@,
            color: colors.text@,
            ..TextFieldView::blank(fonts)
        };
        assert(r@ == start);
        let _ = r.apply_chain(overrides, source);
        proof {
            start.lemma_directed_all_keeps(
                directives_of(entries_of(overrides@, MOD_DELIMITER2)),
                source@,
            );
        }
        let sub = substitute_tags(&r.text, mark);
        if contains_text(&to_chars(sub.text.as_str()), &to_chars("<b>")) {
            r.color = RED.to_owned();
        }
        let plain = strip_bold_span(sub.text.as_str());
        let ghost directed = r@;
        let decoration = find_decoration(&plain);
        proof {
            let row = table_view(r.fonts.fonts)[decoration as int];
            assert(row[0] == r.fonts.fonts[decoration as int][0]);
            assert(row[1] == r.fonts.fonts[decoration as int][1]);
            assert(row[2] == r.fonts.fonts[decoration as int][2]);
            assert(row[3] == r.fonts.fonts[decoration as int][3]);
        }
        let _ = r.fonts.select(decoration);
        assert(r.fonts@.selected_font == decorated_variant(plain@, directed.fonts.fonts));
        r.text = convert_superscripts(&plain, r.fonts.sup_size());
        r.note = sub.note;
        r
    }
}

impl TextFieldTraits for TextField {
    fn initialize(&mut self, source: &TextField)
        ensures
            final(self)@ == source@,
            final(self).fonts == source.fonts,
    {
        self.is_set = source.is_set;
        self.text = source.text.clone();
        self.color = source.color.clone();
        self.note = source.note.clone();
        self.fonts = source.fonts;
        self.alternate_location = source.alternate_location.clone();
    }

    fn process_overrides(&mut self, overrides: &String, convert_asterisk_tags: bool)
        ensures
            final(self)@ == old(self)@.processed(overrides@, convert_asterisk_tags),
            table_in_range(old(self).fonts.fonts) ==> table_in_range(final(self).fonts.fonts),
            final(self).fonts.selected_font == old(self).fonts.selected_font,
    {
        let base = self.text.clone();
        let count = self.apply_chain(overrides, &base);
        if count > 0 {
            if convert_asterisk_tags {
                let glyphs = convert_text(&self.text, FIVE_LOBED_ASTERISK_TAG, FIVE_LOBED_ASTERISK_UC);
                self.text = convert_text(&glyphs, SIX_LOBED_ASTERISK_TAG, SIX_LOBED_ASTERISK_SUPER_SVG);
            }
            self.is_set = true;
        }
    }

    fn sanitize(&mut self, source: &String, overrides: &String, fonts: [[i64; 4]; 8], colors: &Colors)
        ensures
            final(self)@ == (TextFieldView {
                is_set: old(self).is_set,
                ..built(source@, overrides@, fonts, colors.text@, NoteView::unset())
            }),
            final(self).fonts.selected_font < 4,
            table_in_range(fonts) ==> final(self).fonts.well_formed(),
    {
        let was_set = self.is_set;
        *self = TextField::build(source, overrides, fonts, colors, &Note::default());
        self.is_set = was_set;
    }
}

/// An empty chain holds no directive.
proof fn lemma_no_chain()
    ensures
        directives_of(entries_of(""@, MOD_DELIMITER2)) == Seq::<DirectiveView>::empty(),
{
    reveal_strlit("");
    assert(directives_of(entries_of(""@, MOD_DELIMITER2)) =~= Seq::<DirectiveView>::empty());
}

/// The chain `$$@sz+0` holds the copy-field sentinel as replacement and a
/// size change of nothing.
proof fn lemma_copy_chain()
    ensures
        directives_of(entries_of("$$@sz+0"@, MOD_DELIMITER2)) == seq![
            DirectiveView::FieldReplace(COPY_FIELD@),
            DirectiveView::SizeDelta(0),
        ],
{
    reveal_strlit("$$@sz+0");
    reveal_strlit("$$");
    reveal_strlit("sz+");
    reveal_strlit("sz-");
    let s = "$$@sz+0"@;
    let head = seq!['$', '$'];
    let tail = seq!['s', 'z', '+', '0'];
    assert(s =~= seq!['$', '$', '@', 's', 'z', '+', '0']);
    assert(s[2] == '@');
    assert(s.contains('@'));
    assert(s.subrange(0, 2) =~= head);
    assert(s.subrange(3, 7) =~= tail);
    assert(!head.contains('@'));
    assert(!tail.contains('@'));
    crate::text::lemma_first_char(s, '@', 2);
    crate::text::lemma_no_char(tail, '@');
    assert(crate::text::split_by(tail, '@') =~= seq![tail]);
    assert(crate::text::split_by(s, '@') =~= seq![head, tail]);
    assert(!crate::text::is_space('$'));
    assert(!crate::text::is_space('s'));
    assert(!crate::text::is_space('0'));
    assert(crate::text::trimmed(head) == head);
    assert(crate::text::trimmed(tail) == tail);
    let chain = entries_of(s, MOD_DELIMITER2);
    assert(chain =~= seq![head, tail]);
    assert(head =~= COPY_FIELD@);
    // The second entry asks for a size change of nothing.
    let inc = MOD_INC_SIZE@;
    assert(inc =~= seq!['s', 'z', '+']);
    assert(tail.subrange(0, 3) =~= inc);
    assert(crate::text::matches_at(tail, inc, 0));
    assert(occurs_in(inc, tail));
    assert(!tail.contains('|'));
    crate::text::lemma_no_char(tail, '|');
    assert(crate::text::split_by(tail, '|') =~= seq![tail]);
    let pieces = crate::text::split_by(tail, '|');
    assert(pieces.subrange(0, 0) =~= Seq::<Seq<char>>::empty());
    let zero = seq!['0'];
    assert(tail.subrange(3, 4) =~= zero);
    assert(crate::utils::last_value(pieces, inc) == zero);
    assert(crate::utils::value_for(tail, inc) == zero);
    assert(!zero.contains('.'));
    crate::text::lemma_no_char(zero, '.');
    assert(crate::text::split_once_at(zero, seq!['.']) is None);
    assert(zero.subrange(0, 0) =~= Seq::<char>::empty());
    assert(crate::metrics::digits_value(zero.subrange(0, 0)) == 0);
    assert(crate::metrics::digits_value(zero) == 0);
    assert(crate::metrics::all_digits(zero));
    assert(crate::metrics::decimal_hundredths(zero) == Some(0int));
    assert(crate::metrics::size_delta(zero) == 0);
    assert(crate::directive::directive_of(1, tail) == DirectiveView::SizeDelta(0));
    assert(crate::directive::directive_of(0, head) == DirectiveView::FieldReplace(head));
    assert(directives_of(chain) =~= seq![
        DirectiveView::FieldReplace(COPY_FIELD@),
        DirectiveView::SizeDelta(0),
    ]);
}

/// Replacing the copy-field sentinel in the sentinel alone gives the
/// original text.
proof fn lemma_copy_field_alone(base: Seq<char>)
    ensures
        replaced(COPY_FIELD@, COPY_FIELD@, base) == base,
{
    reveal_strlit("$$");
    let s = COPY_FIELD@;
    assert(s.subrange(0, 2) =~= s);
    assert(crate::text::matches_at(s, s, 0));
    let rest = s.subrange(2, 2);
    assert(rest.len() == 0);
    assert(replaced(rest, s, base) == rest);
    assert(base + rest =~= base);
}

/// Copy-field round trip: a field built from the chain `$$@sz+0` is the
/// field built from no chain. The sentinel stands for the original text as
/// it is, and a size change of nothing changes no size.
pub proof fn lemma_copy_field_round_trip(
    base: Seq<char>,
    table: [[i64; 4]; 8],
    color: Seq<char>,
    mark: NoteView,
)
    ensures
        built(base, "$$@sz+0"@, table, color, mark) == built(base, ""@, table, color, mark),
{
    lemma_no_chain();
    lemma_copy_chain();
    lemma_copy_field_alone(base);
    let start = TextFieldView { text: base, color: color, ..TextFieldView::blank(table) };
    let ds = seq![DirectiveView::FieldReplace(COPY_FIELD@), DirectiveView::SizeDelta(0)];
    let first = ds.subrange(0, 1);
    assert(first.subrange(0, 0) =~= Seq::<DirectiveView>::empty());
    assert(start.directed_all(first.subrange(0, 0), base) == start);
    assert(start.directed_all(first, base) == start.directed(ds[0], base));
    assert(ds.subrange(0, ds.len() - 1) =~= first);
    assert(start.directed(ds[0], base) == start);
    assert(adjusted_table(start.fonts.fonts, FA_SIZE as int, 0) =~~= start.fonts.fonts);
    assert(start.directed_all(ds, base) == start);
    assert(start.directed_all(Seq::<DirectiveView>::empty(), base) == start);
}

} // verus!
