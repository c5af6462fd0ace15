//! What a vehicle carries and tows.

use vstd::prelude::*;
use crate::armament::behind_first;
use crate::colors::Colors;
use crate::overrides::{DirectiveError, Overrides, OverridesView};
use crate::pattern::regex_replaced;
use crate::scan::{
    contains_char, contains_text, replace_text, slice_chars, split_text, to_chars, to_text,
};
use crate::text::{occurs_in, replaced, split_by};
use crate::text_field::{
    table_in_range, table_view, FontsView, Note, NoteAction, NoteView, TextField, TextFieldTraits,
    TextFieldView, DAGGER, FIVE_LOBED_ASTERISK_SVG, FIVE_LOBED_ASTERISK_TAG, FONT_NORMAL,
    FONT_UNDERLINED, NO_FONTS, PROCESS_ASTERISK_TAGS, TRANSPORT_SUPERSCRIPT_FONT_SIZE,
};
use crate::utils::{
    convert_superscripts, mask_closing_html_tags, note_pattern, note_settled, strip_daggered_note,
    with_superscripts,
};

verus! {

/// Metrics of the transport fields.
pub const TRANSPORT_FONTS: [[i64; 4]; 8] = [
    [800, 400, 9800, 600],
    [750, 400, 7300, 800],
    [800, 400, 9800, 800],
    [800, 400, 8000, 1000],
    [0, 0, 0, 0],
    [0, 0, 0, 0],
    [0, 0, 0, 0],
    [0, 0, 0, 0],
];

/// What a `TransportValues` holds.
pub struct TransportValuesView {
    pub pp: TextFieldView,
    pub towing: TextFieldView,
    pub manhandling_number: TextFieldView,
}

/// The passenger, towing and manhandling numbers of a vehicle.
#[derive(Debug)]
pub struct TransportValues {
    pub pp: TextField,
    pub towing: TextField,
    pub manhandling_number: TextField,
}

impl View for TransportValues {
    type V = TransportValuesView;

    open spec fn view(&self) -> TransportValuesView {
        TransportValuesView {
            pp: self.pp@,
            towing: self.towing@,
            manhandling_number: self.manhandling_number@,
        }
    }
}

impl TransportValuesView {
    /// What a new `TransportValues` holds.
    pub open spec fn blank() -> TransportValuesView {
        TransportValuesView {
            pp: TextFieldView::blank(NO_FONTS),
            towing: TextFieldView::blank(NO_FONTS),
            manhandling_number: TextFieldView::blank(NO_FONTS),
        }
    }
}

impl Default for TransportValues {
    fn default() -> (r: Self)
        ensures
            r@ == TransportValuesView::blank(),
    {
        TransportValues {
            pp: TextField::default(),
            towing: TextField::default(),
            manhandling_number: TextField::default(),
        }
    }
}

/// The metrics of a transport field, with the normal variant selected.
pub open spec fn transport_fonts() -> FontsView {
    FontsView { selected_font: FONT_NORMAL as int, fonts: table_view(TRANSPORT_FONTS) }
}

/// A transport field that shows `text`.
pub open spec fn shown(f: TextFieldView, text: Seq<char>, color: Seq<char>) -> TextFieldView {
    TextFieldView { is_set: true, text: text, color: color, fonts: transport_fonts(), ..f }
}

/// A transport field after its override: the chain is applied with the
/// field's text as the original, then colour and metrics are set anew.
pub open spec fn overridden(f: TextFieldView, chain: Seq<char>, color: Seq<char>) -> TextFieldView {
    if chain.len() > 0 {
        TextFieldView {
            color: color,
            fonts: transport_fonts(),
            ..f.processed(chain, PROCESS_ASTERISK_TAGS)
        }
    } else {
        f
    }
}

/// The numbers after one factor of the transport column: a factor that
/// holds `PP` is the passenger number, one that holds a `T` the towing
/// number, one that holds an `M` the manhandling number behind its first
/// character; an empty factor and any other change nothing.
pub open spec fn factored(v: TransportValuesView, factor: Seq<char>, color: Seq<char>) -> TransportValuesView {
    let value = replaced(factor, "<?"@, "</"@);
    if factor.len() == 0 {
        v
    } else if occurs_in("PP"@, factor) {
        TransportValuesView { pp: shown(v.pp, value, color), ..v }
    } else if occurs_in("T"@, factor) {
        TransportValuesView { towing: shown(v.towing, value, color), ..v }
    } else if occurs_in("M"@, factor) {
        TransportValuesView {
            manhandling_number: shown(v.manhandling_number, behind_first(value), color),
            ..v
        }
    } else {
        v
    }
}

/// The numbers after the factors `factors`, from left to right.
pub open spec fn factored_all(
    v: TransportValuesView,
    factors: Seq<Seq<char>>,
    color: Seq<char>,
) -> TransportValuesView
    decreases factors.len(),
{
    if factors.len() == 0 {
        v
    } else {
        factored(
            factored_all(v, factors.subrange(0, factors.len() - 1), color),
            factors[factors.len() - 1],
            color,
        )
    }
}

/// The transport column as it is cut into factors: its superscripts turned
/// into spans and its closing tags masked.
pub open spec fn transport_markup(plain: Seq<char>) -> Seq<char> {
    replaced(with_superscripts(plain, TRANSPORT_SUPERSCRIPT_FONT_SIZE as int), "</"@, "<?"@)
}

/// What `sanitize` makes of the numbers, on the column without its daggered
/// notes (`plain`): the factors of the column, then the overrides.
pub open spec fn transport_settled(
    before: TransportValuesView,
    plain: Seq<char>,
    overrides: OverridesView,
    color: Seq<char>,
) -> TransportValuesView {
    let read = factored_all(before, split_by(transport_markup(plain), '/'), color);
    TransportValuesView {
        pp: if overrides.pp_number_ignore {
            TextFieldView { is_set: false, text: Seq::empty(), ..read.pp }
        } else {
            overridden(read.pp, overrides.pp_number, color)
        },
        towing: overridden(read.towing, overrides.towing_number, color),
        manhandling_number: overridden(read.manhandling_number, overrides.manhandling, color),
    }
}

/// The mark that a dagger on a passenger number stands for.
pub open spec fn passenger_mark() -> NoteView {
    NoteView { action: NoteAction::Postfix, text: FIVE_LOBED_ASTERISK_SVG@ }
}

/// What `lc_sanitize` makes of the passenger number of a craft, on the
/// column `source` and the same without its daggered notes (`plain`). A
/// dagger attaches the mark. What is left of the column, where anything
/// is, is the number, underlined on a craft with a ramp. An override
/// replaces the mark by that of its own five-lobed tag, if it holds one,
/// and is applied without the tag.
pub open spec fn craft_settled(
    before: TransportValuesView,
    source: Seq<char>,
    plain: Seq<char>,
    ramp: bool,
    overrides: OverridesView,
    color: Seq<char>,
) -> TransportValuesView {
    let noted = if source.contains(DAGGER) {
        TextFieldView { note: passenger_mark(), ..before.pp }
    } else {
        before.pp
    };
    let markup = transport_markup(plain);
    let read = if markup.len() > 0 {
        TextFieldView {
            fonts: FontsView {
                selected_font: if ramp {
                    FONT_UNDERLINED as int
                } else {
                    FONT_NORMAL as int
                },
                fonts: table_view(TRANSPORT_FONTS),
            },
            ..shown(noted, markup, color)
        }
    } else {
        noted
    };
    TransportValuesView {
        pp: if overrides.pp_number_ignore {
            TextFieldView { is_set: false, text: Seq::empty(), ..read }
        } else if overrides.pp_number.len() > 0 {
            TextFieldView {
                color: color,
                fonts: transport_fonts(),
                note: if occurs_in(FIVE_LOBED_ASTERISK_TAG@, overrides.pp_number) {
                    passenger_mark()
                } else {
                    NoteView { action: NoteAction::Unset, text: read.note.text }
                },
                ..read
            }.processed(
                replaced(overrides.pp_number, FIVE_LOBED_ASTERISK_TAG@, Seq::empty()),
                PROCESS_ASTERISK_TAGS,
            )
        } else {
            read
        },
        ..before
    }
}

impl TransportValues {
    /// Reads one factor of the transport column.
    pub fn apply_factor(&mut self, factor: &Vec<char>, colors: &Colors)
        ensures
            final(self)@ == factored(old(self)@, factor@, colors.text@),
    {
        if factor.len() == 0 {
            return ;
        }
        let value = replace_text(factor, &to_chars("<?"), &to_chars("</"));
        assert(table_in_range(TRANSPORT_FONTS));
        if contains_text(factor, &to_chars("PP")) {
            self.pp.is_set = true;
            self.pp.text = to_text(&value);
            self.pp.color = colors.text.clone();
            self.pp.fonts.initialize(TRANSPORT_FONTS);
        } else if contains_text(factor, &to_chars("T")) {
            self.towing.is_set = true;
            self.towing.text = to_text(&value);
            self.towing.color = colors.text.clone();
            self.towing.fonts.initialize(TRANSPORT_FONTS);
        } else if contains_text(factor, &to_chars("M")) {
            self.manhandling_number.is_set = true;
            self.manhandling_number.text = if value.len() == 0 {
                assert(value@ =~= Seq::<char>::empty());
                String::new()
            } else {
                to_text(&slice_chars(&value, 1, value.len()))
            };
            self.manhandling_number.color = colors.text.clone();
            self.manhandling_number.fonts.initialize(TRANSPORT_FONTS);
        }
    }

    /// Everything that `sanitize` does once the daggered notes are out of
    /// the column.
    pub fn settle(&mut self, plain: &String, overrides: &Overrides, colors: &Colors)
        ensures
            final(self)@ == transport_settled(old(self)@, plain@, overrides@, colors.text@),
    {
        let spans = convert_superscripts(plain, TRANSPORT_SUPERSCRIPT_FONT_SIZE);
        let markup = replace_text(&to_chars(spans.as_str()), &to_chars("</"), &to_chars("<?"));
        let factors = split_text(&markup, '/');
        let ghost all = split_by(markup@, '/');
        let mut i: usize = 0;
        assert(all.subrange(0, 0) =~= Seq::<Seq<char>>::empty());
        while i < factors.len()
            invariant
                i <= factors.len(),
                factors.deep_view() == all,
                self@ == factored_all(old(self)@, all.subrange(0, i as int), colors.text@),
            decreases factors.len() - i,
        {
            let ghost upto = all.subrange(0, i + 1);
            assert(upto.subrange(0, upto.len() - 1) =~= all.subrange(0, i as int));
            assert(upto[upto.len() - 1] =~= factors[i as int]@);
            self.apply_factor(&factors[i], colors);
            i = i + 1;
        }
        assert(all.subrange(0, factors.len() as int) =~= all);
        if overrides.pp_number_ignore {
            self.pp.is_set = false;
            self.pp.text = String::new();
        } else if !overrides.pp_number.as_str().is_empty() {
            self.pp.process_overrides(&overrides.pp_number, PROCESS_ASTERISK_TAGS);
            self.pp.color = colors.text.clone();
            self.pp.fonts.initialize(TRANSPORT_FONTS);
        }
        if !overrides.towing_number.as_str().is_empty() {
            self.towing.process_overrides(&overrides.towing_number, PROCESS_ASTERISK_TAGS);
            self.towing.color = colors.text.clone();
            self.towing.fonts.initialize(TRANSPORT_FONTS);
        }
        if !overrides.manhandling.as_str().is_empty() {
            self.manhandling_number.process_overrides(
                &overrides.manhandling,
                PROCESS_ASTERISK_TAGS,
            );
            self.manhandling_number.color = colors.text.clone();
            self.manhandling_number.fonts.initialize(TRANSPORT_FONTS);
        }
    }

    /// Reads the transport column of a vehicle. Where a dagger of the
    /// column cannot be taken out, the reading ends with an error and
    /// nothing is changed.
    pub fn sanitize(&mut self, source: &String, overrides: &Overrides, colors: &Colors) -> (r:
        Result<(), DirectiveError>)
        ensures
            match note_settled(
                source@,
                regex_replaced(note_pattern(source@), source@, Seq::empty()),
            ) {
                Some(plain) => r is Ok && final(self)@ == transport_settled(
                    old(self)@,
                    plain,
                    overrides@,
                    colors.text@,
                ),
                None => r matches Err(DirectiveError::PatternMismatch(t)) && t@ == source@
                    && final(self)@ == old(self)@,
            },
    {
        match strip_daggered_note(source) {
            Some(plain) => {
                self.settle(&plain, overrides, colors);
                Ok(())
            },
            None => Err(DirectiveError::PatternMismatch(source.clone())),
        }
    }

    /// Everything that `lc_sanitize` does once the daggered notes are out
    /// of the column.
    pub fn settle_craft(
        &mut self,
        source: &String,
        plain: &String,
        ramp: bool,
        overrides: &Overrides,
        colors: &Colors,
    )
        ensures
            final(self)@ == craft_settled(
                old(self)@,
                source@,
                plain@,
                ramp,
                overrides@,
                colors.text@,
            ),
    {
        if contains_char(&to_chars(source.as_str()), DAGGER) {
            self.pp.note = Note::new(NoteAction::Postfix, FIVE_LOBED_ASTERISK_SVG);
        }
        let spans = convert_superscripts(plain, TRANSPORT_SUPERSCRIPT_FONT_SIZE);
        let markup = mask_closing_html_tags(&spans);
        assert(table_in_range(TRANSPORT_FONTS));
        if !markup.as_str().is_empty() {
            self.pp.is_set = true;
            self.pp.text = markup;
            self.pp.color = colors.text.clone();
            self.pp.fonts.initialize(TRANSPORT_FONTS);
            if ramp {
                self.pp.fonts.selected_font = FONT_UNDERLINED;
            }
        }
        if overrides.pp_number_ignore {
            self.pp.is_set = false;
            self.pp.text = String::new();
        } else if !overrides.pp_number.as_str().is_empty() {
            self.pp.color = colors.text.clone();
            self.pp.fonts.initialize(TRANSPORT_FONTS);
            let chain = to_chars(overrides.pp_number.as_str());
            if contains_text(&chain, &to_chars(FIVE_LOBED_ASTERISK_TAG)) {
                self.pp.note = Note::new(NoteAction::Postfix, FIVE_LOBED_ASTERISK_SVG);
            } else {
                self.pp.note.action = NoteAction::Unset;
            }
            let empty: Vec<char> = Vec::new();
            let untagged = to_text(
                &replace_text(&chain, &to_chars(FIVE_LOBED_ASTERISK_TAG), &empty),
            );
            self.pp.process_overrides(&untagged, PROCESS_ASTERISK_TAGS);
        }
    }

    /// Reads the passenger number of a landing craft, which has a ramp or
    /// has none. Where a dagger of the column cannot be taken out, the
    /// reading ends with an error and nothing is changed.
    pub fn lc_sanitize(
        &mut self,
        source: &String,
        ramp: bool,
        overrides: &Overrides,
        colors: &Colors,
    ) -> (r: Result<(), DirectiveError>)
        ensures
            match note_settled(
                source@,
                regex_replaced(note_pattern(source@), source@, Seq::empty()),
            ) {
                Some(plain) => r is Ok && final(self)@ == craft_settled(
                    old(self)@,
                    source@,
                    plain,
                    ramp,
                    overrides@,
                    colors.text@,
                ),
                None => r matches Err(DirectiveError::PatternMismatch(t)) && t@ == source@
                    && final(self)@ == old(self)@,
            },
    {
        match strip_daggered_note(source) {
            Some(plain) => {
                self.settle_craft(source, &plain, ramp, overrides, colors);
                Ok(())
            },
            None => Err(DirectiveError::PatternMismatch(source.clone())),
        }
    }

    /// Reads the passenger number of a glider: that of a craft without a
    /// ramp.
    pub fn gl_sanitize(&mut self, source: &String, overrides: &Overrides, colors: &Colors) -> (r:
        Result<(), DirectiveError>)
        ensures
            match note_settled(
                source@,
                regex_replaced(note_pattern(source@), source@, Seq::empty()),
            ) {
                Some(plain) => r is Ok && final(self)@ == craft_settled(
                    old(self)@,
                    source@,
                    plain,
                    false,
                    overrides@,
                    colors.text@,
                ),
                None => r matches Err(DirectiveError::PatternMismatch(t)) && t@ == source@
                    && final(self)@ == old(self)@,
            },
    {
        self.lc_sanitize(source, false, overrides, colors)
    }
}

} // verus!
