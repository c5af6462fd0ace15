//! The breakdown number of an armament.

use vstd::prelude::*;
use crate::colors::{Colors, RED};
use crate::defines::GUN_COLUMN_BREAKDOWN_HEIGHT;
use crate::directive::{directives_of, tokenize, Directive, DirectiveView};
use crate::metrics::METRIC_LIMIT;
use crate::overrides::{ArmamentOverrides, ArmamentOverridesView, DirectiveError, MOD_DELIMITER2};
use crate::scan::{
    contains_char, contains_text, count_bytes, cut_before, extend_chars, same_chars, slice_chars,
    to_chars, to_text,
};
use crate::tags::{tag_rule, TaggedText, TaggedTextView};
use crate::text::{before_first, byte_length, occurs_in, replaced};
use crate::text_field::{
    adjusted_table, table_in_range, table_view, FontsView, NoteAction, NoteView, TextField,
    TextFieldView, BREAKDOWN_NOTE_FONT_POS_DELTA, COPY_FIELD, DAGGER, FA_SIZE,
    FIVE_LOBED_ASTERISK_TAG, FIVE_LOBED_ASTERISK_UC, NO_FONTS, SIX_LOBED_ASTERISK_SUPER_SVG,
    SIX_LOBED_ASTERISK_TAG, SIX_LOBED_ASTERISK_UC, SIX_LOBED_BLACK_ASTERISK_SUPER_SVG,
    SIX_LOBED_BLACK_ASTERISK_TAG, SUPER,
};
use crate::utils::{
    convert_text, entries_of, extract_vector, strip_bold_span, strip_html_italics_only,
    superscript_open, unbolded, wrap_superscripts, GUN_COLUMN_Y_GAP,
};

verus! {

/// Metrics of a breakdown number.
pub const BREAKDOWN_FONTS: [[i64; 4]; 8] = [
    [840, 600, 0, 660],
    [0, 0, 0, 0],
    [0, 0, 0, 0],
    [0, 0, 0, 0],
    [0, 0, 0, 0],
    [0, 0, 0, 0],
    [0, 0, 0, 0],
    [0, 0, 0, 0],
];

/// The category of a breakdown that was not read.
pub const NO_CATEGORY: char = '\0';

/// What a `Malf` holds.
pub struct MalfView {
    pub category: char,
    pub value: TextFieldView,
    pub low_ammo: bool,
    pub number_width: int,
    pub superscript: Seq<char>,
}

/// One breakdown number.
#[derive(Debug)]
pub struct Malf {
    /// `B`, `X`, or `NO_CATEGORY` where the number was not read.
    pub category: char,
    pub value: TextField,
    pub low_ammo: bool,
    pub number_width: i64,
    pub superscript: String,
}

impl View for Malf {
    type V = MalfView;

    open spec fn view(&self) -> MalfView {
        MalfView {
            category: self.category,
            value: self.value@,
            low_ammo: self.low_ammo,
            number_width: self.number_width as int,
            superscript: self.superscript@,
        }
    }
}

impl MalfView {
    /// A breakdown number that was not read.
    pub open spec fn blank() -> MalfView {
        MalfView {
            category: NO_CATEGORY,
            value: TextFieldView::blank(NO_FONTS),
            low_ammo: false,
            number_width: 0,
            superscript: Seq::empty(),
        }
    }
}

impl Default for Malf {
    fn default() -> (r: Self)
        ensures
            r@ == MalfView::blank(),
            r.value.fonts.well_formed(),
    {
        Malf {
            category: NO_CATEGORY,
            value: TextField::default(),
            low_ammo: false,
            number_width: 0,
            superscript: String::new(),
        }
    }
}

/// The breakdown text with its footnote tags resolved: the rules for the
/// five-lobed, the six-lobed and the black six-lobed tag run in that order.
pub open spec fn malf_tagged(source: Seq<char>, note: NoteView) -> TaggedTextView {
    tag_rule(
        tag_rule(
            tag_rule(
                TaggedTextView { text: source, note: note },
                FIVE_LOBED_ASTERISK_TAG@,
                FIVE_LOBED_ASTERISK_UC@,
                false,
            ),
            SIX_LOBED_ASTERISK_TAG@,
            SIX_LOBED_ASTERISK_SUPER_SVG@,
            false,
        ),
        SIX_LOBED_BLACK_ASTERISK_TAG@,
        SIX_LOBED_BLACK_ASTERISK_SUPER_SVG@,
        false,
    )
}

/// `text` without its italic tags, where it opens any.
pub open spec fn unitalicized(text: Seq<char>) -> Seq<char> {
    if occurs_in("<i>"@, text) {
        replaced(replaced(text, "<i>"@, Seq::empty()), "</i>"@, Seq::empty())
    } else {
        text
    }
}

/// The category that a breakdown text names: `X` where it holds one, `B`
/// otherwise.
pub open spec fn category_of(text: Seq<char>) -> char {
    if occurs_in("X"@, text) {
        'X'
    } else {
        'B'
    }
}

/// A breakdown text without the letter of its category: its first
/// character leaves where the text holds an `X` or a `B`.
pub open spec fn number_of(text: Seq<char>) -> Seq<char> {
    if (occurs_in("X"@, text) || occurs_in("B"@, text)) && text.len() > 0 {
        text.subrange(1, text.len() as int)
    } else {
        text
    }
}

/// What `Malf::sanitize` makes of a breakdown number.
pub open spec fn malf_sanitized(
    before: MalfView,
    source: Seq<char>,
    superscript: Seq<char>,
    alternate_location: Seq<char>,
    size_adjustment: int,
    color: Seq<char>,
) -> MalfView {
    let tagged = malf_tagged(source, before.value.note);
    let plain = unitalicized(tagged.text);
    let text = unbolded(plain);
    MalfView {
        category: category_of(text),
        value: TextFieldView {
            text: number_of(text),
            color: if occurs_in("<b>"@, plain) {
                RED@
            } else {
                color
            },
            note: tagged.note,
            alternate_location: alternate_location,
            fonts: FontsView {
                selected_font: 0,
                fonts: if size_adjustment != 0 {
                    adjusted_table(table_view(BREAKDOWN_FONTS), FA_SIZE as int, size_adjustment)
                } else {
                    table_view(BREAKDOWN_FONTS)
                },
            },
            ..before.value
        },
        low_ammo: occurs_in("<i>"@, tagged.text),
        superscript: superscript,
        ..before
    }
}

impl Malf {
    pub fn sanitize(
        &mut self,
        source: &String,
        superscript: &String,
        alternate_location: &String,
        size_adjustment: i64,
        colors: &Colors,
    )
        ensures
            final(self)@ == malf_sanitized(
                old(self)@,
                source@,
                superscript@,
                alternate_location@,
                size_adjustment as int,
                colors.text@,
            ),
            final(self).value.fonts.well_formed(),
    {
        assert(table_in_range(BREAKDOWN_FONTS));
        self.value.fonts.initialize(BREAKDOWN_FONTS);
        if size_adjustment != 0 {
            self.value.fonts.adjust_size(size_adjustment);
        }
        let mut tagged = TaggedText { text: source.clone(), note: self.value.note.clone() };
        tagged.apply_tag_rule(FIVE_LOBED_ASTERISK_TAG, FIVE_LOBED_ASTERISK_UC, false);
        tagged.apply_tag_rule(SIX_LOBED_ASTERISK_TAG, SIX_LOBED_ASTERISK_SUPER_SVG, false);
        tagged.apply_tag_rule(
            SIX_LOBED_BLACK_ASTERISK_TAG,
            SIX_LOBED_BLACK_ASTERISK_SUPER_SVG,
            false,
        );
        let plain: String;
        if contains_text(&to_chars(tagged.text.as_str()), &to_chars("<i>")) {
            self.low_ammo = true;
            plain = strip_html_italics_only(&tagged.text);
        } else {
            self.low_ammo = false;
            plain = tagged.text;
        }
        self.value.note = tagged.note;
        self.superscript = superscript.clone();
        if contains_text(&to_chars(plain.as_str()), &to_chars("<b>")) {
            self.value.color = RED.to_owned();
        } else {
            self.value.color = colors.text.clone();
        }
        let text = to_chars(strip_bold_span(plain.as_str()).as_str());
        let is_x = contains_text(&text, &to_chars("X"));
        let is_b = contains_text(&text, &to_chars("B"));
        self.category = if is_x {
            'X'
        } else {
            'B'
        };
        if (is_x || is_b) && text.len() > 0 {
            self.value.text = to_text(&slice_chars(&text, 1, text.len()));
        } else {
            self.value.text = to_text(&text);
        }
        self.value.alternate_location = alternate_location.clone();
    }

    /// The text of a number that is drawn in one piece: a prefixed mark,
    /// the category, the number, a postfixed mark (the six-lobed one as a
    /// raised glyph), and the superscript in a span of the variant's
    /// superscript size.
    pub open spec fn markup_of(v: MalfView) -> Seq<char> {
        let before = if v.value.note.action == NoteAction::Prefix {
            v.value.note.text
        } else {
            Seq::empty()
        };
        let after = if v.value.note.action != NoteAction::Postfix {
            Seq::empty()
        } else if v.value.note.text == SIX_LOBED_ASTERISK_UC@ {
            SIX_LOBED_ASTERISK_SUPER_SVG@
        } else {
            v.value.note.text
        };
        let raised = if v.superscript.len() > 0 {
            superscript_open(v.value.fonts.sup_size()) + v.superscript + "</tspan>"@
        } else {
            Seq::empty()
        };
        before + seq![v.category] + v.value.text + after + raised
    }

    /// The text of a number that is drawn in one piece.
    pub fn markup(&self) -> (r: String)
        requires
            self.value.fonts.selected_font < 8,
        ensures
            r@ == Malf::markup_of(self@),
    {
        let mut r: Vec<char> = Vec::new();
        match self.value.note.action {
            NoteAction::Prefix => {
                extend_chars(&mut r, &to_chars(self.value.note.text.as_str()));
            },
            _ => {},
        }
        r.push(self.category);
        extend_chars(&mut r, &to_chars(self.value.text.as_str()));
        match self.value.note.action {
            NoteAction::Postfix => {
                let mark = to_chars(self.value.note.text.as_str());
                if same_chars(&mark, &to_chars(SIX_LOBED_ASTERISK_UC)) {
                    extend_chars(&mut r, &to_chars(SIX_LOBED_ASTERISK_SUPER_SVG));
                } else {
                    extend_chars(&mut r, &mark);
                }
            },
            _ => {},
        }
        if !self.superscript.as_str().is_empty() {
            let raised = wrap_superscripts(&self.superscript, self.value.fonts.sup_size());
            extend_chars(&mut r, &to_chars(raised.as_str()));
        }
        assert(r@ =~= Malf::markup_of(self@));
        to_text(&r)
    }

    /// The size at which a number in a low-ammunition circle is drawn: the
    /// size of its variant, and 1.2 less for a number of two bytes or more.
    pub open spec fn circled_size_of(v: MalfView) -> int {
        if byte_length(v.value.text) >= 2 {
            v.value.fonts.size() - BREAKDOWN_NOTE_FONT_POS_DELTA
        } else {
            v.value.fonts.size()
        }
    }

    /// The size at which a number in a low-ammunition circle is drawn.
    pub fn circled_size(&self) -> (r: i64)
        requires
            self.value.fonts.well_formed(),
        ensures
            r == Malf::circled_size_of(self@),
    {
        let size = self.value.fonts.size();
        assert(size == self.value.fonts.fonts[self.value.fonts.selected_font as int][0]);
        if count_bytes(self.value.text.as_str()) >= 2 {
            size - BREAKDOWN_NOTE_FONT_POS_DELTA
        } else {
            size
        }
    }

    /// The height that the number takes from the gun column: nothing where
    /// it has an alternate location; else the height of the breakdown box
    /// and the gap where ammunition is low, and the height of its variant
    /// and the gap otherwise.
    pub open spec fn consumed(v: MalfView) -> int {
        if v.value.alternate_location.len() > 0 {
            0
        } else if v.low_ammo {
            GUN_COLUMN_BREAKDOWN_HEIGHT + GUN_COLUMN_Y_GAP
        } else {
            v.value.fonts.height() + GUN_COLUMN_Y_GAP
        }
    }

    /// The height that the number takes from the gun column.
    pub fn consumed_height(&self) -> (r: i64)
        requires
            self.value.fonts.well_formed(),
        ensures
            r == Malf::consumed(self@),
            0 <= r <= METRIC_LIMIT + GUN_COLUMN_Y_GAP,
    {
        if !self.value.alternate_location.as_str().is_empty() {
            0
        } else if self.low_ammo {
            GUN_COLUMN_BREAKDOWN_HEIGHT + GUN_COLUMN_Y_GAP
        } else {
            let height = self.value.fonts.height();
            assert(height == self.value.fonts.fonts[self.value.fonts.selected_font as int][3]);
            height + GUN_COLUMN_Y_GAP
        }
    }
}

/// What the directive chain of a breakdown override asks for.
pub struct MalfPlan {
    pub text: Seq<char>,
    pub size: int,
    pub location: Seq<char>,
}

/// The plan after one directive: a replacement sets the text, with the
/// row's breakdown cut before its dagger in place of the copy-field
/// sentinel; a size change replaces the one before; a location moves the
/// number.
pub open spec fn planned(plan: MalfPlan, d: DirectiveView, source: Seq<char>) -> MalfPlan {
    match d {
        DirectiveView::FieldReplace(t) => MalfPlan {
            text: replaced(t, COPY_FIELD@, before_first(source, seq![DAGGER])),
            ..plan
        },
        DirectiveView::SizeDelta(v) => MalfPlan { size: v, ..plan },
        DirectiveView::AlternateLocation(l) => MalfPlan { location: l, ..plan },
        DirectiveView::Unrecognized(l) => plan,
    }
}

/// The plan after the directives `ds`, from left to right.
pub open spec fn planned_all(plan: MalfPlan, ds: Seq<DirectiveView>, source: Seq<char>) -> MalfPlan
    decreases ds.len(),
{
    if ds.len() == 0 {
        plan
    } else {
        planned(planned_all(plan, ds.subrange(0, ds.len() - 1), source), ds[ds.len() - 1], source)
    }
}

/// The position of the first directive of `ds` that is not recognized.
pub open spec fn first_unknown(ds: Seq<DirectiveView>) -> Option<int>
    decreases ds.len(),
{
    if ds.len() == 0 {
        None
    } else {
        match first_unknown(ds.subrange(0, ds.len() - 1)) {
            Some(k) => Some(k),
            None => if ds[ds.len() - 1] is Unrecognized {
                Some(ds.len() - 1)
            } else {
                None
            },
        }
    }
}

/// Where a prefix of `ds` holds a directive that is not recognized, the
/// first such directive of `ds` is that of the prefix.
pub proof fn lemma_first_unknown_prefix(ds: Seq<DirectiveView>, n: int)
    requires
        0 <= n <= ds.len(),
        first_unknown(ds.subrange(0, n)) is Some,
    ensures
        first_unknown(ds) == first_unknown(ds.subrange(0, n)),
    decreases ds.len(),
{
    if n == ds.len() {
        assert(ds.subrange(0, n) =~= ds);
    } else {
        let front = ds.subrange(0, ds.len() - 1);
        assert(front.subrange(0, n) =~= ds.subrange(0, n));
        lemma_first_unknown_prefix(front, n);
    }
}

/// The plan that the breakdown override `chain` makes of the row's
/// breakdown `source`: without a chain, the breakdown cut before its dagger.
pub open spec fn malf_plan(source: Seq<char>, chain: Seq<char>) -> MalfPlan {
    if chain.len() > 0 {
        planned_all(
            MalfPlan { text: source, size: 0, location: Seq::empty() },
            directives_of(entries_of(chain, MOD_DELIMITER2)),
            source,
        )
    } else {
        MalfPlan {
            text: before_first(source, seq![DAGGER]),
            size: 0,
            location: Seq::empty(),
        }
    }
}

/// The breakdown text of a plan and its superscript: where the text holds a
/// caret, its first two entries.
pub open spec fn malf_parts(text: Seq<char>) -> (Seq<char>, Seq<char>) {
    if text.contains(SUPER) {
        let entries = entries_of(text, SUPER);
        (entries[0], entries[1])
    } else {
        (text, Seq::empty())
    }
}

/// What a `Malfunction` holds.
pub struct MalfunctionView {
    pub breakdown: MalfView,
    pub disable: MalfView,
}

/// The breakdown and the disablement number of an armament.
#[derive(Debug)]
pub struct Malfunction {
    pub breakdown: Malf,
    pub disable: Malf,
}

impl View for Malfunction {
    type V = MalfunctionView;

    open spec fn view(&self) -> MalfunctionView {
        MalfunctionView { breakdown: self.breakdown@, disable: self.disable@ }
    }
}

impl MalfunctionView {
    /// Two numbers that were not read.
    pub open spec fn blank() -> MalfunctionView {
        MalfunctionView { breakdown: MalfView::blank(), disable: MalfView::blank() }
    }
}

impl Default for Malfunction {
    fn default() -> (r: Self)
        ensures
            r@ == MalfunctionView::blank(),
            r.breakdown.value.fonts.well_formed(),
            r.disable.value.fonts.well_formed(),
    {
        Malfunction { breakdown: Malf::default(), disable: Malf::default() }
    }
}

/// What `Malfunction::sanitize` makes of the numbers where every directive
/// of the override is recognized. An ignored armament or breakdown leaves
/// them alone, and so does a plan whose text is empty or a lone dagger.
pub open spec fn malfunction_sanitized(
    before: MalfunctionView,
    source: Seq<char>,
    overrides: ArmamentOverridesView,
    color: Seq<char>,
) -> MalfunctionView {
    let plan = malf_plan(source, overrides.malf.text);
    let parts = malf_parts(plan.text);
    if overrides.malf.ignore || overrides.ignore || parts.0.len() == 0 || parts.0 == seq![DAGGER] {
        before
    } else {
        MalfunctionView {
            breakdown: malf_sanitized(
                before.breakdown,
                parts.0,
                parts.1,
                plan.location,
                plan.size,
                color,
            ),
            ..before
        }
    }
}

/// The directive of the override that is not recognized, where the
/// override is read at all.
pub open spec fn malfunction_unknown(overrides: ArmamentOverridesView) -> Option<int> {
    if overrides.malf.ignore || overrides.ignore || overrides.malf.text.len() == 0 {
        None
    } else {
        first_unknown(directives_of(entries_of(overrides.malf.text, MOD_DELIMITER2)))
    }
}

impl Malfunction {
    /// Reads the breakdown number of a row. A directive of the override
    /// that is not recognized ends the reading with an error that holds it,
    /// and nothing is changed.
    pub fn sanitize(&mut self, source: &String, overrides: &ArmamentOverrides, colors: &Colors) -> (r:
        Result<(), DirectiveError>)
        ensures
            match malfunction_unknown(overrides@) {
                None => r is Ok && final(self)@ == malfunction_sanitized(
                    old(self)@,
                    source@,
                    overrides@,
                    colors.text@,
                ),
                Some(k) => r matches Err(DirectiveError::UnrecognizedDirective(t)) && t@
                    == entries_of(overrides.malf.text@, MOD_DELIMITER2)[k] && final(self)@ == old(
                    self,
                )@,
            },
    {
        if overrides.malf.ignore || overrides.ignore {
            return Ok(());
        }
        let mut dagger: Vec<char> = Vec::new();
        dagger.push(DAGGER);
        assert(dagger@ =~= seq![DAGGER]);
        let scrubbed = to_text(&cut_before(&to_chars(source.as_str()), &dagger));
        let mut breakdown: String = source.clone();
        let mut size_adjustment: i64 = 0;
        let mut alternate_location: String = String::new();
        if !overrides.malf.text.as_str().is_empty() {
            let directives = tokenize(&overrides.malf.text);
            let ghost chain = entries_of(overrides.malf.text@, MOD_DELIMITER2);
            let ghost ds = directives_of(chain);
            let ghost start = MalfPlan { text: source@, size: 0, location: Seq::empty() };
            let mut i: usize = 0;
            assert(ds.subrange(0, 0) =~= Seq::<DirectiveView>::empty());
            while i < directives.len()
                invariant
                    i <= directives.len(),
                    chain == entries_of(overrides.malf.text@, MOD_DELIMITER2),
                    ds == directives_of(chain),
                    directives@.map_values(|d: Directive| d@) == ds,
                    scrubbed@ == before_first(source@, seq![DAGGER]),
                    first_unknown(ds.subrange(0, i as int)) is None,
                    !overrides.malf.ignore && !overrides.ignore && overrides.malf.text@.len() > 0,
                    *self == *old(self),
                    (MalfPlan {
                        text: breakdown@,
                        size: size_adjustment as int,
                        location: alternate_location@,
                    }) == planned_all(start, ds.subrange(0, i as int), source@),
                decreases directives.len() - i,
            {
                let ghost upto = ds.subrange(0, i + 1);
                assert(upto.subrange(0, upto.len() - 1) =~= ds.subrange(0, i as int));
                assert(upto[upto.len() - 1] == directives@[i as int]@);
                assert(ds[i as int] == crate::directive::directive_of(i as int, chain[i as int]));
                match &directives[i] {
                    Directive::FieldReplace(t) => {
                        breakdown = convert_text(t, COPY_FIELD, scrubbed.as_str());
                    },
                    Directive::SizeDelta(v) => {
                        size_adjustment = *v;
                    },
                    Directive::AlternateLocation(l) => {
                        alternate_location = l.clone();
                    },
                    Directive::Unrecognized(l) => {
                        let culprit = l.clone();
                        proof {
                            assert(first_unknown(upto) == Some(i as int));
                            lemma_first_unknown_prefix(ds, i + 1);
                            assert(culprit@ == chain[i as int]);
                        }
                        return Err(DirectiveError::UnrecognizedDirective(culprit));
                    },
                }
                i = i + 1;
            }
            assert(ds.subrange(0, directives.len() as int) =~= ds);
        } else {
            breakdown = scrubbed;
        }
        let mut superscript: String = String::new();
        if contains_char(&to_chars(breakdown.as_str()), SUPER) {
            let entries = extract_vector(&breakdown, SUPER);
            proof {
                crate::utils::lemma_entries_of_split(breakdown@, SUPER);
            }
            assert(entries.deep_view()[0] == entries[0]@);
            assert(entries.deep_view()[1] == entries[1]@);
            superscript = entries[1].clone();
            breakdown = entries[0].clone();
        }
        if !breakdown.as_str().is_empty() && !same_chars(&to_chars(breakdown.as_str()), &dagger) {
            self.breakdown.sanitize(
                &breakdown,
                &superscript,
                &alternate_location,
                size_adjustment,
                colors,
            );
        }
        Ok(())
    }

    /// The height that the numbers take from the gun column together: the
    /// breakdown number once, or twice where a disablement number was read
    /// as well; nothing where no breakdown number was read.
    pub open spec fn consumed(v: MalfunctionView) -> int {
        if v.disable.category != NO_CATEGORY {
            if v.breakdown.category != NO_CATEGORY {
                2 * Malf::consumed(v.breakdown)
            } else {
                Malf::consumed(v.breakdown)
            }
        } else if v.breakdown.category != NO_CATEGORY {
            Malf::consumed(v.breakdown)
        } else {
            0
        }
    }

    /// The height that the numbers take from the gun column together.
    pub fn consumed_height(&self) -> (r: i64)
        requires
            self.breakdown.value.fonts.well_formed(),
        ensures
            r == Malfunction::consumed(self@),
            0 <= r <= 2 * (METRIC_LIMIT + GUN_COLUMN_Y_GAP),
    {
        let one = self.breakdown.consumed_height();
        if self.disable.category != NO_CATEGORY {
            if self.breakdown.category != NO_CATEGORY {
                2 * one
            } else {
                one
            }
        } else if self.breakdown.category != NO_CATEGORY {
            one
        } else {
            0
        }
    }
}

} // verus!
