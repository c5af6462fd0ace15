//! The armour values of a vehicle: front, side and rear, with their
//! modifiers, footnote marks and the colours that the target size calls for.

use vstd::prelude::*;
use crate::colors::{Colors, ColorsView};
use crate::metrics::{integer_or_zero, parse_integer};
use crate::overrides::{DirectiveError, Overrides, OverridesView};
use crate::scan::{
    contains_char, cut_before, replace_text, same_chars, split_text, strip_char, to_chars, to_text,
};
use crate::tags::{tag_rule, TaggedText, TaggedTextView};
use crate::text::{before_first, replaced, split_by, without};
use crate::text_field::{
    Note, NoteView, BLACK_ASTERISK_SVG, BLACK_ASTERISK_TAG, COPY_FIELD, DAGGER,
    FIVE_LOBED_ASTERISK_SVG, FIVE_LOBED_ASTERISK_TAG, SIX_LOBED_ASTERISK_SVG,
    SIX_LOBED_ASTERISK_TAG, SIX_LOBED_BLACK_ASTERISK_SVG, SIX_LOBED_BLACK_ASTERISK_TAG, STAR,
};
use crate::utils::convert_text;

verus! {

pub const ARM_FONT_WEIGHT: &'static str = "bold";

pub const ARM_SVG_HEIGHT: i64 = 1200;

pub const ARM_SVG_WIDTH: i64 = 1800;

pub const ARM_BOX_X: i64 = 700;

pub const ARM_BOX_Y: i64 = 100;

pub const ARM_BOX_SIZE: i64 = 1000;

pub const ARM_CIRCLE_RADIUS: i64 = 500;

pub const ARM_STROKE_WIDTH: i64 = 50;

pub const ARM_X_POSITION: i64 = 4000;

pub const FAR_Y_POSITION: i64 = 1500;

pub const SAR_Y_POSITION: i64 = 2600;

pub const RAR_Y_POSITION: i64 = 3700;

pub const ARMOR_VALUE_FONT_SIZE: i64 = 800;

pub const ARMOR_VALUE_ALTERNATE_FONT_SIZE: i64 = 700;

pub const ARMOR_VALUE_NOTE_FONT_SIZE: i64 = 500;

/// How the armour of one aspect compares with the hull's.
#[derive(PartialEq, Eq, Structural, Clone, Copy, Debug)]
pub enum ArmorModifier {
    /// As the hull's.
    Unmodified,
    Superior,
    Inferior,
    ExtraInferior,
}

impl Default for ArmorModifier {
    fn default() -> (r: Self)
        ensures
            r == ArmorModifier::Unmodified,
    {
        ArmorModifier::Unmodified
    }
}

impl ArmorModifier {
    /// The name of the modifier.
    pub fn name(&self) -> (r: String)
        ensures
            r@ == match *self {
                ArmorModifier::Unmodified => "None"@,
                ArmorModifier::Superior => "Superior"@,
                ArmorModifier::Inferior => "Inferior"@,
                ArmorModifier::ExtraInferior => "ExtraInferior"@,
            },
    {
        match self {
            ArmorModifier::Unmodified => "None".to_string(),
            ArmorModifier::Superior => "Superior".to_string(),
            ArmorModifier::Inferior => "Inferior".to_string(),
            ArmorModifier::ExtraInferior => "ExtraInferior".to_string(),
        }
    }
}

/// What an `ArmorValue` holds.
pub struct ArmorValueView {
    pub value: Seq<char>,
    pub modifier: ArmorModifier,
    pub stroke_color: Seq<char>,
    pub fill_color: Seq<char>,
    pub modifier_color: Seq<char>,
    pub small_target_circle_color: Seq<char>,
    pub small_target_circle: bool,
    pub large_target_circle: bool,
    pub note: NoteView,
    pub y_position: int,
    pub comment: Seq<char>,
}

/// The armour of one aspect of a vehicle.
#[derive(Debug)]
pub struct ArmorValue {
    pub value: String,
    pub modifier: ArmorModifier,
    pub stroke_color: String,
    pub fill_color: String,
    pub modifier_color: String,
    pub small_target_circle_color: String,
    pub small_target_circle: bool,
    /// The red dot of a very large target.
    pub large_target_circle: bool,
    pub note: Note,
    pub y_position: i64,
    pub comment: String,
}

impl View for ArmorValue {
    type V = ArmorValueView;

    open spec fn view(&self) -> ArmorValueView {
        ArmorValueView {
            value: self.value@,
            modifier: self.modifier,
            stroke_color: self.stroke_color@,
            fill_color: self.fill_color@,
            modifier_color: self.modifier_color@,
            small_target_circle_color: self.small_target_circle_color@,
            small_target_circle: self.small_target_circle,
            large_target_circle: self.large_target_circle,
            note: self.note@,
            y_position: self.y_position as int,
            comment: self.comment@,
        }
    }
}

impl ArmorValueView {
    /// An aspect of which nothing is known yet.
    pub open spec fn blank() -> ArmorValueView {
        ArmorValueView {
            value: Seq::empty(),
            modifier: ArmorModifier::Unmodified,
            stroke_color: Seq::empty(),
            fill_color: Seq::empty(),
            modifier_color: Seq::empty(),
            small_target_circle_color: Seq::empty(),
            small_target_circle: false,
            large_target_circle: false,
            note: NoteView::unset(),
            y_position: 0,
            comment: Seq::empty(),
        }
    }

    /// The aspect placed at `y_position` under the name `comment`, in the
    /// colours of a normal target.
    pub open spec fn initialized(self, y_position: int, comment: Seq<char>, colors: ColorsView) -> ArmorValueView {
        ArmorValueView {
            y_position: y_position,
            comment: comment,
            fill_color: colors.normal_target,
            stroke_color: "none"@,
            modifier_color: colors.armor_modifier,
            ..self
        }
    }

    /// The aspect after the rule for `tag`: where the tag occurs in the
    /// value it is taken out, and attaches the mark `glyph` if none is
    /// attached yet.
    pub open spec fn noted(self, tag: Seq<char>, glyph: Seq<char>) -> ArmorValueView {
        let r = tag_rule(TaggedTextView { text: self.value, note: self.note }, tag, glyph, false);
        ArmorValueView { value: r.text, note: r.note, ..self }
    }

    /// The aspect after the rules for the black, the six-lobed, the black
    /// six-lobed and the five-lobed tag, in that order.
    pub open spec fn noted_all(self) -> ArmorValueView {
        self.noted(BLACK_ASTERISK_TAG@, BLACK_ASTERISK_SVG@).noted(
            SIX_LOBED_ASTERISK_TAG@,
            SIX_LOBED_ASTERISK_SVG@,
        ).noted(SIX_LOBED_BLACK_ASTERISK_TAG@, SIX_LOBED_BLACK_ASTERISK_SVG@).noted(
            FIVE_LOBED_ASTERISK_TAG@,
            FIVE_LOBED_ASTERISK_SVG@,
        )
    }

    /// The aspect with its value overridden by `replacement`, in which the
    /// copy-field sentinel stands for the value; an empty replacement
    /// changes nothing.
    pub open spec fn overridden(self, replacement: Seq<char>) -> ArmorValueView {
        if replacement.len() > 0 {
            ArmorValueView { value: replaced(replacement, COPY_FIELD@, self.value), ..self }
        } else {
            self
        }
    }

    /// The value shows the star of an unarmoured aspect.
    pub open spec fn unarmored(self) -> bool {
        self.value.contains(STAR)
    }
}

impl Default for ArmorValue {
    fn default() -> (r: Self)
        ensures
            r@ == ArmorValueView::blank(),
    {
        ArmorValue {
            value: String::new(),
            modifier: ArmorModifier::Unmodified,
            stroke_color: String::new(),
            fill_color: String::new(),
            modifier_color: String::new(),
            small_target_circle_color: String::new(),
            small_target_circle: false,
            large_target_circle: false,
            note: Note::default(),
            y_position: 0,
            comment: String::new(),
        }
    }
}

impl ArmorValue {
    pub fn initialize(&mut self, y_position: i64, comment: String, colors: &Colors)
        ensures
            final(self)@ == old(self)@.initialized(y_position as int, comment@, colors@),
    {
        self.y_position = y_position;
        self.comment = comment;
        self.fill_color = colors.normal_target.clone();
        self.stroke_color = "none".to_string();
        self.modifier_color = colors.armor_modifier.clone();
    }

    /// Applies the rule for `tag`, whose mark is `glyph`.
    pub fn note_initialize(&mut self, tag: &str, glyph: &str)
        ensures
            final(self)@ == old(self)@.noted(tag@, glyph@),
    {
        let mut tagged = TaggedText { text: self.value.clone(), note: self.note.clone() };
        tagged.apply_tag_rule(tag, glyph, false);
        self.value = tagged.text;
        self.note = tagged.note;
    }

    /// Applies the rules for the four tags that an armour value may hold.
    pub fn note_all(&mut self)
        ensures
            final(self)@ == old(self)@.noted_all(),
    {
        self.note_initialize(BLACK_ASTERISK_TAG, BLACK_ASTERISK_SVG);
        self.note_initialize(SIX_LOBED_ASTERISK_TAG, SIX_LOBED_ASTERISK_SVG);
        self.note_initialize(SIX_LOBED_BLACK_ASTERISK_TAG, SIX_LOBED_BLACK_ASTERISK_SVG);
        self.note_initialize(FIVE_LOBED_ASTERISK_TAG, FIVE_LOBED_ASTERISK_SVG);
    }

    /// Overrides the value by `replacement`.
    pub fn override_value(&mut self, replacement: &String)
        ensures
            final(self)@ == old(self)@.overridden(replacement@),
    {
        if !replacement.as_str().is_empty() {
            self.value = convert_text(replacement, COPY_FIELD, self.value.as_str());
        }
    }

    /// Whether the value shows the star of an unarmoured aspect.
    pub fn is_unarmored(&self) -> (r: bool)
        ensures
            r == self@.unarmored(),
    {
        contains_char(&to_chars(self.value.as_str()), STAR)
    }
}

/// The armour factors of a row: its closing tags masked, it is cut at each
/// slash, and each piece is cut before its first dagger.
pub open spec fn armor_factors(armor_factors: Seq<char>) -> Seq<Seq<char>> {
    split_by(replaced(armor_factors, "</"@, "<?"@), '/').map_values(
        |piece: Seq<char>| before_first(piece, seq![DAGGER]),
    )
}

/// The armour values of a row: its factors, the only one twice where there
/// is one alone.
pub open spec fn armor_values_of(factors: Seq<char>) -> Seq<Seq<char>> {
    let values = armor_factors(factors);
    if values.len() == 1 {
        values.push(values[0])
    } else {
        values
    }
}

pub fn extract_armor_values(armor_factors: &String) -> (result: Vec<String>)
    ensures
        result.deep_view() == armor_values_of(armor_factors@),
        result.len() >= 2,
{
    let masked = replace_text(&to_chars(armor_factors.as_str()), &to_chars("</"), &to_chars("<?"));
    let pieces = split_text(&masked, '/');
    let ghost parts = split_by(masked@, '/');
    let mut dagger: Vec<char> = Vec::new();
    dagger.push(DAGGER);
    assert(dagger@ =~= seq![DAGGER]);
    let mut result: Vec<String> = Vec::new();
    let mut i: usize = 0;
    assert(result.deep_view() =~= Seq::<Seq<char>>::empty());
    proof {
        lemma_split_nonempty(masked@, '/');
    }
    while i < pieces.len()
        invariant
            i <= pieces.len(),
            pieces.deep_view() == parts,
            dagger@ == seq![DAGGER],
            result.deep_view() == parts.subrange(0, i as int).map_values(
                |piece: Seq<char>| before_first(piece, seq![DAGGER]),
            ),
        decreases pieces.len() - i,
    {
        let ghost before = result.deep_view();
        assert(parts[i as int] =~= pieces[i as int]@);
        result.push(to_text(&cut_before(&pieces[i], &dagger)));
        i = i + 1;
        assert(result.deep_view() =~= before.push(before_first(parts[i - 1], seq![DAGGER])));
        assert(result.deep_view() =~= parts.subrange(0, i as int).map_values(
            |piece: Seq<char>| before_first(piece, seq![DAGGER]),
        ));
    }
    assert(parts.subrange(0, pieces.len() as int) =~= parts);
    if result.len() == 1 {
        let ghost before = result.deep_view();
        let again = result[0].clone();
        result.push(again);
        assert(result.deep_view() =~= before.push(before[0]));
    }
    result
}

/// A text cut at a character has at least one piece.
pub proof fn lemma_split_nonempty(s: Seq<char>, d: char)
    ensures
        split_by(s, d).len() >= 1,
{
}

/// The turret-armour modifiers of a row: it is cut at each slash, and the
/// daggers of each piece are taken out.
pub open spec fn armor_modifiers_of(ta: Seq<char>) -> Seq<Seq<char>> {
    split_by(ta, '/').map_values(|piece: Seq<char>| without(piece, DAGGER))
}

pub fn extract_armor_modifier_values(ta: &String) -> (result: Vec<String>)
    ensures
        result.deep_view() == armor_modifiers_of(ta@),
{
    let pieces = split_text(&to_chars(ta.as_str()), '/');
    let ghost parts = split_by(ta@, '/');
    let mut result: Vec<String> = Vec::new();
    let mut i: usize = 0;
    assert(result.deep_view() =~= Seq::<Seq<char>>::empty());
    while i < pieces.len()
        invariant
            i <= pieces.len(),
            pieces.deep_view() == parts,
            result.deep_view() == parts.subrange(0, i as int).map_values(
                |piece: Seq<char>| without(piece, DAGGER),
            ),
        decreases pieces.len() - i,
    {
        let ghost before = result.deep_view();
        assert(parts[i as int] =~= pieces[i as int]@);
        result.push(to_text(&strip_char(&pieces[i], DAGGER)));
        i = i + 1;
        assert(result.deep_view() =~= before.push(without(parts[i - 1], DAGGER)));
        assert(result.deep_view() =~= parts.subrange(0, i as int).map_values(
            |piece: Seq<char>| without(piece, DAGGER),
        ));
    }
    assert(parts.subrange(0, pieces.len() as int) =~= parts);
    result
}

/// What an `ArmorValues` holds.
pub struct ArmorValuesView {
    pub front: ArmorValueView,
    pub side: ArmorValueView,
    pub rear: ArmorValueView,
    pub count: int,
    pub target_size: int,
}

/// The armour of a vehicle.
#[derive(Debug)]
pub struct ArmorValues {
    pub front: ArmorValue,
    pub side: ArmorValue,
    pub rear: ArmorValue,
    pub count: usize,
    pub target_size: i64,
}

impl View for ArmorValues {
    type V = ArmorValuesView;

    open spec fn view(&self) -> ArmorValuesView {
        ArmorValuesView {
            front: self.front@,
            side: self.side@,
            rear: self.rear@,
            count: self.count as int,
            target_size: self.target_size as int,
        }
    }
}

impl ArmorValuesView {
    /// What a new `ArmorValues` holds.
    pub open spec fn blank() -> ArmorValuesView {
        ArmorValuesView {
            front: ArmorValueView::blank(),
            side: ArmorValueView::blank(),
            rear: ArmorValueView::blank(),
            count: 0,
            target_size: 0,
        }
    }
}

impl Default for ArmorValues {
    fn default() -> (r: Self)
        ensures
            r@ == ArmorValuesView::blank(),
    {
        ArmorValues {
            front: ArmorValue::default(),
            side: ArmorValue::default(),
            rear: ArmorValue::default(),
            count: 0,
            target_size: 0,
        }
    }
}

impl ArmorValuesView {
    /// The three aspects placed and named, in the colours of a normal
    /// target.
    pub open spec fn placed(self, colors: ColorsView) -> ArmorValuesView {
        ArmorValuesView {
            front: self.front.initialized(FAR_Y_POSITION as int, "Front Armor"@, colors),
            side: self.side.initialized(SAR_Y_POSITION as int, "Side/Rear Armor"@, colors),
            rear: self.rear.initialized(RAR_Y_POSITION as int, "Rear Armor"@, colors),
            ..self
        }
    }

    /// The armour with the values of a row: two give front and side, three
    /// give front, side and rear; any other number gives none.
    pub open spec fn valued(self, values: Seq<Seq<char>>) -> ArmorValuesView {
        if values.len() == 2 {
            ArmorValuesView {
                front: ArmorValueView { value: values[0], ..self.front },
                side: ArmorValueView { value: values[1], ..self.side },
                count: 2,
                ..self
            }
        } else if values.len() == 3 {
            ArmorValuesView {
                front: ArmorValueView { value: values[0], ..self.front },
                side: ArmorValueView { value: values[1], ..self.side },
                rear: ArmorValueView { value: values[2], ..self.rear },
                count: 3,
                ..self
            }
        } else {
            self
        }
    }

    /// The armour with the three overrides of the values applied and the
    /// footnote tags of each value resolved.
    pub open spec fn annotated(self, overrides: OverridesView) -> ArmorValuesView {
        ArmorValuesView {
            front: self.front.overridden(overrides.armor_front).noted_all(),
            side: self.side.overridden(overrides.armor_side).noted_all(),
            rear: self.rear.overridden(overrides.armor_rear).noted_all(),
            ..self
        }
    }

    /// The armour after one turret-armour modifier.
    pub open spec fn modified(self, modifier: Seq<char>) -> ArmorValuesView {
        if modifier == "--F"@ {
            self.with_modifiers(Some(ArmorModifier::ExtraInferior), None, None)
        } else if modifier == "-FSR"@ {
            self.with_modifiers(
                Some(ArmorModifier::Inferior),
                Some(ArmorModifier::Inferior),
                Some(ArmorModifier::Inferior),
            )
        } else if modifier == "+FSR"@ {
            self.with_modifiers(
                Some(ArmorModifier::Superior),
                Some(ArmorModifier::Superior),
                Some(ArmorModifier::Superior),
            )
        } else if modifier == "-SR"@ {
            self.with_modifiers(
                None,
                Some(ArmorModifier::Inferior),
                Some(ArmorModifier::Inferior),
            )
        } else if modifier == "+SR"@ {
            self.with_modifiers(
                None,
                Some(ArmorModifier::Superior),
                Some(ArmorModifier::Superior),
            )
        } else if modifier == "-F"@ {
            self.with_modifiers(Some(ArmorModifier::Inferior), None, None)
        } else if modifier == "+F"@ {
            self.with_modifiers(Some(ArmorModifier::Superior), None, None)
        } else {
            self
        }
    }

    /// The armour with the modifiers given set on front, side and rear.
    pub open spec fn with_modifiers(
        self,
        front: Option<ArmorModifier>,
        side: Option<ArmorModifier>,
        rear: Option<ArmorModifier>,
    ) -> ArmorValuesView {
        ArmorValuesView {
            front: match front {
                Some(m) => ArmorValueView { modifier: m, ..self.front },
                None => self.front,
            },
            side: match side {
                Some(m) => ArmorValueView { modifier: m, ..self.side },
                None => self.side,
            },
            rear: match rear {
                Some(m) => ArmorValueView { modifier: m, ..self.rear },
                None => self.rear,
            },
            ..self
        }
    }

    /// The armour after the modifiers `modifiers`, from left to right.
    pub open spec fn modified_all(self, modifiers: Seq<Seq<char>>) -> ArmorValuesView
        decreases modifiers.len(),
    {
        if modifiers.len() == 0 {
            self
        } else {
            self.modified_all(modifiers.subrange(0, modifiers.len() - 1)).modified(
                modifiers[modifiers.len() - 1],
            )
        }
    }

    /// The armour after the turret-armour modifiers of a row, which the
    /// override replaces where there is one.
    pub open spec fn turreted(self, ta: Seq<char>, overrides: OverridesView) -> ArmorValuesView {
        let text = if overrides.turret_armor_modifiers.len() == 0 {
            ta
        } else {
            overrides.turret_armor_modifiers
        };
        if text.len() == 0 {
            self
        } else {
            self.modified_all(armor_modifiers_of(text))
        }
    }
}

/// An aspect in the colour of a large target.
pub open spec fn large_colored(v: ArmorValueView, colors: ColorsView) -> ArmorValueView {
    ArmorValueView { fill_color: colors.large_target, modifier_color: colors.large_target, ..v }
}

/// An aspect in the colours of an unarmoured aspect of a normal target,
/// where it is unarmoured.
pub open spec fn normal_unarmored(v: ArmorValueView, colors: ColorsView) -> ArmorValueView {
    if v.unarmored() {
        ArmorValueView {
            fill_color: colors.normal_unarmored_target_fill,
            stroke_color: colors.normal_unarmored_target_stroke,
            ..v
        }
    } else {
        v
    }
}

/// An aspect of a small target: in the colours of a small unarmoured aspect
/// where it is unarmoured, on the small-target circle otherwise.
pub open spec fn small_colored(v: ArmorValueView, colors: ColorsView) -> ArmorValueView {
    if v.unarmored() {
        ArmorValueView {
            stroke_color: colors.small_unarmored_target_stroke,
            fill_color: colors.small_unarmored_target_fill,
            small_target_circle: false,
            ..v
        }
    } else {
        ArmorValueView {
            small_target_circle: true,
            small_target_circle_color: colors.small_target_circle,
            ..v
        }
    }
}

/// The side of a target of size 1: in the colours of a normal unarmoured
/// aspect where it is unarmoured, and never on a circle.
pub open spec fn side_of_small(v: ArmorValueView, colors: ColorsView) -> ArmorValueView {
    if v.unarmored() {
        ArmorValueView {
            stroke_color: colors.normal_unarmored_target_stroke,
            fill_color: colors.normal_unarmored_target_fill,
            small_target_circle: false,
            ..v
        }
    } else {
        ArmorValueView { small_target_circle: false, ..v }
    }
}

/// The armour in the colours that the target size `size` calls for.
pub open spec fn sized(v: ArmorValuesView, size: int, colors: ColorsView) -> ArmorValuesView {
    let w = ArmorValuesView { target_size: size, ..v };
    if size == -3 {
        ArmorValuesView {
            front: large_colored(w.front, colors),
            side: large_colored(w.side, colors),
            rear: ArmorValueView { large_target_circle: true, ..large_colored(w.rear, colors) },
            ..w
        }
    } else if size == -2 {
        ArmorValuesView {
            front: large_colored(w.front, colors),
            side: large_colored(w.side, colors),
            ..w
        }
    } else if size == -1 {
        ArmorValuesView {
            front: large_colored(w.front, colors),
            side: normal_unarmored(w.side, colors),
            ..w
        }
    } else if size == 0 {
        ArmorValuesView {
            front: normal_unarmored(w.front, colors),
            side: normal_unarmored(w.side, colors),
            ..w
        }
    } else if size == 1 {
        ArmorValuesView {
            front: small_colored(w.front, colors),
            side: side_of_small(w.side, colors),
            ..w
        }
    } else if size == 2 {
        ArmorValuesView {
            front: small_colored(w.front, colors),
            side: small_colored(w.side, colors),
            ..w
        }
    } else {
        w
    }
}

/// The target size of a row: the number that the override names where
/// there is one, else the number that the row names once its daggers are
/// out; zero where that is no number.
pub open spec fn target_size_of(size: Seq<char>, overrides: OverridesView) -> int {
    if overrides.target_size.len() > 0 {
        integer_or_zero(overrides.target_size)
    } else {
        integer_or_zero(without(size, DAGGER))
    }
}

/// What `initialize` makes of the armour of a vehicle.
pub open spec fn armor_initialized(
    before: ArmorValuesView,
    af: Seq<char>,
    ta: Seq<char>,
    size: Seq<char>,
    overrides: OverridesView,
    colors: ColorsView,
) -> ArmorValuesView {
    sized(
        before.placed(colors).valued(armor_values_of(af)).annotated(overrides).turreted(
            ta,
            overrides,
        ),
        target_size_of(size, overrides),
        colors,
    )
}

impl ArmorValue {
    fn color_large(&mut self, colors: &Colors)
        ensures
            final(self)@ == large_colored(old(self)@, colors@),
    {
        self.fill_color = colors.large_target.clone();
        self.modifier_color = colors.large_target.clone();
    }

    fn color_normal_unarmored(&mut self, colors: &Colors)
        ensures
            final(self)@ == normal_unarmored(old(self)@, colors@),
    {
        if self.is_unarmored() {
            self.fill_color = colors.normal_unarmored_target_fill.clone();
            self.stroke_color = colors.normal_unarmored_target_stroke.clone();
        }
    }

    fn color_small(&mut self, colors: &Colors)
        ensures
            final(self)@ == small_colored(old(self)@, colors@),
    {
        if self.is_unarmored() {
            self.stroke_color = colors.small_unarmored_target_stroke.clone();
            self.fill_color = colors.small_unarmored_target_fill.clone();
            self.small_target_circle = false;
        } else {
            self.small_target_circle = true;
            self.small_target_circle_color = colors.small_target_circle.clone();
        }
    }

    fn color_side_of_small(&mut self, colors: &Colors)
        ensures
            final(self)@ == side_of_small(old(self)@, colors@),
    {
        if self.is_unarmored() {
            self.stroke_color = colors.normal_unarmored_target_stroke.clone();
            self.fill_color = colors.normal_unarmored_target_fill.clone();
            self.small_target_circle = false;
        } else {
            self.small_target_circle = false;
        }
    }
}

impl ArmorValues {
    /// Sets the values of a row, and says whether their number was two or
    /// three.
    pub fn set_values(&mut self, values: &Vec<String>) -> (fits: bool)
        ensures
            final(self)@ == old(self)@.valued(values.deep_view()),
            fits == (values.len() == 2 || values.len() == 3),
    {
        if values.len() == 2 {
            assert(values.deep_view()[0] == values[0]@);
            assert(values.deep_view()[1] == values[1]@);
            self.front.value = values[0].clone();
            self.side.value = values[1].clone();
            self.count = 2;
            true
        } else if values.len() == 3 {
            assert(values.deep_view()[0] == values[0]@);
            assert(values.deep_view()[1] == values[1]@);
            assert(values.deep_view()[2] == values[2]@);
            self.front.value = values[0].clone();
            self.side.value = values[1].clone();
            self.rear.value = values[2].clone();
            self.count = 3;
            true
        } else {
            false
        }
    }

    /// Applies one turret-armour modifier.
    pub fn apply_modifier(&mut self, modifier: &String)
        ensures
            final(self)@ == old(self)@.modified(modifier@),
    {
        let m = to_chars(modifier.as_str());
        if same_chars(&m, &to_chars("--F")) {
            self.front.modifier = ArmorModifier::ExtraInferior;
        } else if same_chars(&m, &to_chars("-FSR")) {
            self.front.modifier = ArmorModifier::Inferior;
            self.side.modifier = ArmorModifier::Inferior;
            self.rear.modifier = ArmorModifier::Inferior;
        } else if same_chars(&m, &to_chars("+FSR")) {
            self.front.modifier = ArmorModifier::Superior;
            self.side.modifier = ArmorModifier::Superior;
            self.rear.modifier = ArmorModifier::Superior;
        } else if same_chars(&m, &to_chars("-SR")) {
            self.side.modifier = ArmorModifier::Inferior;
            self.rear.modifier = ArmorModifier::Inferior;
        } else if same_chars(&m, &to_chars("+SR")) {
            self.side.modifier = ArmorModifier::Superior;
            self.rear.modifier = ArmorModifier::Superior;
        } else if same_chars(&m, &to_chars("-F")) {
            self.front.modifier = ArmorModifier::Inferior;
        } else if same_chars(&m, &to_chars("+F")) {
            self.front.modifier = ArmorModifier::Superior;
        }
    }

    /// Applies the turret-armour modifiers of a row.
    pub fn apply_turret_armor(&mut self, ta: &String, overrides: &Overrides)
        ensures
            final(self)@ == old(self)@.turreted(ta@, overrides@),
    {
        let text: &String = if overrides.turret_armor_modifiers.as_str().is_empty() {
            ta
        } else {
            &overrides.turret_armor_modifiers
        };
        if !text.as_str().is_empty() {
            let modifiers = extract_armor_modifier_values(text);
            let ghost all = armor_modifiers_of(text@);
            let mut n: usize = 0;
            assert(all.subrange(0, 0) =~= Seq::<Seq<char>>::empty());
            while n < modifiers.len()
                invariant
                    n <= modifiers.len(),
                    modifiers.deep_view() == all,
                    self@ == old(self)@.modified_all(all.subrange(0, n as int)),
                decreases modifiers.len() - n,
            {
                let ghost upto = all.subrange(0, n + 1);
                assert(upto.subrange(0, upto.len() - 1) =~= all.subrange(0, n as int));
                assert(upto[upto.len() - 1] == modifiers[n as int]@);
                self.apply_modifier(&modifiers[n]);
                n = n + 1;
            }
            assert(all.subrange(0, modifiers.len() as int) =~= all);
        }
    }

    /// Sets the target size and the colours that it calls for.
    pub fn apply_target_size(&mut self, size: i64, colors: &Colors)
        ensures
            final(self)@ == sized(old(self)@, size as int, colors@),
    {
        self.target_size = size;
        if size == -3 {
            self.front.color_large(colors);
            self.side.color_large(colors);
            self.rear.color_large(colors);
            self.rear.large_target_circle = true;
        } else if size == -2 {
            self.front.color_large(colors);
            self.side.color_large(colors);
        } else if size == -1 {
            self.front.color_large(colors);
            self.side.color_normal_unarmored(colors);
        } else if size == 0 {
            self.front.color_normal_unarmored(colors);
            self.side.color_normal_unarmored(colors);
        } else if size == 1 {
            self.front.color_small(colors);
            self.side.color_side_of_small(colors);
        } else if size == 2 {
            self.front.color_small(colors);
            self.side.color_small(colors);
        }
    }

    /// Reads the armour of a vehicle from its row. The armour factors give
    /// the values; overrides replace them; footnote tags become marks; the
    /// turret-armour modifiers and the target size follow. Factors that are
    /// neither two nor three in number are reported as an error that holds
    /// them; the values then stay as they were and everything else is still
    /// done.
    pub fn initialize(
        &mut self,
        af: &String,
        ta: &String,
        size: &String,
        overrides: &Overrides,
        colors: &Colors,
    ) -> (r: Result<(), DirectiveError>)
        ensures
            final(self)@ == armor_initialized(old(self)@, af@, ta@, size@, overrides@, colors@),
            r is Ok <==> armor_values_of(af@).len() == 2 || armor_values_of(af@).len() == 3,
            r matches Err(e) ==> e matches DirectiveError::MissingRequiredSplit(t) && t@ == af@,
    {
        self.front.initialize(FAR_Y_POSITION, "Front Armor".to_string(), colors);
        self.side.initialize(SAR_Y_POSITION, "Side/Rear Armor".to_string(), colors);
        self.rear.initialize(RAR_Y_POSITION, "Rear Armor".to_string(), colors);
        let armor_values = extract_armor_values(af);
        let fits = self.set_values(&armor_values);
        self.front.override_value(&overrides.armor_front);
        self.side.override_value(&overrides.armor_side);
        self.rear.override_value(&overrides.armor_rear);
        self.front.note_all();
        self.side.note_all();
        self.rear.note_all();
        self.apply_turret_armor(ta, overrides);
        let target_size: i64 = if !overrides.target_size.as_str().is_empty() {
            parse_integer(&to_chars(overrides.target_size.as_str()))
        } else {
            parse_integer(&strip_char(&to_chars(size.as_str()), DAGGER))
        };
        self.apply_target_size(target_size, colors);
        if fits {
            Ok(())
        } else {
            Err(DirectiveError::MissingRequiredSplit(af.clone()))
        }
    }
}

} // verus!
