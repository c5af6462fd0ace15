//! Tag substitution: the ordered rewrite rules that take a footnote tag out
//! of a field's text and attach the mark that it stands for.

use vstd::prelude::*;
use crate::scan::{
    contains_char, contains_text, cut_before, replace_text, starts_with_text, to_chars, to_text,
};
use crate::text::{
    before_first, begins_with, lemma_absent_char, lemma_before_first_char, lemma_occurs_char,
    lemma_replaced_char_gone, occurs_in, replaced,
};
use crate::text_field::{
    Note, NoteAction, NoteView, DAGGER, FIVE_LOBED_ASTERISK, FIVE_LOBED_ASTERISK_SVG,
    FIVE_LOBED_ASTERISK_TAG, FIVE_LOBED_ASTERISK_UC, SIX_LOBED_ASTERISK_TAG,
    SIX_LOBED_ASTERISK_UC, UNDERLINED_CALIBER_NOTE_TAG,
};

verus! {

/// The bare five-lobed glyph.
pub const FIVE_LOBED_GLYPH: &'static str = "*";

/// What a `TaggedText` holds.
pub struct TaggedTextView {
    pub text: Seq<char>,
    pub note: NoteView,
}

/// A field's text together with the mark resolved from it so far.
#[derive(Debug)]
pub struct TaggedText {
    pub text: String,
    pub note: Note,
}

impl View for TaggedText {
    type V = TaggedTextView;

    open spec fn view(&self) -> TaggedTextView {
        TaggedTextView { text: self.text@, note: self.note@ }
    }
}

/// One rewrite rule. Where `tag` occurs in the text, every occurrence is
/// taken out; if no mark is attached yet, the mark `glyph` is attached,
/// before the text where the text began with the tag or the rule always
/// prefixes, after it otherwise. A mark that is already attached stays.
pub open spec fn tag_rule(
    m: TaggedTextView,
    tag: Seq<char>,
    glyph: Seq<char>,
    always_prefix: bool,
) -> TaggedTextView {
    if occurs_in(tag, m.text) {
        TaggedTextView {
            text: replaced(m.text, tag, Seq::empty()),
            note: if m.note.action == NoteAction::Unset {
                NoteView {
                    action: if always_prefix || begins_with(m.text, tag) {
                        NoteAction::Prefix
                    } else {
                        NoteAction::Postfix
                    },
                    text: glyph,
                }
            } else {
                m.note
            },
        }
    } else {
        m
    }
}

/// The dagger rule. Where a dagger stands in the text, the text is cut
/// before the first one; if no mark is attached yet, `mark` is attached.
pub open spec fn dagger_rule(m: TaggedTextView, mark: NoteView) -> TaggedTextView {
    if m.text.contains(DAGGER) {
        TaggedTextView {
            text: before_first(m.text, seq![DAGGER]),
            note: if m.note.action == NoteAction::Unset {
                mark
            } else {
                m.note
            },
        }
    } else {
        m
    }
}

/// The rule for the bracketed five-lobed tag.
pub open spec fn five_lobed_rule(m: TaggedTextView) -> TaggedTextView {
    tag_rule(m, FIVE_LOBED_ASTERISK_TAG@, FIVE_LOBED_ASTERISK_UC@, false)
}

/// The rule for the angle six-lobed tag.
pub open spec fn six_lobed_rule(m: TaggedTextView) -> TaggedTextView {
    tag_rule(m, SIX_LOBED_ASTERISK_TAG@, SIX_LOBED_ASTERISK_UC@, false)
}

/// The rule for the underline-note tag.
pub open spec fn underline_rule(m: TaggedTextView) -> TaggedTextView {
    tag_rule(m, UNDERLINED_CALIBER_NOTE_TAG@, FIVE_LOBED_ASTERISK_SVG@, true)
}

/// The rule for the bare five-lobed glyph.
pub open spec fn glyph_rule(m: TaggedTextView) -> TaggedTextView {
    tag_rule(m, FIVE_LOBED_GLYPH@, FIVE_LOBED_ASTERISK_UC@, false)
}

/// The four asterisk rules in their order of priority.
pub open spec fn asterisk_rules(m: TaggedTextView) -> TaggedTextView {
    glyph_rule(underline_rule(six_lobed_rule(five_lobed_rule(m))))
}

/// The whole rule set: the asterisk rules, then the dagger rule.
pub open spec fn substituted(m: TaggedTextView, mark: NoteView) -> TaggedTextView {
    dagger_rule(asterisk_rules(m), mark)
}

impl TaggedText {
    /// A text with no mark attached.
    pub fn new(text: String) -> (r: TaggedText)
        ensures
            r@ == (TaggedTextView { text: text@, note: NoteView::unset() }),
    {
        TaggedText { text: text, note: Note::default() }
    }

    /// Applies one rewrite rule.
    pub fn apply_tag_rule(&mut self, tag: &str, glyph: &str, always_prefix: bool)
        ensures
            final(self)@ == tag_rule(old(self)@, tag@, glyph@, always_prefix),
    {
        let t = to_chars(self.text.as_str());
        let g = to_chars(tag);
        if contains_text(&t, &g) {
            match self.note.action {
                NoteAction::Unset => {
                    let action = if always_prefix || starts_with_text(&t, &g) {
                        NoteAction::Prefix
                    } else {
                        NoteAction::Postfix
                    };
                    self.note = Note::new(action, glyph);
                },
                _ => {},
            }
            let empty: Vec<char> = Vec::new();
            self.text = to_text(&replace_text(&t, &g, &empty));
        }
    }

    /// Applies the dagger rule with the mark that the field's context gives.
    pub fn apply_dagger_rule(&mut self, mark: &Note)
        ensures
            final(self)@ == dagger_rule(old(self)@, mark@),
    {
        let t = to_chars(self.text.as_str());
        if contains_char(&t, DAGGER) {
            match self.note.action {
                NoteAction::Unset => {
                    self.note = mark.clone();
                },
                _ => {},
            }
            let mut dagger: Vec<char> = Vec::new();
            dagger.push(DAGGER);
            assert(dagger@ =~= seq![DAGGER]);
            self.text = to_text(&cut_before(&t, &dagger));
        }
    }

    /// Applies the four asterisk rules in their order of priority.
    pub fn apply_asterisk_rules(&mut self)
        ensures
            final(self)@ == asterisk_rules(old(self)@),
    {
        self.apply_tag_rule(FIVE_LOBED_ASTERISK_TAG, FIVE_LOBED_ASTERISK_UC, false);
        self.apply_tag_rule(SIX_LOBED_ASTERISK_TAG, SIX_LOBED_ASTERISK_UC, false);
        self.apply_tag_rule(UNDERLINED_CALIBER_NOTE_TAG, FIVE_LOBED_ASTERISK_SVG, true);
        self.apply_tag_rule(FIVE_LOBED_GLYPH, FIVE_LOBED_ASTERISK_UC, false);
    }

    /// Applies the whole rule set. A mark that was attached before stays;
    /// where none was and the bracketed five-lobed tag occurs, the mark
    /// comes from that tag whatever else the text holds.
    pub fn substitute(&mut self, mark: &Note)
        ensures
            final(self)@ == substituted(old(self)@, mark@),
            old(self).note.action != NoteAction::Unset ==> final(self).note@ == old(self).note@,
            old(self).note.action == NoteAction::Unset && occurs_in(
                FIVE_LOBED_ASTERISK_TAG@,
                old(self).text@,
            ) ==> final(self).note@ == (NoteView {
                action: if begins_with(old(self).text@, FIVE_LOBED_ASTERISK_TAG@) {
                    NoteAction::Prefix
                } else {
                    NoteAction::Postfix
                },
                text: FIVE_LOBED_ASTERISK_UC@,
            }),
    {
        self.apply_asterisk_rules();
        self.apply_dagger_rule(mark);
    }
}

/// Runs the whole rule set on `text`, with no mark attached beforehand.
pub fn substitute_tags(text: &String, mark: &Note) -> (r: TaggedText)
    ensures
        r@ == substituted(TaggedTextView { text: text@, note: NoteView::unset() }, mark@),
{
    let mut r = TaggedText::new(text.clone());
    r.substitute(mark);
    r
}

/// After the asterisk rules, the text holds no five-lobed glyph.
pub proof fn lemma_asterisk_rules_clean(m: TaggedTextView)
    ensures
        !asterisk_rules(m).text.contains(FIVE_LOBED_ASTERISK),
{
    reveal_strlit("*");
    let u = underline_rule(six_lobed_rule(five_lobed_rule(m)));
    let a = glyph_rule(u);
    assert(FIVE_LOBED_GLYPH@ =~= seq!['*']);
    lemma_occurs_char(u.text, '*');
    lemma_replaced_char_gone(u.text, '*');
    assert(!a.text.contains('*'));
}

/// After the whole rule set, the text holds neither a five-lobed glyph nor
/// a dagger.
pub proof fn lemma_substituted_clean(m: TaggedTextView, mark: NoteView)
    ensures
        !substituted(m, mark).text.contains(FIVE_LOBED_ASTERISK),
        !substituted(m, mark).text.contains(DAGGER),
{
    lemma_asterisk_rules_clean(m);
    lemma_before_first_char(asterisk_rules(m).text, DAGGER);
}

/// A text that holds no five-lobed glyph is left alone by the asterisk
/// rules.
pub proof fn lemma_asterisk_rules_rest(m: TaggedTextView)
    requires
        !m.text.contains(FIVE_LOBED_ASTERISK),
    ensures
        asterisk_rules(m) == m,
{
    reveal_strlit("*");
    reveal_strlit("[*]");
    reveal_strlit("<*>");
    reveal_strlit("[_*]");
    assert(FIVE_LOBED_ASTERISK_TAG@[1] == '*');
    assert(SIX_LOBED_ASTERISK_TAG@[1] == '*');
    assert(UNDERLINED_CALIBER_NOTE_TAG@[2] == '*');
    assert(FIVE_LOBED_GLYPH@[0] == '*');
    lemma_absent_char(m.text, FIVE_LOBED_ASTERISK_TAG@, '*');
    lemma_absent_char(m.text, SIX_LOBED_ASTERISK_TAG@, '*');
    lemma_absent_char(m.text, UNDERLINED_CALIBER_NOTE_TAG@, '*');
    lemma_absent_char(m.text, FIVE_LOBED_GLYPH@, '*');
}

/// Tag substitution is idempotent: run on its own output, with the mark
/// that the first run attached, the rule set changes neither the text nor
/// the mark.
pub proof fn lemma_substitution_idempotent(m: TaggedTextView, mark: NoteView)
    ensures
        substituted(substituted(m, mark), mark) == substituted(m, mark),
{
    let r = substituted(m, mark);
    lemma_substituted_clean(m, mark);
    lemma_asterisk_rules_rest(r);
}

/// The rule set never replaces a mark: one that is attached beforehand is
/// still attached afterwards, whatever tags and daggers the text holds.
pub proof fn lemma_mark_set_once(m: TaggedTextView, mark: NoteView)
    requires
        m.note.action != NoteAction::Unset,
    ensures
        substituted(m, mark).note == m.note,
{
}

/// The bracketed five-lobed tag has priority: where it occurs and no mark is
/// attached beforehand, the mark comes from it, placed by where the tag
/// stood, and neither a later rule nor the dagger rule replaces it.
pub proof fn lemma_five_lobed_priority(m: TaggedTextView, mark: NoteView)
    requires
        m.note.action == NoteAction::Unset,
        occurs_in(FIVE_LOBED_ASTERISK_TAG@, m.text),
    ensures
        substituted(m, mark).note == (NoteView {
            action: if begins_with(m.text, FIVE_LOBED_ASTERISK_TAG@) {
                NoteAction::Prefix
            } else {
                NoteAction::Postfix
            },
            text: FIVE_LOBED_ASTERISK_UC@,
        }),
{
}

} // verus!
