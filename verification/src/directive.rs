//! The directive tokenizer: the chain behind a key is cut at its delimiter
//! into an ordered list of directives.

use vstd::prelude::*;
use crate::metrics::{parse_size_delta, size_delta, METRIC_LIMIT};
use crate::overrides::{
    is_alternate_location, names_location, MOD_DEC_SIZE, MOD_DELIMITER2, MOD_INC_SIZE,
};
use crate::scan::{contains_text, to_chars};
use crate::text::occurs_in;
use crate::utils::{entries_of, extract_from, extract_vector, value_for};

verus! {

/// What a `Directive` holds.
pub enum DirectiveView {
    FieldReplace(Seq<char>),
    SizeDelta(int),
    AlternateLocation(Seq<char>),
    Unrecognized(Seq<char>),
}

/// One token of a directive chain.
#[derive(Debug)]
pub enum Directive {
    /// The text that replaces the field's text; the copy-field sentinel in
    /// it stands for the original text.
    FieldReplace(String),
    /// A change of the font size, in hundredths of a pixel.
    SizeDelta(i64),
    /// One of the four named alternate locations.
    AlternateLocation(String),
    /// Any other token.
    Unrecognized(String),
}

impl View for Directive {
    type V = DirectiveView;

    open spec fn view(&self) -> DirectiveView {
        match *self {
            Directive::FieldReplace(t) => DirectiveView::FieldReplace(t@),
            Directive::SizeDelta(d) => DirectiveView::SizeDelta(d as int),
            Directive::AlternateLocation(t) => DirectiveView::AlternateLocation(t@),
            Directive::Unrecognized(t) => DirectiveView::Unrecognized(t@),
        }
    }
}

/// The directive that `entry` is at `position` of its chain. The first
/// entry is the replacement text. A later entry that holds the mark of a
/// size increase or decrease changes the size by the number behind the
/// mark, or by nothing where that is no number; one that names an alternate
/// location moves the field; any other is not recognized.
pub open spec fn directive_of(position: int, entry: Seq<char>) -> DirectiveView {
    if position == 0 {
        DirectiveView::FieldReplace(entry)
    } else if occurs_in(MOD_INC_SIZE@, entry) {
        DirectiveView::SizeDelta(size_delta(value_for(entry, MOD_INC_SIZE@)))
    } else if occurs_in(MOD_DEC_SIZE@, entry) {
        DirectiveView::SizeDelta(-size_delta(value_for(entry, MOD_DEC_SIZE@)))
    } else if names_location(entry) {
        DirectiveView::AlternateLocation(entry)
    } else {
        DirectiveView::Unrecognized(entry)
    }
}

/// The directives of a chain, in order.
pub open spec fn directives_of(chain: Seq<Seq<char>>) -> Seq<DirectiveView> {
    Seq::new(chain.len(), |i: int| directive_of(i, chain[i]))
}

/// Reads the entry at `position` of a chain.
pub fn parse_directive(position: usize, entry: &String) -> (d: Directive)
    ensures
        d@ == directive_of(position as int, entry@),
        d matches Directive::SizeDelta(v) ==> -METRIC_LIMIT - 99 <= v <= METRIC_LIMIT + 99,
{
    let e = to_chars(entry.as_str());
    if position == 0 {
        Directive::FieldReplace(entry.clone())
    } else if contains_text(&e, &to_chars(MOD_INC_SIZE)) {
        let number = extract_from(entry.as_str(), MOD_INC_SIZE);
        Directive::SizeDelta(parse_size_delta(&to_chars(number.as_str())))
    } else if contains_text(&e, &to_chars(MOD_DEC_SIZE)) {
        let number = extract_from(entry.as_str(), MOD_DEC_SIZE);
        Directive::SizeDelta(-parse_size_delta(&to_chars(number.as_str())))
    } else if is_alternate_location(entry.clone()) {
        Directive::AlternateLocation(entry.clone())
    } else {
        Directive::Unrecognized(entry.clone())
    }
}

/// Cuts the chain `overrides` at its delimiter and reads each entry.
pub fn tokenize(overrides: &String) -> (r: Vec<Directive>)
    ensures
        r@.map_values(|d: Directive| d@) == directives_of(entries_of(overrides@, MOD_DELIMITER2)),
{
    let entries = extract_vector(overrides, MOD_DELIMITER2);
    let ghost chain = entries_of(overrides@, MOD_DELIMITER2);
    let mut r: Vec<Directive> = Vec::new();
    let mut i: usize = 0;
    while i < entries.len()
        invariant
            i <= entries.len(),
            entries.deep_view() == chain,
            r.len() == i,
            forall|k: int| 0 <= k < i ==> (#[trigger] r@[k])@ == directive_of(k, chain[k]),
        decreases entries.len() - i,
    {
        assert(chain[i as int] == entries[i as int]@);
        let d = parse_directive(i, &entries[i]);
        r.push(d);
        i = i + 1;
    }
    assert(r@.map_values(|d: Directive| d@) =~= directives_of(chain));
    r
}

} // verus!
