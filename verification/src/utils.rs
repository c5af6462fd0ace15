//! Text helpers shared by every kind of counter.

use vstd::prelude::*;
use crate::metrics::{format_metric, metric_text};
use crate::overrides::OVERRIDE_DELIMITER;
use crate::pattern::{regex_capture, regex_captured, regex_replace_all, regex_replaced, view_of};
use crate::scan::{
    contains_char, contains_text, cut_before, extend_chars, find_text, join_chars, replace_text,
    same_chars, slice_chars, split_once_text, split_text, strip_char, to_chars, to_text, trim_text,
};
use crate::text::{
    before_first, first_match, lemma_occurs_iff_first_match, occurs_in, replaced, split_by,
    split_once_at, trimmed, without,
};
use crate::text_field::{FontsObj, DAGGER, FA_SUP_SIZE};

verus! {

/// The gap between two elements of the gun column.
pub const GUN_COLUMN_Y_GAP: i64 = 200;

pub fn strip_all_occurances(original: &str, character: char) -> (r: String)
    ensures
        r@ == without(original@, character),
{
    to_text(&strip_char(&to_chars(original), character))
}

pub fn strip_dagger_and_any_superscript_from_end(original: &String) -> (r: String)
    ensures
        r@ == before_first(original@, seq![DAGGER]),
{
    let mut dagger: Vec<char> = Vec::new();
    dagger.push(DAGGER);
    assert(dagger@ =~= seq![DAGGER]);
    to_text(&cut_before(&to_chars(original.as_str()), &dagger))
}

pub fn strip_opt(original: &String) -> (r: String)
    ensures
        r@ == before_first(original@, "Opt"@),
{
    to_text(&cut_before(&to_chars(original.as_str()), &to_chars("Opt")))
}

pub fn mask_closing_html_tags(original: &String) -> (r: String)
    ensures
        r@ == replaced(original@, "</"@, "<?"@),
{
    to_text(&replace_text(&to_chars(original.as_str()), &to_chars("</"), &to_chars("<?")))
}

pub fn unmask_closing_html_tags(original: &String) -> (r: String)
    ensures
        r@ == replaced(original@, "<?"@, "</"@),
{
    to_text(&replace_text(&to_chars(original.as_str()), &to_chars("<?"), &to_chars("</")))
}

/// The entries of `source`: none for the empty text; `source` itself where
/// `delimiter` does not occur in it; else the pieces between the
/// delimiters, each without the white space at its ends.
pub open spec fn entries_of(source: Seq<char>, delimiter: char) -> Seq<Seq<char>> {
    if source.len() == 0 {
        Seq::empty()
    } else if source.contains(delimiter) {
        split_by(source, delimiter).map_values(|piece: Seq<char>| trimmed(piece))
    } else {
        seq![source]
    }
}

/// A text that holds the delimiter has at least two entries.
pub proof fn lemma_entries_of_split(source: Seq<char>, delimiter: char)
    requires
        source.contains(delimiter),
    ensures
        entries_of(source, delimiter).len() >= 2,
{
    crate::text::lemma_first_match_from(source, seq![delimiter], 0);
    crate::text::lemma_occurs_char(source, delimiter);
    crate::text::lemma_occurs_iff_first_match(source, seq![delimiter]);
    let k = first_match(source, seq![delimiter])->0;
    let rest = source.subrange(k + 1, source.len() as int);
    assert(split_by(rest, delimiter).len() >= 1);
}

pub fn extract_vector(source: &String, delimiter: char) -> (result: Vec<String>)
    ensures
        result.deep_view() == entries_of(source@, delimiter),
{
    let mut result: Vec<String> = Vec::new();
    let s = to_chars(source.as_str());
    if s.len() == 0 {
        assert(result.deep_view() =~= Seq::<Seq<char>>::empty());
        return result;
    }
    if contains_char(&s, delimiter) {
        let pieces = split_text(&s, delimiter);
        let mut i: usize = 0;
        assert(result.deep_view() =~= Seq::<Seq<char>>::empty());
        while i < pieces.len()
            invariant
                i <= pieces.len(),
                pieces.deep_view() == split_by(s@, delimiter),
                result.deep_view() == split_by(s@, delimiter).subrange(0, i as int).map_values(
                    |piece: Seq<char>| trimmed(piece),
                ),
            decreases pieces.len() - i,
        {
            let ghost before = result.deep_view();
            assert(pieces.deep_view()[i as int] =~= pieces[i as int]@);
            let entry = to_text(&trim_text(&pieces[i]));
            result.push(entry);
            i = i + 1;
            assert(result.deep_view() =~= before.push(
                trimmed(split_by(s@, delimiter)[i - 1]),
            ));
            assert(result.deep_view() =~= split_by(s@, delimiter).subrange(
                0,
                i as int,
            ).map_values(|piece: Seq<char>| trimmed(piece)));
        }
        assert(split_by(s@, delimiter).subrange(0, pieces.len() as int) =~= split_by(
            s@,
            delimiter,
        ));
    } else {
        result.push(source.clone());
        assert(result.deep_view() =~= seq![source@]);
    }
    result
}

/// What follows the first `target.len()` characters of the last of
/// `entries` in which `target` occurs; empty where it occurs in none.
pub open spec fn last_value(entries: Seq<Seq<char>>, target: Seq<char>) -> Seq<char>
    decreases entries.len(),
{
    if entries.len() == 0 {
        Seq::empty()
    } else {
        let entry = entries[entries.len() - 1];
        if occurs_in(target, entry) {
            entry.subrange(target.len() as int, entry.len() as int)
        } else {
            last_value(entries.subrange(0, entries.len() - 1), target)
        }
    }
}

/// The value that `source` gives for the key `target`: `source` is cut at
/// each override delimiter, and the last piece that holds the key gives its
/// text behind the key's length.
pub open spec fn value_for(source: Seq<char>, target: Seq<char>) -> Seq<char> {
    if occurs_in(target, source) {
        last_value(split_by(source, OVERRIDE_DELIMITER), target)
    } else {
        Seq::empty()
    }
}

pub fn extract_from(source: &str, target: &str) -> (result: String)
    ensures
        result@ == value_for(source@, target@),
{
    let s = to_chars(source);
    let t = to_chars(target);
    let mut result: Vec<char> = Vec::new();
    if contains_text(&s, &t) {
        let pieces = split_text(&s, OVERRIDE_DELIMITER);
        let mut i: usize = 0;
        assert(pieces.deep_view().subrange(0, 0) =~= Seq::<Seq<char>>::empty());
        while i < pieces.len()
            invariant
                i <= pieces.len(),
                t@ == target@,
                result@ == last_value(pieces.deep_view().subrange(0, i as int), t@),
            decreases pieces.len() - i,
        {
            let ghost upto = pieces.deep_view().subrange(0, i + 1);
            assert(upto.subrange(0, upto.len() - 1) =~= pieces.deep_view().subrange(0, i as int));
            assert(upto[upto.len() - 1] =~= pieces[i as int]@);
            if contains_text(&pieces[i], &t) {
                proof {
                    lemma_occurs_iff_first_match(pieces[i as int]@, t@);
                }
                result = slice_chars(&pieces[i], t.len(), pieces[i].len());
            }
            i = i + 1;
        }
        assert(pieces.deep_view().subrange(0, pieces.len() as int) =~= pieces.deep_view());
    }
    to_text(&result)
}

/// What lies in `source` between the first `after` and the first `before`:
/// from behind `after` to the end where `before` does not occur, nothing
/// where `after` does not occur or `before` starts ahead of that point.
pub open spec fn text_between(source: Seq<char>, before: Seq<char>, after: Seq<char>) -> Seq<
    char,
> {
    match first_match(source, after) {
        Some(a) => {
            let start = a + after.len();
            match first_match(source, before) {
                Some(end) => if start <= end {
                    source.subrange(start, end)
                } else {
                    Seq::empty()
                },
                None => source.subrange(start, source.len() as int),
            }
        },
        None => Seq::empty(),
    }
}

pub fn extract_string(source: &String, before: &str, after: &str) -> (result: String)
    ensures
        result@ == text_between(source@, before@, after@),
{
    let s = to_chars(source.as_str());
    let b = to_chars(before);
    let a = to_chars(after);
    proof {
        lemma_occurs_iff_first_match(s@, a@);
        lemma_occurs_iff_first_match(s@, b@);
    }
    match find_text(&s, &a) {
        Some(at) => {
            let n: usize = s.len();
            let m: usize = a.len();
            assert(at + m <= n);
            let start: usize = at + m;
            match find_text(&s, &b) {
                Some(end) => {
                    if start <= end {
                        to_text(&slice_chars(&s, start, end))
                    } else {
                        String::new()
                    }
                },
                None => to_text(&slice_chars(&s, start, n)),
            }
        },
        None => String::new(),
    }
}

/// `source` up to the first `before`, if there is one, followed by what
/// stands behind the first character of the first `after`, if there is one.
pub open spec fn text_around(source: Seq<char>, before: Seq<char>, after: Seq<char>) -> Seq<
    char,
> {
    (match first_match(source, before) {
        Some(b) => source.subrange(0, b),
        None => Seq::empty(),
    }) + (match first_match(source, after) {
        Some(a) => if a + 1 <= source.len() {
            source.subrange(a + 1, source.len() as int)
        } else {
            Seq::empty()
        },
        None => Seq::empty(),
    })
}

pub fn remove_string(source: &String, before: &str, after: &str) -> (result: String)
    ensures
        result@ == text_around(source@, before@, after@),
{
    let s = to_chars(source.as_str());
    let b = to_chars(before);
    let a = to_chars(after);
    proof {
        lemma_occurs_iff_first_match(s@, a@);
        lemma_occurs_iff_first_match(s@, b@);
    }
    let mut result: Vec<char> = Vec::new();
    match find_text(&s, &b) {
        Some(at) => {
            result = slice_chars(&s, 0, at);
        },
        None => {},
    }
    match find_text(&s, &a) {
        Some(at) => {
            if at < s.len() {
                let tail = slice_chars(&s, at + 1, s.len());
                extend_chars(&mut result, &tail);
            }
        },
        None => {},
    }
    assert(result@ =~= text_around(s@, b@, a@));
    to_text(&result)
}

/// Replaces every occurrence of `old_text` in `source` by `new_text`.
pub fn convert_text(source: &String, old_text: &str, new_text: &str) -> (r: String)
    ensures
        r@ == replaced(source@, old_text@, new_text@),
{
    to_text(&replace_text(&to_chars(source.as_str()), &to_chars(old_text), &to_chars(new_text)))
}

pub fn construct_path(nationality: &String, category: &'static str, destination: &String) -> (r:
    String)
    ensures
        r@ == destination@ + nationality@ + "/"@ + category@ + "/"@,
{
    let mut r = to_chars(destination.as_str());
    extend_chars(&mut r, &to_chars(nationality.as_str()));
    extend_chars(&mut r, &to_chars("/"));
    extend_chars(&mut r, &to_chars(category));
    extend_chars(&mut r, &to_chars("/"));
    to_text(&r)
}

pub fn construct_copy_paths(
    nationality: &String,
    category: &'static str,
    name: &String,
    destination: &String,
) -> (result: Vec<String>)
    ensures
        result.len() == 2,
        result[0]@ == "./cached/"@ + nationality@ + "/"@ + category@ + "/"@ + name@ + ".svg"@,
        result[1]@ == destination@ + nationality@ + "/"@ + category@ + "/"@ + name@ + ".svg"@,
{
    let mut tail = to_chars(nationality.as_str());
    extend_chars(&mut tail, &to_chars("/"));
    extend_chars(&mut tail, &to_chars(category));
    extend_chars(&mut tail, &to_chars("/"));
    extend_chars(&mut tail, &to_chars(name.as_str()));
    extend_chars(&mut tail, &to_chars(".svg"));
    let mut result: Vec<String> = Vec::new();
    let source = join_chars(&to_chars("./cached/"), &tail);
    assert(source@ =~= "./cached/"@ + nationality@ + "/"@ + category@ + "/"@ + name@ + ".svg"@);
    result.push(to_text(&source));
    let target = join_chars(&to_chars(destination.as_str()), &tail);
    assert(target@ =~= destination@ + nationality@ + "/"@ + category@ + "/"@ + name@ + ".svg"@);
    result.push(to_text(&target));
    result
}

pub fn get_nationality(nationality_abbreviation: &String) -> (nationality: String)
    ensures
        nationality@ == if nationality_abbreviation@ == "ge"@ {
            "German"@
        } else {
            "unknown"@
        },
{
    if same_chars(&to_chars(nationality_abbreviation.as_str()), &to_chars("ge")) {
        "German".to_string()
    } else {
        "unknown".to_string()
    }
}

pub fn strip_html_italics_only(original: &String) -> (result: String)
    ensures
        result@ == replaced(replaced(original@, "<i>"@, Seq::empty()), "</i>"@, Seq::empty()),
{
    let empty: Vec<char> = Vec::new();
    let first = replace_text(&to_chars(original.as_str()), &to_chars("<i>"), &empty);
    to_text(&replace_text(&first, &to_chars("</i>"), &empty))
}

/// `s` without its first `mark`, where it has one.
pub open spec fn without_first(s: Seq<char>, mark: Seq<char>) -> Seq<char> {
    match split_once_at(s, mark) {
        Some((left, right)) => left + right,
        None => s,
    }
}

/// `s` without its first opening bold tag and, where it had one, without the
/// first closing bold tag of what is left.
pub open spec fn unbolded(s: Seq<char>) -> Seq<char> {
    if occurs_in("<b>"@, s) {
        without_first(without_first(s, "<b>"@), "</b>"@)
    } else {
        s
    }
}

/// `s` without its first `mark`.
pub fn drop_first(s: &Vec<char>, mark: &Vec<char>) -> (r: Vec<char>)
    ensures
        r@ == without_first(s@, mark@),
{
    match split_once_text(s, mark) {
        Some((left, right)) => join_chars(&left, &right),
        None => {
            let r = slice_chars(s, 0, s.len());
            assert(s@.subrange(0, s.len() as int) =~= s@);
            r
        },
    }
}

/// Whether the bold span of `s` is closed: a closing bold tag stands
/// behind the first opening one. A text without an opening tag has nothing
/// to close.
pub open spec fn bold_closes(s: Seq<char>) -> bool {
    occurs_in("<b>"@, s) ==> occurs_in("</b>"@, without_first(s, "<b>"@))
}

/// Whether the bold span of `original` is closed.
pub fn check_bold_closes(original: &str) -> (r: bool)
    ensures
        r == bold_closes(original@),
{
    let s = to_chars(original);
    if contains_text(&s, &to_chars("<b>")) {
        let opened = drop_first(&s, &to_chars("<b>"));
        contains_text(&opened, &to_chars("</b>"))
    } else {
        true
    }
}

/// Takes the first bold span of `original` out: its opening tag and the
/// closing tag behind it. The span has to be closed.
pub fn strip_html_bold(original: &str) -> (result: String)
    requires
        bold_closes(original@),
    ensures
        result@ == unbolded(original@),
{
    let s = to_chars(original);
    if contains_text(&s, &to_chars("<b>")) {
        let opened = drop_first(&s, &to_chars("<b>"));
        to_text(&drop_first(&opened, &to_chars("</b>")))
    } else {
        to_text(&s)
    }
}

/// Takes the first bold span of `original` out, closed or not: a span that
/// is not closed loses its opening tag.
pub fn strip_bold_span(original: &str) -> (result: String)
    ensures
        result@ == unbolded(original@),
{
    if check_bold_closes(original) {
        strip_html_bold(original)
    } else {
        let opened = drop_first(&to_chars(original), &to_chars("<b>"));
        proof {
            lemma_occurs_iff_first_match(opened@, "</b>"@);
        }
        to_text(&opened)
    }
}

/// The opening of a superscript span of `pixels` hundredths of a pixel.
pub open spec fn superscript_open(pixels: int) -> Seq<char> {
    "<tspan style=\"font-size:"@ + metric_text(pixels)
        + "px;font-weight:bold;font-family:Nimbus Sans L\" baseline-shift=\"super\">"@
}

/// The opening of a superscript span of `pixels` hundredths of a pixel.
pub fn make_superscript_open(pixels: i64) -> (r: Vec<char>)
    ensures
        r@ == superscript_open(pixels as int),
{
    let mut r = to_chars("<tspan style=\"font-size:");
    extend_chars(&mut r, &format_metric(pixels));
    extend_chars(
        &mut r,
        &to_chars("px;font-weight:bold;font-family:Nimbus Sans L\" baseline-shift=\"super\">"),
    );
    r
}

/// `s` with its superscript tags turned into spans of the given size, where
/// it opens any.
pub open spec fn with_superscripts(s: Seq<char>, pixels: int) -> Seq<char> {
    if occurs_in("<sup>"@, s) {
        replaced(replaced(s, "<sup>"@, superscript_open(pixels)), "</sup>"@, "</tspan>"@)
    } else {
        s
    }
}

pub fn convert_superscripts(original: &String, pixels: i64) -> (result: String)
    ensures
        result@ == with_superscripts(original@, pixels as int),
{
    let s = to_chars(original.as_str());
    if contains_text(&s, &to_chars("<sup>")) {
        let opened = replace_text(&s, &to_chars("<sup>"), &make_superscript_open(pixels));
        to_text(&replace_text(&opened, &to_chars("</sup>"), &to_chars("</tspan>")))
    } else {
        to_text(&s)
    }
}

pub fn wrap_superscripts(original: &String, pixels: i64) -> (result: String)
    ensures
        result@ == superscript_open(pixels as int) + original@ + "</tspan>"@,
{
    let mut r = make_superscript_open(pixels);
    extend_chars(&mut r, &to_chars(original.as_str()));
    extend_chars(&mut r, &to_chars("</tspan>"));
    to_text(&r)
}

pub fn generate_six_lobed_asterisk_svg(fonts: &FontsObj) -> (result: String)
    requires
        fonts.selected_font < 8,
    ensures
        result@ == superscript_open(
            fonts.fonts[fonts.selected_font as int][FA_SUP_SIZE as int] as int,
        ) + "&#x273D;"@ + "</tspan>"@,
{
    let mut r = make_superscript_open(fonts.sup_size());
    extend_chars(&mut r, &to_chars("&#x273D;"));
    extend_chars(&mut r, &to_chars("</tspan>"));
    to_text(&r)
}

/// A superscript element with what precedes and follows it on its line.
pub const SUPERSCRIPT_PATTERN: &'static str = "(?<keep1>.*)(<sup>.*<\\/sup>)(?<keep2>.*)";

/// A dagger with the superscript number behind it.
pub const DAGGERED_NUMBER_PATTERN: &'static str = "†<sup>[0-9][0-9]*<\\/sup>";

/// A dagger.
pub const DAGGER_PATTERN: &'static str = "†";

/// An italic element that holds a vehicle type.
pub const ITALICS_PATTERN: &'static str =
    "(?<front>.*<i>)(?<keep>[a-zA-Z0-9/\\-]*)(?<back><\\/i>)";

/// What is left of `original` around its superscript element, given what
/// stands before (`keep1`) and behind (`keep2`) that element: nothing where
/// `original` opens no superscript, and no answer where it opens one that
/// was not found.
pub open spec fn superscript_removed(
    original: Seq<char>,
    keep1: Option<Seq<char>>,
    keep2: Option<Seq<char>>,
) -> Option<Seq<char>> {
    if !occurs_in("<sup>"@, original) {
        Some(Seq::empty())
    } else {
        match (keep1, keep2) {
            (Some(a), Some(b)) => Some(a + b),
            _ => None,
        }
    }
}

/// Puts together what is left of `original` around its superscript element.
pub fn assemble_without_superscript(
    original: &String,
    keep1: Option<String>,
    keep2: Option<String>,
) -> (r: Option<String>)
    ensures
        view_of(r) == superscript_removed(original@, view_of(keep1), view_of(keep2)),
{
    if !contains_text(&to_chars(original.as_str()), &to_chars("<sup>")) {
        return Some(String::new());
    }
    match (keep1, keep2) {
        (Some(a), Some(b)) => {
            Some(to_text(&join_chars(&to_chars(a.as_str()), &to_chars(b.as_str()))))
        },
        _ => None,
    }
}

/// What stands around the superscript element of `original`. The answer is
/// `None` where `original` opens a superscript that the pattern does not
/// find.
pub fn strip_superscript(original: &String) -> (r: Option<String>)
    ensures
        view_of(r) == superscript_removed(
            original@,
            regex_captured(SUPERSCRIPT_PATTERN@, original@, "keep1"@),
            regex_captured(SUPERSCRIPT_PATTERN@, original@, "keep2"@),
        ),
{
    let keep1 = regex_capture(SUPERSCRIPT_PATTERN, original.as_str(), "keep1");
    let keep2 = regex_capture(SUPERSCRIPT_PATTERN, original.as_str(), "keep2");
    assemble_without_superscript(original, keep1, keep2)
}

/// `original` once its daggered notes are taken out, given what the
/// replacement made of it (`stripped`): `original` itself where it holds no
/// dagger, and no answer where the replacement left a dagger or was not
/// made.
pub open spec fn note_settled(original: Seq<char>, stripped: Option<Seq<char>>) -> Option<
    Seq<char>,
> {
    if !original.contains(DAGGER) {
        Some(original)
    } else {
        match stripped {
            Some(t) => if t.contains(DAGGER) {
                None
            } else {
                Some(t)
            },
            None => None,
        }
    }
}

/// Accepts what the replacement made of `original`, where it left no
/// dagger.
pub fn settle_daggered_note(original: &String, stripped: Option<String>) -> (r: Option<String>)
    ensures
        view_of(r) == note_settled(original@, view_of(stripped)),
{
    if !contains_char(&to_chars(original.as_str()), DAGGER) {
        return Some(original.clone());
    }
    match stripped {
        Some(t) => {
            if contains_char(&to_chars(t.as_str()), DAGGER) {
                None
            } else {
                Some(t)
            }
        },
        None => None,
    }
}

/// The pattern by which the daggered notes of `original` are taken out:
/// daggers with their superscript numbers where a dagger stands directly
/// before a superscript, bare daggers otherwise.
pub open spec fn note_pattern(original: Seq<char>) -> Seq<char> {
    if occurs_in("†<sup>"@, original) {
        DAGGERED_NUMBER_PATTERN@
    } else {
        DAGGER_PATTERN@
    }
}

/// `original` without its daggered notes. The answer is `None` where a
/// dagger is left that the pattern does not take out.
pub fn strip_daggered_note(original: &String) -> (r: Option<String>)
    ensures
        view_of(r) == note_settled(
            original@,
            regex_replaced(note_pattern(original@), original@, Seq::empty()),
        ),
{
    let stripped = if contains_text(&to_chars(original.as_str()), &to_chars("†<sup>")) {
        regex_replace_all(DAGGERED_NUMBER_PATTERN, original.as_str(), "")
    } else {
        regex_replace_all(DAGGER_PATTERN, original.as_str(), "")
    };
    proof {
        reveal_strlit("");
        assert(""@ =~= Seq::<char>::empty());
    }
    settle_daggered_note(original, stripped)
}

/// The vehicle type that stands in the italic element of `original`, where
/// there is one.
pub fn strip_html_italics(original: &String) -> (r: Option<String>)
    ensures
        view_of(r) == regex_captured(ITALICS_PATTERN@, original@, "keep"@),
{
    regex_capture(ITALICS_PATTERN, original.as_str(), "keep")
}

/// A name that ends in an italic element with the vehicle type.
pub const NAMED_TYPE_PATTERN: &'static str =
    "(?<keep>.*)(?<drop1>[ ]<i>[a-zA-Z0-9/\\-]*)(?<drop2><\\/i>)";

/// The name of a vehicle without the italic element that holds its type,
/// where it ends in one.
pub fn strip_vehicle_type_from_name(original: &String) -> (r: Option<String>)
    ensures
        view_of(r) == regex_captured(NAMED_TYPE_PATTERN@, original@, "keep"@),
{
    regex_capture(NAMED_TYPE_PATTERN, original.as_str(), "keep")
}

/// The names of `authors` as they are listed: each with a space before it,
/// and a comma before that from the second on; empty names are left out.
pub open spec fn listed(authors: Seq<Seq<char>>) -> Seq<char>
    decreases authors.len(),
{
    if authors.len() == 0 {
        Seq::empty()
    } else {
        let front = listed(authors.subrange(0, authors.len() - 1));
        let name = authors[authors.len() - 1];
        if name.len() == 0 {
            front
        } else if front.len() == 0 {
            " "@ + name
        } else {
            front + ", "@ + name
        }
    }
}

/// The line that names the authors: the names between the colons of
/// `authors`, listed, or `authors` as it is where it holds no colon.
pub open spec fn authors_line(authors: Seq<char>) -> Seq<char> {
    "\t\tAuthor(s):"@ + if authors.contains(':') {
        listed(split_by(authors, ':'))
    } else {
        " "@ + authors
    }
}

/// The line that names the authors.
pub fn format_authors(authors: &str) -> (r: String)
    ensures
        r@ == authors_line(authors@),
{
    let a = to_chars(authors);
    let mut line: Vec<char> = Vec::new();
    if contains_char(&a, ':') {
        let names = split_text(&a, ':');
        let ghost all = split_by(a@, ':');
        let mut i: usize = 0;
        assert(all.subrange(0, 0) =~= Seq::<Seq<char>>::empty());
        while i < names.len()
            invariant
                i <= names.len(),
                names.deep_view() == all,
                line@ == listed(all.subrange(0, i as int)),
            decreases names.len() - i,
        {
            let ghost upto = all.subrange(0, i + 1);
            assert(upto.subrange(0, upto.len() - 1) =~= all.subrange(0, i as int));
            assert(upto[upto.len() - 1] =~= names[i as int]@);
            if names[i].len() != 0 {
                if line.len() == 0 {
                    extend_chars(&mut line, &to_chars(" "));
                } else {
                    extend_chars(&mut line, &to_chars(", "));
                }
                extend_chars(&mut line, &names[i]);
            }
            i = i + 1;
        }
        assert(all.subrange(0, names.len() as int) =~= all);
    } else {
        extend_chars(&mut line, &to_chars(" "));
        extend_chars(&mut line, &a);
    }
    let mut r = to_chars("\t\tAuthor(s):");
    extend_chars(&mut r, &line);
    to_text(&r)
}

} // verus!
