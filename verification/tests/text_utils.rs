use common_functions::text_field::{FontsObj, RANGE_FONTS};
use common_functions::utils::{
    construct_copy_paths, construct_path, convert_superscripts, convert_text, extract_from,
    extract_string, extract_vector, generate_six_lobed_asterisk_svg, get_nationality,
    check_bold_closes, mask_closing_html_tags, remove_string, strip_all_occurances,
    strip_bold_span, strip_dagger_and_any_superscript_from_end, strip_daggered_note,
    strip_html_bold, strip_html_italics, strip_html_italics_only, strip_opt, strip_superscript,
    unmask_closing_html_tags, wrap_superscripts,
};

fn s(text: &str) -> String {
    text.to_string()
}

#[test]
fn strip_all_occurances_takes_every_one() {
    assert_eq!(strip_all_occurances("7L5LL", 'L'), "75");
    assert_eq!(strip_all_occurances("", 'L'), "");
    assert_eq!(strip_all_occurances("†12†", '†'), "12");
}

#[test]
fn strip_dagger_cuts_at_the_first_dagger() {
    assert_eq!(strip_dagger_and_any_superscript_from_end(&s("12†<sup>3</sup>")), "12");
    assert_eq!(strip_dagger_and_any_superscript_from_end(&s("12")), "12");
    assert_eq!(strip_dagger_and_any_superscript_from_end(&s("†")), "");
    assert_eq!(strip_dagger_and_any_superscript_from_end(&s("1†2†3")), "1");
}

#[test]
fn strip_opt_cuts_at_opt() {
    assert_eq!(strip_opt(&s("4Opt")), "4");
    assert_eq!(strip_opt(&s("4")), "4");
}

#[test]
fn closing_tags_are_masked_and_unmasked() {
    assert_eq!(mask_closing_html_tags(&s("6<sup>2</sup>/8")), "6<sup>2<?sup>/8");
    assert_eq!(unmask_closing_html_tags(&s("6<sup>2<?sup>")), "6<sup>2</sup>");
    assert_eq!(unmask_closing_html_tags(&mask_closing_html_tags(&s("a</b>c</d>"))), "a</b>c</d>");
}

#[test]
fn extract_vector_of_nothing_is_empty() {
    assert_eq!(extract_vector(&s(""), '|'), Vec::<String>::new());
}

#[test]
fn extract_vector_without_delimiter_is_the_source() {
    assert_eq!(extract_vector(&s(" ma=75 "), '|'), vec![s(" ma=75 ")]);
}

#[test]
fn extract_vector_trims_its_entries() {
    assert_eq!(extract_vector(&s("ma=75 | copy|  gt=AT "), '|'), vec![s("ma=75"), s("copy"), s("gt=AT")]);
    assert_eq!(extract_vector(&s("|"), '|'), vec![s(""), s("")]);
    assert_eq!(extract_vector(&s("6pdr@sz+1"), '@'), vec![s("6pdr"), s("sz+1")]);
    assert_eq!(extract_vector(&s("@sz-2"), '@'), vec![s(""), s("sz-2")]);
}

#[test]
fn extract_vector_agrees_with_split_and_trim() {
    for text in ["a|b", " a | b |c", "||", "x|", "|y", "\ta\u{a0}|\u{2003}b\n"] {
        let expected: Vec<String> = text.split('|').map(|p| p.trim().to_string()).collect();
        assert_eq!(extract_vector(&s(text), '|'), expected);
    }
}

#[test]
fn extract_from_gives_the_value_behind_the_key() {
    assert_eq!(extract_from("ma=6pdr@sz+1", "ma="), "6pdr@sz+1");
    assert_eq!(extract_from("copy|ma=75L|gt=AT", "ma="), "75L");
    assert_eq!(extract_from("copy|gt=AT", "ma="), "");
    assert_eq!(extract_from("ma=1|ma=2", "ma="), "2");
    assert_eq!(extract_from("sz+1.2", "sz+"), "1.2");
    assert_eq!(extract_from("rof=", "rof="), "");
}

#[test]
fn extract_string_gives_what_stands_between() {
    assert_eq!(extract_string(&s("2 (4)"), ")", "("), "4");
    assert_eq!(extract_string(&s("(12"), ")", "("), "12");
    assert_eq!(extract_string(&s("12"), ")", "("), "");
    assert_eq!(extract_string(&s("a<b>7</b>z"), "</b>", "<b>"), "7");
    assert_eq!(extract_string(&s(")3("), ")", "("), "");
}

#[test]
fn remove_string_keeps_what_stands_around() {
    assert_eq!(remove_string(&s("ab(cd)ef"), "(", ")"), "abef");
    assert_eq!(remove_string(&s("abcdef"), "(", ")"), "");
    assert_eq!(remove_string(&s("ab(cd"), "(", ")"), "ab");
}

#[test]
fn convert_text_replaces_every_occurrence() {
    assert_eq!(convert_text(&s("$$ and $$"), "$$", "12L"), "12L and 12L");
    assert_eq!(convert_text(&s("aaa"), "aa", "b"), "ba");
    assert_eq!(convert_text(&s("abc"), "x", "y"), "abc");
    assert_eq!(convert_text(&s("[[*]*]"), "[*]", ""), "[*]");
}

#[test]
fn convert_text_agrees_with_replace() {
    for (text, from, to) in [
        ("ab", "", "-"),
        ("", "", "x"),
        ("", "a", "x"),
        ("aaaa", "aa", "a"),
        ("abcabc", "bc", "†"),
        ("✽a✽", "✽", "<*>"),
        ("xyz", "xyz", ""),
        ("xy", "xyz", "q"),
    ] {
        assert_eq!(convert_text(&s(text), from, to), text.replace(from, to));
    }
}

#[test]
fn paths_are_put_together() {
    assert_eq!(construct_path(&s("ge"), "veh", &s("out/")), "out/ge/veh/");
    assert_eq!(
        construct_copy_paths(&s("ge"), "gun", &s("pak40"), &s("out/")),
        vec![s("./cached/ge/gun/pak40.svg"), s("out/ge/gun/pak40.svg")]
    );
}

#[test]
fn nationality_is_german_or_unknown() {
    assert_eq!(get_nationality(&s("ge")), "German");
    assert_eq!(get_nationality(&s("ru")), "unknown");
    assert_eq!(get_nationality(&s("")), "unknown");
}

#[test]
fn italic_tags_are_taken_out() {
    assert_eq!(strip_html_italics_only(&s("<i>B11</i>")), "B11");
    assert_eq!(strip_html_italics_only(&s("B11")), "B11");
}

#[test]
fn bold_tags_are_taken_out_once() {
    assert_eq!(strip_html_bold("<b>12</b>"), "12");
    assert_eq!(strip_html_bold("a<b>12</b>z"), "a12z");
    assert_eq!(strip_html_bold("12"), "12");
    assert_eq!(strip_html_bold("<b><b>1</b></b>"), "<b>1</b>");
    assert_eq!(strip_html_bold("x<b>12</b>y"), "x12y");
    assert_eq!(strip_html_bold("<b>1</b><b>2</b>"), "1<b>2</b>");
    assert!(check_bold_closes("12"));
    assert!(check_bold_closes("</b>12"));
    assert!(check_bold_closes("a<b>12</b>z"));
    assert!(!check_bold_closes("<b>12"));
    assert!(check_bold_closes("</b><b>12"));
    assert!(!check_bold_closes("x<b>"));
    assert_eq!(strip_html_bold("</b><b>12"), "12");
    assert_eq!(strip_bold_span("<b>12"), "12");
    assert_eq!(strip_bold_span("</b><b>12"), "12");
    assert_eq!(strip_bold_span("x<b>"), "x");
    assert_eq!(strip_bold_span("a<b>12</b>z"), "a12z");
    assert_eq!(strip_bold_span("12"), "12");
}

#[test]
fn superscripts_become_spans() {
    assert_eq!(
        convert_superscripts(&s("6<sup>2</sup>"), 480),
        "6<tspan style=\"font-size:4.8px;font-weight:bold;font-family:Nimbus Sans L\" baseline-shift=\"super\">2</tspan>"
    );
    assert_eq!(convert_superscripts(&s("6"), 480), "6");
    assert_eq!(
        wrap_superscripts(&s("44+"), 600),
        "<tspan style=\"font-size:6px;font-weight:bold;font-family:Nimbus Sans L\" baseline-shift=\"super\">44+</tspan>"
    );
    assert_eq!(
        wrap_superscripts(&s("x"), 1122),
        "<tspan style=\"font-size:11.22px;font-weight:bold;font-family:Nimbus Sans L\" baseline-shift=\"super\">x</tspan>"
    );
}

#[test]
fn six_lobed_asterisk_takes_the_superscript_size() {
    let mut fonts = FontsObj::default();
    fonts.initialize(RANGE_FONTS);
    assert_eq!(
        generate_six_lobed_asterisk_svg(&fonts),
        "<tspan style=\"font-size:6px;font-weight:bold;font-family:Nimbus Sans L\" baseline-shift=\"super\">&#x273D;</tspan>"
    );
}

#[test]
fn strip_superscript_keeps_what_stands_around() {
    assert_eq!(strip_superscript(&s("12<sup>t</sup>")), Some(s("12")));
    assert_eq!(strip_superscript(&s("a<sup>2</sup>b")), Some(s("ab")));
    assert_eq!(strip_superscript(&s("12")), Some(s("")));
    assert_eq!(strip_superscript(&s("12<sup>t")), None);
}

#[test]
fn strip_daggered_note_takes_the_notes_out() {
    assert_eq!(strip_daggered_note(&s("6PP†<sup>2</sup>/T5")), Some(s("6PP/T5")));
    assert_eq!(strip_daggered_note(&s("6PP†")), Some(s("6PP")));
    assert_eq!(strip_daggered_note(&s("6PP")), Some(s("6PP")));
    assert_eq!(strip_daggered_note(&s("6†<sup>1</sup>†")), None);
}

#[test]
fn strip_html_italics_gives_the_type() {
    assert_eq!(strip_html_italics(&s("PzKpfw IVH <i>MT</i>")), Some(s("MT")));
    assert_eq!(strip_html_italics(&s("SdKfz 251 <i>ht</i>")), Some(s("ht")));
    assert_eq!(strip_html_italics(&s("no italics")), None);
}
