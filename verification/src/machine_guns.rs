//! The machine guns of a vehicle, drawn as one field.

use vstd::prelude::*;
use crate::colors::Colors;
use crate::directive::{directives_of, tokenize, Directive, DirectiveView};
use crate::malfunction::{first_unknown, lemma_first_unknown_prefix};
use crate::overrides::{DirectiveError, Overrides, OverridesView, MOD_DELIMITER2};
use crate::scan::{contains_char, cut_before, extend_chars, to_chars, to_text};
use crate::text::{before_first, replaced};
use crate::text_field::{
    table_in_range, table_view, FontsView, TextField, TextFieldView, DAGGER,
    FIVE_LOBED_ASTERISK_TAG, FIVE_LOBED_ASTERISK_UC, NO_FONTS, SIX_LOBED_ASTERISK_MG_SVG,
    SIX_LOBED_ASTERISK_TAG,
};
use crate::utils::{convert_superscripts, convert_text, entries_of, with_superscripts};

verus! {

/// Metrics of the machine-gun field.
pub const MGS_FONTS: [[i64; 4]; 8] = [
    [800, 600, 8000, 660],
    [0, 0, 0, 0],
    [0, 0, 0, 0],
    [0, 0, 0, 0],
    [0, 0, 0, 0],
    [0, 0, 0, 0],
    [0, 0, 0, 0],
    [0, 0, 0, 0],
];

pub const MGS_FONT_WEIGHT: &'static str = "bold";

/// The size of a superscript in the machine-gun field.
pub const MGS_SUPERSCRIPT_FONT_SIZE: i64 = 600;

pub const FIXED_BMG_WHITE_CIRCLE: &'static str =
    "<tspan style=\"fill:white;{FONT_WEIGHT_MAIN}\">&#x2B24;</tspan>";

/// What a `MachineGuns` holds.
pub struct MachineGunsView {
    pub field: TextFieldView,
    pub fixed_bmg: bool,
}

/// The machine guns of a vehicle.
#[derive(Debug)]
pub struct MachineGuns {
    pub field: TextField,
    pub fixed_bmg: bool,
}

impl View for MachineGuns {
    type V = MachineGunsView;

    open spec fn view(&self) -> MachineGunsView {
        MachineGunsView { field: self.field@, fixed_bmg: self.fixed_bmg }
    }
}

impl MachineGunsView {
    /// What a new `MachineGuns` holds.
    pub open spec fn blank() -> MachineGunsView {
        MachineGunsView {
            field: TextFieldView::blank(NO_FONTS),
            fixed_bmg: false,
        }
    }
}

impl Default for MachineGuns {
    fn default() -> (r: Self)
        ensures
            r@ == MachineGunsView::blank(),
    {
        MachineGuns { field: TextField::default(), fixed_bmg: false }
    }
}

/// The value of one machine gun as it is shown: what stands before `Opt`,
/// cut before its first dagger; a dagger leaves a five-lobed asterisk
/// behind the value where `marked` asks for it.
pub open spec fn gun_value(raw: Seq<char>, marked: bool) -> Seq<char> {
    let plain = before_first(raw, "Opt"@);
    if plain.contains(DAGGER) {
        if marked {
            before_first(plain, seq![DAGGER]) + FIVE_LOBED_ASTERISK_UC@
        } else {
            before_first(plain, seq![DAGGER])
        }
    } else {
        plain
    }
}

/// A value, or a hyphen where there is none.
pub open spec fn or_hyphen(value: Seq<char>) -> Seq<char> {
    if value.len() > 0 {
        value
    } else {
        "-"@
    }
}

/// The three values side by side: bow and coaxial gun with a slash
/// between them, a hyphen for one that is missing, and the anti-aircraft
/// gun behind another slash where there is one; nothing where all three
/// are missing.
pub open spec fn gun_line(bmg: Seq<char>, cmg: Seq<char>, aamg: Seq<char>) -> Seq<char> {
    if bmg.len() == 0 && cmg.len() == 0 && aamg.len() == 0 {
        Seq::empty()
    } else {
        or_hyphen(bmg) + "/"@ + or_hyphen(cmg) + if aamg.len() > 0 {
            "/"@ + aamg
        } else {
            Seq::empty()
        }
    }
}

/// The field after one directive of a machine-gun override: a replacement
/// is the text as it stands; a size change and a location are applied; a
/// directive that is not recognized changes nothing.
pub open spec fn gun_directed(f: TextFieldView, d: DirectiveView) -> TextFieldView {
    match d {
        DirectiveView::FieldReplace(t) => TextFieldView { text: t, ..f },
        DirectiveView::Unrecognized(l) => f,
        _ => f.directed(d, Seq::empty()),
    }
}

/// The field after the directives `ds`, from left to right.
pub open spec fn gun_directed_all(f: TextFieldView, ds: Seq<DirectiveView>) -> TextFieldView
    decreases ds.len(),
{
    if ds.len() == 0 {
        f
    } else {
        gun_directed(gun_directed_all(f, ds.subrange(0, ds.len() - 1)), ds[ds.len() - 1])
    }
}

/// A machine-gun text as it is drawn: the asterisk tags become their
/// glyphs, and superscripts become spans.
pub open spec fn gun_markup(text: Seq<char>) -> Seq<char> {
    with_superscripts(
        replaced(
            replaced(text, FIVE_LOBED_ASTERISK_TAG@, FIVE_LOBED_ASTERISK_UC@),
            SIX_LOBED_ASTERISK_TAG@,
            SIX_LOBED_ASTERISK_MG_SVG@,
        ),
        MGS_SUPERSCRIPT_FONT_SIZE as int,
    )
}

/// The field in the text colour with the metrics of the machine guns.
pub open spec fn gun_start(before: TextFieldView, color: Seq<char>) -> TextFieldView {
    TextFieldView {
        color: color,
        fonts: FontsView { selected_font: 0, fonts: table_view(MGS_FONTS) },
        ..before
    }
}

/// What `sanitize` makes of the machine guns where the override, if there
/// is one, holds no directive that is not recognized.
pub open spec fn guns_sanitized(
    before: MachineGunsView,
    bmg: Seq<char>,
    cmg: Seq<char>,
    aamg: Seq<char>,
    overrides: OverridesView,
    color: Seq<char>,
) -> MachineGunsView {
    let start = gun_start(before.field, color);
    let read = if overrides.machine_guns_set {
        gun_directed_all(start, directives_of(entries_of(overrides.machine_guns, MOD_DELIMITER2)))
    } else {
        TextFieldView {
            text: start.text + gun_line(
                gun_value(bmg, !overrides.fixed_bmg),
                gun_value(cmg, true),
                gun_value(aamg, true),
            ),
            ..start
        }
    };
    MachineGunsView {
        field: TextFieldView { text: gun_markup(read.text), ..read },
        fixed_bmg: overrides.fixed_bmg,
    }
}

/// The directive of the override that is not recognized, where there is an
/// override.
pub open spec fn guns_unknown(overrides: OverridesView) -> Option<int> {
    if overrides.machine_guns_set {
        first_unknown(directives_of(entries_of(overrides.machine_guns, MOD_DELIMITER2)))
    } else {
        None
    }
}

/// The value of one machine gun as it is shown.
pub fn read_gun_value(raw: &String, marked: bool) -> (r: Vec<char>)
    ensures
        r@ == gun_value(raw@, marked),
{
    let plain = cut_before(&to_chars(raw.as_str()), &to_chars("Opt"));
    if contains_char(&plain, DAGGER) {
        let mut dagger: Vec<char> = Vec::new();
        dagger.push(DAGGER);
        assert(dagger@ =~= seq![DAGGER]);
        let mut r = cut_before(&plain, &dagger);
        if marked {
            extend_chars(&mut r, &to_chars(FIVE_LOBED_ASTERISK_UC));
        }
        r
    } else {
        plain
    }
}

/// The three values side by side.
pub fn compose_gun_line(bmg: &Vec<char>, cmg: &Vec<char>, aamg: &Vec<char>) -> (r: Vec<char>)
    ensures
        r@ == gun_line(bmg@, cmg@, aamg@),
{
    let mut r: Vec<char> = Vec::new();
    if bmg.len() != 0 || cmg.len() != 0 || aamg.len() != 0 {
        if bmg.len() != 0 {
            extend_chars(&mut r, bmg);
        } else {
            extend_chars(&mut r, &to_chars("-"));
        }
        extend_chars(&mut r, &to_chars("/"));
        if cmg.len() != 0 {
            extend_chars(&mut r, cmg);
        } else {
            extend_chars(&mut r, &to_chars("-"));
        }
        if aamg.len() != 0 {
            extend_chars(&mut r, &to_chars("/"));
            extend_chars(&mut r, aamg);
        }
        assert(r@ =~= gun_line(bmg@, cmg@, aamg@));
    }
    r
}

impl MachineGuns {
    /// Turns the text that was read into what is drawn, and takes the
    /// fixed-gun switch over.
    fn finish(&mut self, overrides: &Overrides)
        ensures
            final(self)@ == (MachineGunsView {
                field: TextFieldView { text: gun_markup(old(self).field@.text), ..old(self).field@ },
                fixed_bmg: overrides.fixed_bmg,
            }),
    {
        let glyphs = convert_text(&self.field.text, FIVE_LOBED_ASTERISK_TAG, FIVE_LOBED_ASTERISK_UC);
        let spans = convert_text(&glyphs, SIX_LOBED_ASTERISK_TAG, SIX_LOBED_ASTERISK_MG_SVG);
        self.field.text = convert_superscripts(&spans, MGS_SUPERSCRIPT_FONT_SIZE);
        self.fixed_bmg = overrides.fixed_bmg;
    }

    /// Reads the machine guns of a row. With an override, its directive
    /// chain gives text, size and place; a directive that is not recognized
    /// ends the reading with an error that holds it, and the directives
    /// before it have been applied. Without one, the three values of the row
    /// are put side by side behind the text that the field holds.
    pub fn sanitize(
        &mut self,
        bmg: &String,
        cmg: &String,
        aamg: &String,
        overrides: &Overrides,
        colors: &Colors,
    ) -> (r: Result<(), DirectiveError>)
        ensures
            match guns_unknown(overrides@) {
                None => r is Ok && final(self)@ == guns_sanitized(
                    old(self)@,
                    bmg@,
                    cmg@,
                    aamg@,
                    overrides@,
                    colors.text@,
                ),
                Some(k) => r matches Err(DirectiveError::UnrecognizedDirective(t)) && t@
                    == entries_of(overrides.machine_guns@, MOD_DELIMITER2)[k] && final(self)@
                    == (MachineGunsView {
                    field: gun_directed_all(
                        gun_start(old(self).field@, colors.text@),
                        directives_of(
                            entries_of(overrides.machine_guns@, MOD_DELIMITER2),
                        ).subrange(0, k),
                    ),
                    ..old(self)@
                }),
            },
    {
        self.field.color = colors.text.clone();
        assert(table_in_range(MGS_FONTS));
        self.field.fonts.initialize(MGS_FONTS);
        let ghost start = self.field@;
        if overrides.machine_guns_set {
            let directives = tokenize(&overrides.machine_guns);
            let ghost chain = entries_of(overrides.machine_guns@, MOD_DELIMITER2);
            let ghost ds = directives_of(chain);
            let mut i: usize = 0;
            assert(ds.subrange(0, 0) =~= Seq::<DirectiveView>::empty());
            while i < directives.len()
                invariant
                    i <= directives.len(),
                    chain == entries_of(overrides.machine_guns@, MOD_DELIMITER2),
                    ds == directives_of(chain),
                    directives@.map_values(|d: Directive| d@) == ds,
                    overrides.machine_guns_set,
                    start == gun_start(old(self).field@, colors.text@),
                    first_unknown(ds.subrange(0, i as int)) is None,
                    self.fixed_bmg == old(self).fixed_bmg,
                    self.field@ == gun_directed_all(start, ds.subrange(0, i as int)),
                decreases directives.len() - i,
            {
                let ghost upto = ds.subrange(0, i + 1);
                assert(upto.subrange(0, upto.len() - 1) =~= ds.subrange(0, i as int));
                assert(upto[upto.len() - 1] == directives@[i as int]@);
                assert(ds[i as int] == crate::directive::directive_of(i as int, chain[i as int]));
                match &directives[i] {
                    Directive::FieldReplace(t) => {
                        self.field.text = t.clone();
                    },
                    Directive::Unrecognized(l) => {
                        let culprit = l.clone();
                        proof {
                            assert(first_unknown(upto) == Some(i as int));
                            lemma_first_unknown_prefix(ds, i + 1);
                            assert(culprit@ == chain[i as int]);
                        }
                        return Err(DirectiveError::UnrecognizedDirective(culprit));
                    },
                    other => {
                        self.field.apply_directive(other, &String::new());
                    },
                }
                i = i + 1;
            }
            assert(ds.subrange(0, directives.len() as int) =~= ds);
        } else {
            let my_bmg = read_gun_value(bmg, !overrides.fixed_bmg);
            let my_cmg = read_gun_value(cmg, true);
            let my_aamg = read_gun_value(aamg, true);
            let line = compose_gun_line(&my_bmg, &my_cmg, &my_aamg);
            let mut text = to_chars(self.field.text.as_str());
            extend_chars(&mut text, &line);
            self.field.text = to_text(&text);
        }
        self.finish(overrides);
        Ok(())
    }
}

} // verus!
