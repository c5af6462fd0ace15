//! What the rows of every kind of counter have in common.

use vstd::prelude::*;
use crate::armament::{armament_sanitized, Armament, ArmamentView};
use crate::colors::{colors_of, nationality_to_colors, Colors, ColorsView};
use crate::malfunction::{malfunction_sanitized, malfunction_unknown, Malfunction, MalfunctionView};
use crate::overrides::{
    DirectiveError, Overrides, OverridesView, MOD_DELIMITER2, OVERRIDE_DELIMITER,
};
use crate::pattern::{regex_capture, regex_captured, view_of};
use crate::scan::{extend_chars, to_chars, to_text};
use crate::turret::{Turret, TurretView};
use crate::utils::{entries_of, extract_vector};

verus! {

/// A note number: a digit, `g` or `v`, with the letters, digits and points
/// behind it.
pub const NOTE_NUMBER_PATTERN: &'static str = "(?<keep>[0-9gv][0-9a-zA-Z\\.]*)";

/// The note number that stands in `source`, where one does.
pub fn extract_note_number(source: &String) -> (r: Option<String>)
    ensures
        view_of(r) == regex_captured(NOTE_NUMBER_PATTERN@, source@, "keep"@),
{
    regex_capture(NOTE_NUMBER_PATTERN, source.as_str(), "keep")
}

/// What a `CommonRecord` holds.
pub struct CommonRecordView {
    pub nationality: Seq<char>,
    pub note: Seq<char>,
    pub name: Seq<char>,
    pub display_name: bool,
    pub turret: TurretView,
    pub ma: ArmamentView,
    pub malfunction: MalfunctionView,
    pub version: Seq<char>,
    pub pieces: Seq<Seq<char>>,
    pub piece_front: Seq<char>,
    pub overrides: OverridesView,
    pub comments: Seq<char>,
    pub colors: ColorsView,
    pub svg_image_transform: Seq<char>,
}

/// The part of a row that every kind of counter has.
#[derive(Debug)]
pub struct CommonRecord {
    pub nationality: String,
    pub note: String,
    pub name: String,
    pub display_name: bool,
    pub turret: Turret,
    pub ma: Armament,
    pub malfunction: Malfunction,
    pub version: String,
    pub pieces: Vec<String>,
    pub piece_front: String,
    pub overrides: Overrides,
    pub comments: String,
    pub colors: Colors,
    pub svg_image_transform: String,
}

impl View for CommonRecord {
    type V = CommonRecordView;

    open spec fn view(&self) -> CommonRecordView {
        CommonRecordView {
            nationality: self.nationality@,
            note: self.note@,
            name: self.name@,
            display_name: self.display_name,
            turret: self.turret@,
            ma: self.ma@,
            malfunction: self.malfunction@,
            version: self.version@,
            pieces: self.pieces.deep_view(),
            piece_front: self.piece_front@,
            overrides: self.overrides@,
            comments: self.comments@,
            colors: self.colors@,
            svg_image_transform: self.svg_image_transform@,
        }
    }
}

impl CommonRecordView {
    /// A row of which nothing was read.
    pub open spec fn blank() -> CommonRecordView {
        CommonRecordView {
            nationality: Seq::empty(),
            note: Seq::empty(),
            name: Seq::empty(),
            display_name: false,
            turret: TurretView::blank(),
            ma: ArmamentView::blank(),
            malfunction: MalfunctionView::blank(),
            version: Seq::empty(),
            pieces: Seq::empty(),
            piece_front: Seq::empty(),
            overrides: OverridesView::empty(),
            comments: Seq::empty(),
            colors: ColorsView::standard(),
            svg_image_transform: Seq::empty(),
        }
    }
}

impl Default for CommonRecord {
    fn default() -> (r: Self)
        ensures
            r@ == CommonRecordView::blank(),
    {
        let pieces: Vec<String> = Vec::new();
        assert(pieces.deep_view() =~= Seq::<Seq<char>>::empty());
        CommonRecord {
            nationality: String::new(),
            note: String::new(),
            name: String::new(),
            display_name: false,
            turret: Turret::default(),
            ma: Armament::default(),
            malfunction: Malfunction::default(),
            version: String::new(),
            pieces: pieces,
            piece_front: String::new(),
            overrides: Overrides::default(),
            comments: String::new(),
            colors: Colors::default(),
            svg_image_transform: String::new(),
        }
    }
}

/// The colours of a row: those of the background that its overrides name,
/// or those of its nationality.
pub open spec fn record_colors(nationality: Seq<char>, overrides: OverridesView) -> ColorsView {
    if overrides.background_color.len() > 0 {
        colors_of(overrides.background_color)
    } else {
        colors_of(nationality)
    }
}

/// What `initialize` makes of a record whose note number is `number`: the
/// colours of the row, the note number with its qualifier, the name that
/// the overrides give or the row's, the armament and its breakdown, and the
/// pieces that the row names.
pub open spec fn record_initialized(
    before: CommonRecordView,
    nationality: Seq<char>,
    number: Seq<char>,
    name: Seq<char>,
    ma: Seq<char>,
    range: Seq<char>,
    rof_ife: Seq<char>,
    breakdown: Seq<char>,
    version: Seq<char>,
    piece: Seq<char>,
    svg_image_transform: Seq<char>,
    comments: Seq<char>,
) -> CommonRecordView {
    let colors = record_colors(nationality, before.overrides);
    CommonRecordView {
        nationality: nationality,
        colors: colors,
        note: number + before.overrides.note_qualifier,
        name: if before.overrides.name.len() > 0 {
            before.overrides.name
        } else {
            name
        },
        ma: armament_sanitized(before.ma, ma, range, rof_ife, before.overrides, colors.text),
        malfunction: malfunction_sanitized(
            before.malfunction,
            breakdown,
            before.overrides.ma,
            colors.text,
        ),
        version: version,
        pieces: entries_of(piece, OVERRIDE_DELIMITER),
        svg_image_transform: svg_image_transform,
        comments: comments,
        display_name: before.overrides.display_name,
        ..before
    }
}

impl CommonRecord {
    /// Fills the record from the fields of a row; the overrides of the row
    /// have been read into it before. Where the notes hold no note number,
    /// or the breakdown override holds a directive that is not recognized,
    /// the filling ends with an error and nothing is changed.
    pub fn initialize(
        &mut self,
        nationality: &String,
        notes: &String,
        name: &String,
        ma: &String,
        range: &String,
        rof_ife: &String,
        breakdown: &String,
        version: &String,
        piece: &String,
        svg_image_transform: &String,
        comments: &String,
    ) -> (r: Result<(), DirectiveError>)
        ensures
            match regex_captured(NOTE_NUMBER_PATTERN@, notes@, "keep"@) {
                None => r matches Err(DirectiveError::PatternMismatch(t)) && t@ == notes@
                    && final(self)@ == old(self)@,
                Some(number) => match malfunction_unknown(old(self).overrides@.ma) {
                    Some(k) => r matches Err(DirectiveError::UnrecognizedDirective(t)) && t@
                        == entries_of(old(self).overrides.ma.malf.text@, MOD_DELIMITER2)[k]
                        && final(self)@ == old(self)@,
                    None => r is Ok && final(self)@ == record_initialized(
                        old(self)@,
                        nationality@,
                        number,
                        name@,
                        ma@,
                        range@,
                        rof_ife@,
                        breakdown@,
                        version@,
                        piece@,
                        svg_image_transform@,
                        comments@,
                    ),
                },
            },
    {
        let number = match extract_note_number(notes) {
            Some(n) => n,
            None => {
                return Err(DirectiveError::PatternMismatch(notes.clone()));
            },
        };
        let colors = if !self.overrides.background_color.as_str().is_empty() {
            nationality_to_colors(&self.overrides.background_color)
        } else {
            nationality_to_colors(nationality)
        };
        match self.malfunction.sanitize(breakdown, &self.overrides.ma, &colors) {
            Ok(()) => {},
            Err(e) => {
                return Err(e);
            },
        }
        self.nationality = nationality.clone();
        let mut note = to_chars(number.as_str());
        extend_chars(&mut note, &to_chars(self.overrides.note_qualifier.as_str()));
        self.note = to_text(&note);
        if !self.overrides.name.as_str().is_empty() {
            self.name = self.overrides.name.clone();
        } else {
            self.name = name.clone();
        }
        self.ma.sanitize(ma, range, rof_ife, &self.overrides, &colors);
        self.version = version.clone();
        self.pieces = extract_vector(piece, OVERRIDE_DELIMITER);
        self.svg_image_transform = svg_image_transform.clone();
        self.comments = comments.clone();
        self.display_name = self.overrides.display_name;
        self.colors = colors;
        Ok(())
    }
}

} // verus!
