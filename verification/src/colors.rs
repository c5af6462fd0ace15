//! The colours of a counter, by nationality.

use vstd::prelude::*;
use crate::scan::{same_chars, to_chars};

verus! {

pub const ALLIED_COLOR: &'static str = "#82edbd";

pub const AMERICAN_COLOR: &'static str = "#cddb42";

pub const AXIS_COLOR: &'static str = "#1de256";

pub const BRITISH_COLOR: &'static str = "#e5cea0";

pub const FINNISH_COLOR: &'static str = "#ced3d3";

pub const FRENCH_COLOR: &'static str = "#41a5ff";

pub const GERMAN_COLOR: &'static str = "#91cdf5";

pub const ITALIAN_COLOR: &'static str = "#a6adb2";

pub const JAPANESE_COLOR: &'static str = "#ffdb00";

pub const RUSSIAN_COLOR: &'static str = "#d68d1a";

pub const WAFFEN_SS_COLOR: &'static str = "#000000";

pub const LAVENDER_SS_COLOR: &'static str = "#e7cef7";

pub const SWEDISH_COLOR: &'static str = "#629dcb";

pub const BOAT_COLOR: &'static str = "#91cdf5";

pub const SHARED_COLOR: &'static str = "#ffffff";

pub const LANDED_GLIDER_COLOR: &'static str = "#52A552";

pub const TEST_COLOR: &'static str = "#ffc0ff";

pub const UNDEFINED_COLOR: &'static str = "";

pub const BLACK: &'static str = "black";

pub const WHITE: &'static str = "white";

pub const RED: &'static str = "red";

/// What a `Colors` holds.
pub struct ColorsView {
    pub is_ss: bool,
    pub background: Seq<char>,
    pub inner_background: Seq<char>,
    pub turret_type: Seq<char>,
    pub movement_type: Seq<char>,
    pub movement_type_open_topped: Seq<char>,
    pub text: Seq<char>,
    pub movement_points_text: Seq<char>,
    pub large_target: Seq<char>,
    pub normal_target: Seq<char>,
    pub small_target: Seq<char>,
    pub small_target_circle: Seq<char>,
    pub large_unarmored_target_stroke: Seq<char>,
    pub large_unarmored_target_fill: Seq<char>,
    pub normal_unarmored_target_stroke: Seq<char>,
    pub normal_unarmored_target_fill: Seq<char>,
    pub small_unarmored_target_stroke: Seq<char>,
    pub small_unarmored_target_fill: Seq<char>,
    pub armor_modifier: Seq<char>,
    pub manhandling_fill: Seq<char>,
    pub unhooking_penalty_color: Seq<char>,
    pub malfunction_x: Seq<char>,
}

/// The colours in which the parts of a counter are drawn.
#[derive(Debug)]
pub struct Colors {
    pub is_ss: bool,
    pub background: String,
    pub inner_background: String,
    pub turret_type: String,
    pub movement_type: String,
    pub movement_type_open_topped: String,
    pub text: String,
    pub movement_points_text: String,
    pub large_target: String,
    pub normal_target: String,
    pub small_target: String,
    pub small_target_circle: String,
    pub large_unarmored_target_stroke: String,
    pub large_unarmored_target_fill: String,
    pub normal_unarmored_target_stroke: String,
    pub normal_unarmored_target_fill: String,
    pub small_unarmored_target_stroke: String,
    pub small_unarmored_target_fill: String,
    pub armor_modifier: String,
    pub manhandling_fill: String,
    pub unhooking_penalty_color: String,
    pub malfunction_x: String,
}

impl View for Colors {
    type V = ColorsView;

    open spec fn view(&self) -> ColorsView {
        ColorsView {
            is_ss: self.is_ss,
            background: self.background@,
            inner_background: self.inner_background@,
            turret_type: self.turret_type@,
            movement_type: self.movement_type@,
            movement_type_open_topped: self.movement_type_open_topped@,
            text: self.text@,
            movement_points_text: self.movement_points_text@,
            large_target: self.large_target@,
            normal_target: self.normal_target@,
            small_target: self.small_target@,
            small_target_circle: self.small_target_circle@,
            large_unarmored_target_stroke: self.large_unarmored_target_stroke@,
            large_unarmored_target_fill: self.large_unarmored_target_fill@,
            normal_unarmored_target_stroke: self.normal_unarmored_target_stroke@,
            normal_unarmored_target_fill: self.normal_unarmored_target_fill@,
            small_unarmored_target_stroke: self.small_unarmored_target_stroke@,
            small_unarmored_target_fill: self.small_unarmored_target_fill@,
            armor_modifier: self.armor_modifier@,
            manhandling_fill: self.manhandling_fill@,
            unhooking_penalty_color: self.unhooking_penalty_color@,
            malfunction_x: self.malfunction_x@,
        }
    }
}

impl ColorsView {
    /// The colours of a counter of no known nationality.
    pub open spec fn standard() -> ColorsView {
        ColorsView {
            is_ss: false,
            background: TEST_COLOR@,
            inner_background: ""@,
            turret_type: "white"@,
            movement_type: "white"@,
            movement_type_open_topped: "white"@,
            text: "black"@,
            movement_points_text: "black"@,
            large_target: "#ff0000"@,
            normal_target: "black"@,
            small_target: "#ffffff"@,
            small_target_circle: "white"@,
            large_unarmored_target_stroke: "none"@,
            large_unarmored_target_fill: "#ff0000"@,
            normal_unarmored_target_stroke: "none"@,
            normal_unarmored_target_fill: "black"@,
            small_unarmored_target_stroke: "none"@,
            small_unarmored_target_fill: "white"@,
            armor_modifier: "black"@,
            manhandling_fill: "black"@,
            unhooking_penalty_color: "black"@,
            malfunction_x: "white"@,
        }
    }
}

impl Default for Colors {
    fn default() -> (r: Colors)
        ensures
            r@ == ColorsView::standard(),
    {
        Colors {
            is_ss: false,
            background: TEST_COLOR.to_string(),
            inner_background: "".to_string(),
            turret_type: "white".to_string(),
            movement_type: "white".to_string(),
            movement_type_open_topped: "white".to_string(),
            text: "black".to_string(),
            movement_points_text: "black".to_string(),
            large_target: "#ff0000".to_string(),
            normal_target: "black".to_string(),
            small_target: "#ffffff".to_string(),
            small_target_circle: "white".to_string(),
            large_unarmored_target_stroke: "none".to_string(),
            large_unarmored_target_fill: "#ff0000".to_string(),
            normal_unarmored_target_stroke: "none".to_string(),
            normal_unarmored_target_fill: "black".to_string(),
            small_unarmored_target_stroke: "none".to_string(),
            small_unarmored_target_fill: "white".to_string(),
            armor_modifier: "black".to_string(),
            manhandling_fill: "black".to_string(),
            unhooking_penalty_color: "black".to_string(),
            malfunction_x: "white".to_string(),
        }
    }
}

impl Clone for Colors {
    fn clone(&self) -> (r: Self)
        ensures
            r@ == self@,
    {
        Colors {
            is_ss: self.is_ss,
            background: self.background.clone(),
            inner_background: self.inner_background.clone(),
            turret_type: self.turret_type.clone(),
            movement_type: self.movement_type.clone(),
            movement_type_open_topped: self.movement_type_open_topped.clone(),
            text: self.text.clone(),
            movement_points_text: self.movement_points_text.clone(),
            large_target: self.large_target.clone(),
            normal_target: self.normal_target.clone(),
            small_target: self.small_target.clone(),
            small_target_circle: self.small_target_circle.clone(),
            large_unarmored_target_stroke: self.large_unarmored_target_stroke.clone(),
            large_unarmored_target_fill: self.large_unarmored_target_fill.clone(),
            normal_unarmored_target_stroke: self.normal_unarmored_target_stroke.clone(),
            normal_unarmored_target_fill: self.normal_unarmored_target_fill.clone(),
            small_unarmored_target_stroke: self.small_unarmored_target_stroke.clone(),
            small_unarmored_target_fill: self.small_unarmored_target_fill.clone(),
            armor_modifier: self.armor_modifier.clone(),
            manhandling_fill: self.manhandling_fill.clone(),
            unhooking_penalty_color: self.unhooking_penalty_color.clone(),
            malfunction_x: self.malfunction_x.clone(),
        }
    }
}

/// The background colour of `nationality` and the colour of its inner
/// background: the colour for tests, and no inner colour, where the
/// nationality is not known.
pub open spec fn palette_of(nationality: Seq<char>) -> (Seq<char>, Seq<char>) {
    if nationality == "al"@ || nationality == "et"@ {
        (ALLIED_COLOR@, UNDEFINED_COLOR@)
    } else if nationality == "am"@ || nationality == "us"@ {
        (AMERICAN_COLOR@, UNDEFINED_COLOR@)
    } else if nationality == "ax"@ {
        (AXIS_COLOR@, UNDEFINED_COLOR@)
    } else if nationality == "br"@ {
        (BRITISH_COLOR@, UNDEFINED_COLOR@)
    } else if nationality == "cc"@ {
        (RUSSIAN_COLOR@, BRITISH_COLOR@)
    } else if nationality == "ch"@ {
        (RUSSIAN_COLOR@, GERMAN_COLOR@)
    } else if nationality == "ff"@ || nationality == "fr"@ {
        (FRENCH_COLOR@, UNDEFINED_COLOR@)
    } else if nationality == "fi"@ {
        (FINNISH_COLOR@, UNDEFINED_COLOR@)
    } else if nationality == "ge"@ {
        (GERMAN_COLOR@, UNDEFINED_COLOR@)
    } else if nationality == "hu"@ {
        (GERMAN_COLOR@, AXIS_COLOR@)
    } else if nationality == "it"@ || nationality == "er"@ {
        (ITALIAN_COLOR@, UNDEFINED_COLOR@)
    } else if nationality == "ja"@ {
        (JAPANESE_COLOR@, UNDEFINED_COLOR@)
    } else if nationality == "nk"@ || nationality == "pa"@ || nationality == "ru"@ {
        (RUSSIAN_COLOR@, UNDEFINED_COLOR@)
    } else if nationality == "sh"@ {
        (SHARED_COLOR@, UNDEFINED_COLOR@)
    } else if nationality == "sk"@ {
        (AMERICAN_COLOR@, BRITISH_COLOR@)
    } else if nationality == "ss"@ {
        (WAFFEN_SS_COLOR@, UNDEFINED_COLOR@)
    } else if nationality == "sv"@ {
        (SWEDISH_COLOR@, UNDEFINED_COLOR@)
    } else if nationality == "un"@ {
        (AMERICAN_COLOR@, FRENCH_COLOR@)
    } else if nationality == "vf"@ {
        (GERMAN_COLOR@, FRENCH_COLOR@)
    } else if nationality == "bt"@ {
        (BOAT_COLOR@, UNDEFINED_COLOR@)
    } else if nationality == "gd"@ {
        (LANDED_GLIDER_COLOR@, UNDEFINED_COLOR@)
    } else if nationality == "jk"@ {
        (RUSSIAN_COLOR@, JAPANESE_COLOR@)
    } else {
        (TEST_COLOR@, UNDEFINED_COLOR@)
    }
}

pub fn nationality_to_color(nationality: &String) -> (result: Vec<String>)
    ensures
        result.len() == 2,
        result[0]@ == palette_of(nationality@).0,
        result[1]@ == palette_of(nationality@).1,
{
    let n = to_chars(nationality.as_str());
    let background_color: &'static str;
    let mut inner_background_color: &'static str = UNDEFINED_COLOR;
    if same_chars(&n, &to_chars("al")) || same_chars(&n, &to_chars("et")) {
        background_color = ALLIED_COLOR;
    } else if same_chars(&n, &to_chars("am")) || same_chars(&n, &to_chars("us")) {
        background_color = AMERICAN_COLOR;
    } else if same_chars(&n, &to_chars("ax")) {
        background_color = AXIS_COLOR;
    } else if same_chars(&n, &to_chars("br")) {
        background_color = BRITISH_COLOR;
    } else if same_chars(&n, &to_chars("cc")) {
        background_color = RUSSIAN_COLOR;
        inner_background_color = BRITISH_COLOR;
    } else if same_chars(&n, &to_chars("ch")) {
        background_color = RUSSIAN_COLOR;
        inner_background_color = GERMAN_COLOR;
    } else if same_chars(&n, &to_chars("ff")) || same_chars(&n, &to_chars("fr")) {
        background_color = FRENCH_COLOR;
    } else if same_chars(&n, &to_chars("fi")) {
        background_color = FINNISH_COLOR;
    } else if same_chars(&n, &to_chars("ge")) {
        background_color = GERMAN_COLOR;
    } else if same_chars(&n, &to_chars("hu")) {
        background_color = GERMAN_COLOR;
        inner_background_color = AXIS_COLOR;
    } else if same_chars(&n, &to_chars("it")) || same_chars(&n, &to_chars("er")) {
        background_color = ITALIAN_COLOR;
    } else if same_chars(&n, &to_chars("ja")) {
        background_color = JAPANESE_COLOR;
    } else if same_chars(&n, &to_chars("nk")) || same_chars(&n, &to_chars("pa")) || same_chars(&n, &to_chars("ru")) {
        background_color = RUSSIAN_COLOR;
    } else if same_chars(&n, &to_chars("sh")) {
        background_color = SHARED_COLOR;
    } else if same_chars(&n, &to_chars("sk")) {
        background_color = AMERICAN_COLOR;
        inner_background_color = BRITISH_COLOR;
    } else if same_chars(&n, &to_chars("ss")) {
        background_color = WAFFEN_SS_COLOR;
    } else if same_chars(&n, &to_chars("sv")) {
        background_color = SWEDISH_COLOR;
    } else if same_chars(&n, &to_chars("un")) {
        background_color = AMERICAN_COLOR;
        inner_background_color = FRENCH_COLOR;
    } else if same_chars(&n, &to_chars("vf")) {
        background_color = GERMAN_COLOR;
        inner_background_color = FRENCH_COLOR;
    } else if same_chars(&n, &to_chars("bt")) {
        background_color = BOAT_COLOR;
    } else if same_chars(&n, &to_chars("gd")) {
        background_color = LANDED_GLIDER_COLOR;
    } else if same_chars(&n, &to_chars("jk")) {
        background_color = RUSSIAN_COLOR;
        inner_background_color = JAPANESE_COLOR;
    } else {
        background_color = TEST_COLOR;
    }
    let mut result: Vec<String> = Vec::new();
    result.push(background_color.to_string());
    result.push(inner_background_color.to_string());
    result
}

/// The colours of a counter of `nationality`.
pub open spec fn colors_of(nationality: Seq<char>) -> ColorsView {
    let base = ColorsView {
        background: palette_of(nationality).0,
        inner_background: palette_of(nationality).1,
        ..ColorsView::standard()
    };
    if nationality == "sh"@ {
        ColorsView { movement_type: "#b4b4b4"@, small_unarmored_target_stroke: "black"@, ..base }
    } else if nationality == "ss"@ {
        ColorsView {
            is_ss: true,
            turret_type: "#b4b4b4"@,
            movement_type: "#b4b4b4"@,
            movement_type_open_topped: "#8ccdf5"@,
            text: "white"@,
            normal_target: "white"@,
            small_target_circle: "#b4b4b4"@,
            normal_unarmored_target_stroke: "white"@,
            armor_modifier: "white"@,
            manhandling_fill: "white"@,
            unhooking_penalty_color: "white"@,
            malfunction_x: "#b4b4b4"@,
            ..base
        }
    } else {
        base
    }
}

pub fn nationality_to_colors(nationality: &String) -> (result: Colors)
    ensures
        result@ == colors_of(nationality@),
{
    let mut result: Colors = Colors::default();
    let colors_v = nationality_to_color(nationality);
    result.background = colors_v[0].clone();
    result.inner_background = colors_v[1].clone();
    let n = to_chars(nationality.as_str());
    if same_chars(&n, &to_chars("sh")) {
        result.movement_type = "#b4b4b4".to_string();
        result.small_unarmored_target_stroke = "black".to_string();
    } else if same_chars(&n, &to_chars("ss")) {
        result.is_ss = true;
        result.turret_type = "#b4b4b4".to_string();
        result.movement_type = "#b4b4b4".to_string();
        result.movement_type_open_topped = "#8ccdf5".to_string();
        result.text = "white".to_string();
        result.normal_target = "white".to_string();
        result.small_target_circle = "#b4b4b4".to_string();
        result.normal_unarmored_target_stroke = "white".to_string();
        result.armor_modifier = "white".to_string();
        result.manhandling_fill = "white".to_string();
        result.unhooking_penalty_color = "white".to_string();
        result.malfunction_x = "#b4b4b4".to_string();
    }
    result
}

} // verus!
