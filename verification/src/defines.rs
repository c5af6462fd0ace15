//! What is drawn, and where the fixed parts of a counter stand. Lengths are
//! in hundredths of a pixel.

use vstd::prelude::*;

verus! {

pub const INCLUDE_NAME: bool = false;

pub const INCLUDE_FONTS: bool = false;

pub const EMBED_FONTS: bool = false;

pub const LINK_FONTS: bool = false;

pub const CREATE_BEVEL: bool = true;

pub const INCLUDE_IMAGES: bool = true;

pub const CREATE_WRECKS: bool = false;

pub const CREATE_MALF_SIDE: bool = true;

pub const GUN_COLUMN_X_POSITION: i64 = 300;

pub const GUN_COLUMN_Y_POSITION: i64 = 5700;

/// Leaves room for descenders.
pub const GUN_CALIBER_BASELINE: i64 = 6000;

pub const GUN_COLUMN_BREAKDOWN_HEIGHT: i64 = 960;

pub const GUN_COLUMN_BREAKDOWN_WIDTH: i64 = 1800;

pub const ALT_BREAKDOWN_X_POSITION: i64 = 4200;

pub const IFE_HEIGHT: i64 = 840;

pub const RANGE_LINE_Y_POSITION: i64 = 5700;

pub const MGS_LINE_X_POSITION: i64 = 2100;

pub const MGS_LINE_Y_POSITION: i64 = 5700;

pub const MGS_LINE_2_Y_POSITION: i64 = 4800;

pub const MGS_WIDTH: i64 = 3600;

pub const TOWING_X_POSITION: i64 = 3300;

pub const TOWING_Y_POSITION: i64 = 4800;

pub const TOWING_PP_X_POSITION: i64 = 5700;

pub const BEFORE_TOWING_X_POSITION: i64 = 4940;

} // verus!
