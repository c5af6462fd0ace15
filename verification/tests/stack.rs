use common_functions::armament::{MA_FONTS, ROF_FONTS, SA_FONTS};
use common_functions::layout::{find_anchor, find_slot, Anchor, LayoutCursor, Slot};
use common_functions::text_field::{TextField, RANGE_FONTS};
use common_functions::utils::GUN_COLUMN_Y_GAP;

fn field(table: [[i64; 4]; 8], location: &str) -> TextField {
    let mut f = TextField::default();
    f.fonts.initialize(table);
    f.alternate_location = location.to_string();
    f
}

#[test]
fn fresh_cursor_stands_at_the_baseline() {
    let cursor = LayoutCursor::new();
    assert_eq!(cursor.y, 6000);
    assert_eq!(cursor.remaining, 6000);
    assert_eq!(GUN_COLUMN_Y_GAP, 200);
}

#[test]
fn stacked_field_takes_its_height_and_the_gap() {
    let mut cursor = LayoutCursor::new();
    assert_eq!(cursor.place(&field(MA_FONTS, "")), 1400);
    assert_eq!(cursor.y, 4600);
    assert_eq!(cursor.remaining, 4600);
    assert_eq!(cursor.place(&field(SA_FONTS, "")), 800);
    assert_eq!(cursor.y, 3800);
}

#[test]
fn height_is_that_of_the_selected_variant() {
    let mut cursor = LayoutCursor::new();
    let mut f = field(MA_FONTS, "");
    f.fonts.selected_font = 3;
    assert_eq!(cursor.place(&f), 2000);
}

#[test]
fn alternate_location_leaves_the_cursor_alone() {
    for location in ["in_gs", "mgs", "above_mgs", "before_tow", "anywhere"] {
        let mut cursor = LayoutCursor { y: 4321, remaining: 1234 };
        assert_eq!(cursor.place(&field(MA_FONTS, location)), 0);
        assert_eq!(cursor, LayoutCursor { y: 4321, remaining: 1234 });
    }
}

#[test]
fn consumed_height_is_conserved() {
    let fields = vec![
        field(MA_FONTS, ""),
        field(SA_FONTS, "above_mgs"),
        field(RANGE_FONTS, ""),
        field(ROF_FONTS, "in_gs"),
        field(ROF_FONTS, ""),
    ];
    let mut cursor = LayoutCursor::new();
    let (placed, total) = cursor.place_all(&fields);
    assert_eq!(placed, 5);
    // 12.0 + 7.8 + 6.6 and three gaps of 2.0
    assert_eq!(total, 1200 + 780 + 660 + 3 * 200);
    assert_eq!(cursor.y, 6000 - total);
    assert_eq!(cursor.remaining, 6000 - total);
    let mut one_by_one = LayoutCursor::new();
    let mut sum = 0;
    for f in &fields {
        sum += one_by_one.place(f);
    }
    assert_eq!(sum, total);
    assert_eq!(one_by_one, cursor);
}

#[test]
fn order_is_the_callers() {
    let a = vec![field(MA_FONTS, ""), field(ROF_FONTS, "")];
    let b = vec![field(ROF_FONTS, ""), field(MA_FONTS, "")];
    let mut first = LayoutCursor::new();
    let mut second = LayoutCursor::new();
    assert_eq!(first.place_all(&a), second.place_all(&b));
    let mut cursor = LayoutCursor::new();
    cursor.place(&a[0]);
    assert_eq!(find_anchor(&cursor, &a[1]), Anchor { x: 300, y: 4600 });
}

#[test]
fn overflow_is_not_detected() {
    let mut cursor = LayoutCursor::new();
    for _ in 0..5 {
        cursor.place(&field(MA_FONTS, ""));
    }
    assert_eq!(cursor.remaining, -1000);
    assert_eq!(cursor.y, -1000);
}

#[test]
fn nothing_to_place_takes_nothing() {
    let mut cursor = LayoutCursor::new();
    assert_eq!(cursor.place_all(&Vec::new()), (0, 0));
    assert_eq!(cursor, LayoutCursor::new());
}

#[test]
fn cursor_is_reset_for_the_next_counter() {
    let mut cursor = LayoutCursor::new();
    cursor.place(&field(MA_FONTS, ""));
    cursor.reset();
    assert_eq!(cursor, LayoutCursor::new());
}

#[test]
fn placing_stops_where_the_cursor_leaves_its_range() {
    let fields = vec![field(MA_FONTS, ""), field(MA_FONTS, "")];
    let mut cursor = LayoutCursor { y: -999_999_999_000, remaining: 0 };
    let (placed, total) = cursor.place_all(&fields);
    assert_eq!(placed, 1);
    assert_eq!(total, 1400);
    assert_eq!(cursor.y, -1_000_000_000_400);
}

#[test]
fn slots_are_found_by_location() {
    assert_eq!(find_slot(&field(MA_FONTS, "")), Slot::GunColumn);
    assert_eq!(find_slot(&field(MA_FONTS, "in_gs")), Slot::GunStack);
    assert_eq!(find_slot(&field(MA_FONTS, "mgs")), Slot::MachineGuns);
    assert_eq!(find_slot(&field(MA_FONTS, "above_mgs")), Slot::AboveMachineGuns);
    assert_eq!(find_slot(&field(MA_FONTS, "before_tow")), Slot::BeforeTowing);
    assert_eq!(find_slot(&field(MA_FONTS, "elsewhere")), Slot::MachineGuns);
}

#[test]
fn anchors_are_fixed() {
    let cursor = LayoutCursor { y: 5000, remaining: 5000 };
    assert_eq!(find_anchor(&cursor, &field(MA_FONTS, "")), Anchor { x: 300, y: 5000 });
    assert_eq!(find_anchor(&cursor, &field(MA_FONTS, "in_gs")), Anchor { x: 300, y: 5000 });
    assert_eq!(find_anchor(&cursor, &field(MA_FONTS, "mgs")), Anchor { x: 2100, y: 5700 });
    assert_eq!(find_anchor(&cursor, &field(MA_FONTS, "above_mgs")), Anchor { x: 2100, y: 4800 });
    assert_eq!(find_anchor(&cursor, &field(MA_FONTS, "before_tow")), Anchor { x: 4940, y: 4800 });
}

#[test]
fn placed_field_is_drawn_where_the_cursor_stood() {
    let mut cursor = LayoutCursor::new();
    let (anchor, consumed) = cursor.place_at(&field(MA_FONTS, ""));
    assert_eq!(anchor, Anchor { x: 300, y: 6000 });
    assert_eq!(consumed, 1400);
    assert_eq!(cursor, LayoutCursor { y: 4600, remaining: 4600 });
    let (anchor, consumed) = cursor.place_at(&field(SA_FONTS, "before_tow"));
    assert_eq!(anchor, Anchor { x: 4940, y: 4800 });
    assert_eq!(consumed, 0);
    assert_eq!(cursor, LayoutCursor { y: 4600, remaining: 4600 });
    let (anchor, consumed) = cursor.place_at(&field(SA_FONTS, "above_mgs"));
    assert_eq!(anchor, Anchor { x: 2100, y: 4800 });
    assert_eq!(consumed, 0);
}

#[test]
fn range_stands_with_the_machine_guns_where_there_are_none() {
    let mut cursor = LayoutCursor::new();
    let (anchor, consumed) = cursor.place_range(&field(RANGE_FONTS, ""), true);
    assert_eq!(anchor, Anchor { x: 2100, y: 5700 });
    assert_eq!(consumed, 0);
    assert_eq!(cursor, LayoutCursor::new());
}

#[test]
fn range_goes_to_the_gun_column_where_machine_guns_stand() {
    let mut cursor = LayoutCursor::new();
    let (anchor, consumed) = cursor.place_range(&field(RANGE_FONTS, ""), false);
    assert_eq!(anchor, Anchor { x: 300, y: 6000 });
    assert_eq!(consumed, 980);
    assert_eq!(cursor, LayoutCursor { y: 5020, remaining: 5020 });
}

#[test]
fn range_with_a_location_goes_there() {
    for no_mgs in [true, false] {
        let mut cursor = LayoutCursor::new();
        let (anchor, consumed) = cursor.place_range(&field(RANGE_FONTS, "in_gs"), no_mgs);
        assert_eq!(anchor, Anchor { x: 300, y: 6000 });
        assert_eq!(consumed, 0);
        assert_eq!(cursor, LayoutCursor::new());
    }
}

#[test]
fn bare_height_is_taken_with_the_gap() {
    let mut cursor = LayoutCursor::new();
    assert_eq!(cursor.take(960), 1160);
    assert_eq!(cursor, LayoutCursor { y: 4840, remaining: 4840 });
    assert_eq!(cursor.take(0), 200);
    assert_eq!(cursor, LayoutCursor { y: 4640, remaining: 4640 });
}

#[test]
fn advance_moves_by_what_it_is_given() {
    let mut cursor = LayoutCursor::new();
    cursor.advance(1234);
    assert_eq!(cursor, LayoutCursor { y: 4766, remaining: 4766 });
    cursor.advance(0);
    assert_eq!(cursor, LayoutCursor { y: 4766, remaining: 4766 });
}

#[test]
fn room_is_left_within_the_cursor_range() {
    assert!(LayoutCursor::new().check_room());
    assert!(LayoutCursor { y: -1_000_000_000_000, remaining: 1_000_000_000_000 }.check_room());
    assert!(!LayoutCursor { y: -1_000_000_000_001, remaining: 0 }.check_room());
    assert!(!LayoutCursor { y: 0, remaining: 1_000_000_000_001 }.check_room());
}

#[test]
fn metrics_are_well_formed_within_their_range() {
    let mut f = field(MA_FONTS, "");
    assert!(f.fonts.check_well_formed());
    f.fonts.selected_font = 8;
    assert!(!f.fonts.check_well_formed());
    f.fonts.selected_font = 0;
    f.fonts.fonts[7][3] = 100_000_001;
    assert!(!f.fonts.check_well_formed());
    f.fonts.fonts[7][3] = 100_000_000;
    assert!(f.fonts.check_well_formed());
    f.fonts.fonts[2][1] = -1;
    assert!(!f.fonts.check_well_formed());
}
