//! The layout stack: fields are placed one below the other in the gun
//! column, each taking its height and a fixed gap from a shared cursor; a
//! field with an alternate location goes to a fixed anchor and takes
//! nothing.

use vstd::prelude::*;
use crate::defines::{
    BEFORE_TOWING_X_POSITION, GUN_CALIBER_BASELINE, GUN_COLUMN_X_POSITION, MGS_LINE_2_Y_POSITION,
    MGS_LINE_X_POSITION, MGS_LINE_Y_POSITION, TOWING_Y_POSITION,
};
use crate::metrics::METRIC_LIMIT;
use crate::overrides::{MOD_LOCATION_ABOVE_MGS, MOD_LOCATION_BEFORE_TOWING, MOD_LOCATION_GS};
use crate::scan::{same_chars, to_chars};
use crate::text_field::{TextField, TextFieldView, FA_HEIGHT};
use crate::utils::GUN_COLUMN_Y_GAP;

verus! {

/// The height of the drawable part of a counter.
pub const DRAWABLE_HEIGHT: i64 = 6000;

/// How far a cursor may stand from the origin, either way.
pub const CURSOR_LIMIT: i64 = 1000000000000;

/// The place in the gun column where the next field goes, and the height
/// that is left. A cursor belongs to one counter.
#[derive(PartialEq, Eq, Structural, Clone, Copy, Debug)]
pub struct LayoutCursor {
    pub y: i64,
    pub remaining: i64,
}

/// Where a field is drawn.
#[derive(PartialEq, Eq, Structural, Clone, Copy, Debug)]
pub enum Slot {
    /// In the shared gun column, at the cursor.
    GunColumn,
    /// At the main gun stack.
    GunStack,
    /// Where the machine guns stand.
    MachineGuns,
    /// Above where the machine guns stand.
    AboveMachineGuns,
    /// Before the towing number.
    BeforeTowing,
}

/// A point of a counter.
#[derive(PartialEq, Eq, Structural, Clone, Copy, Debug)]
pub struct Anchor {
    pub x: i64,
    pub y: i64,
}

/// The slot that a field with the given alternate location goes to: the
/// gun column where it has none, the slot it names where it names one, and
/// the machine-gun slot for any other value.
pub open spec fn slot_of(location: Seq<char>) -> Slot {
    if location.len() == 0 {
        Slot::GunColumn
    } else if location == MOD_LOCATION_GS@ {
        Slot::GunStack
    } else if location == MOD_LOCATION_ABOVE_MGS@ {
        Slot::AboveMachineGuns
    } else if location == MOD_LOCATION_BEFORE_TOWING@ {
        Slot::BeforeTowing
    } else {
        Slot::MachineGuns
    }
}

/// The height that a field takes from the gun column: its height and the
/// gap where it has no alternate location, nothing where it has one.
pub open spec fn consumed_by(field: TextFieldView) -> int {
    if field.alternate_location.len() == 0 {
        field.fonts.height() + GUN_COLUMN_Y_GAP
    } else {
        0
    }
}

/// The height that `fields` take from the gun column together.
pub open spec fn total_consumed(fields: Seq<TextFieldView>) -> int
    decreases fields.len(),
{
    if fields.len() == 0 {
        0
    } else {
        total_consumed(fields.subrange(0, fields.len() - 1)) + consumed_by(
            fields[fields.len() - 1],
        )
    }
}

/// How many of `fields` have no alternate location.
pub open spec fn stacked_count(fields: Seq<TextFieldView>) -> int
    decreases fields.len(),
{
    if fields.len() == 0 {
        0
    } else {
        stacked_count(fields.subrange(0, fields.len() - 1)) + if fields[fields.len()
            - 1].alternate_location.len() == 0 {
            1int
        } else {
            0int
        }
    }
}

/// The sum of the heights of those of `fields` that have no alternate
/// location.
pub open spec fn stacked_heights(fields: Seq<TextFieldView>) -> int
    decreases fields.len(),
{
    if fields.len() == 0 {
        0
    } else {
        stacked_heights(fields.subrange(0, fields.len() - 1)) + if fields[fields.len()
            - 1].alternate_location.len() == 0 {
            fields[fields.len() - 1].fonts.height()
        } else {
            0int
        }
    }
}

/// Layout conservation: what a sequence of fields takes from the gun column
/// is the sum of the heights of the fields without an alternate location,
/// and one gap for each of them.
pub proof fn lemma_layout_conservation(fields: Seq<TextFieldView>)
    ensures
        total_consumed(fields) == stacked_heights(fields) + stacked_count(fields)
            * GUN_COLUMN_Y_GAP,
    decreases fields.len(),
{
    if fields.len() > 0 {
        lemma_layout_conservation(fields.subrange(0, fields.len() - 1));
    }
}

/// Fields that all have an alternate location take nothing from the gun
/// column.
pub proof fn lemma_alternate_fields_take_nothing(fields: Seq<TextFieldView>)
    requires
        forall|i: int| 0 <= i < fields.len() ==> (#[trigger] fields[i]).alternate_location.len() > 0,
    ensures
        total_consumed(fields) == 0,
    decreases fields.len(),
{
    if fields.len() > 0 {
        let front = fields.subrange(0, fields.len() - 1);
        assert forall|i: int| 0 <= i < front.len() implies (
        #[trigger] front[i]).alternate_location.len() > 0 by {
            assert(front[i] == fields[i]);
        }
        lemma_alternate_fields_take_nothing(front);
    }
}

impl LayoutCursor {
    /// The cursor can still move by the height of any field.
    pub open spec fn has_room(&self) -> bool {
        -CURSOR_LIMIT <= self.y <= CURSOR_LIMIT && -CURSOR_LIMIT <= self.remaining <= CURSOR_LIMIT
    }

    /// The cursor `self` moved up by `height`.
    pub open spec fn moved(self, height: int) -> (int, int) {
        (self.y - height, self.remaining - height)
    }

    /// A cursor at the baseline of the gun column of a fresh counter.
    pub fn new() -> (r: LayoutCursor)
        ensures
            r.y == GUN_CALIBER_BASELINE,
            r.remaining == DRAWABLE_HEIGHT,
            r.has_room(),
    {
        LayoutCursor { y: GUN_CALIBER_BASELINE, remaining: DRAWABLE_HEIGHT }
    }

    /// Puts the cursor back to where a fresh counter starts.
    pub fn reset(&mut self)
        ensures
            final(self).y == GUN_CALIBER_BASELINE,
            final(self).remaining == DRAWABLE_HEIGHT,
    {
        self.y = GUN_CALIBER_BASELINE;
        self.remaining = DRAWABLE_HEIGHT;
    }

    /// Places a field and returns the height that it takes from the gun
    /// column. A field without an alternate location takes its height and
    /// the gap, and the cursor moves up by as much; a field with one takes
    /// nothing and leaves the cursor as it is. That fields run over the
    /// drawable height is not detected: `remaining` then falls below zero.
    pub fn place(&mut self, field: &TextField) -> (consumed: i64)
        requires
            field.fonts.well_formed(),
            old(self).has_room(),
        ensures
            consumed == consumed_by(field@),
            0 <= consumed <= METRIC_LIMIT + GUN_COLUMN_Y_GAP,
            final(self).y == old(self).y - consumed,
            final(self).remaining == old(self).remaining - consumed,
            field.alternate_location@.len() > 0 ==> *final(self) == *old(self),
    {
        if field.alternate_location.as_str().is_empty() {
            let height: i64 = field.fonts.height();
            assert(height == field.fonts.fonts[field.fonts.selected_font as int][FA_HEIGHT as int]);
            let consumed: i64 = height + GUN_COLUMN_Y_GAP;
            self.y = self.y - consumed;
            self.remaining = self.remaining - consumed;
            consumed
        } else {
            0
        }
    }

    /// Places a field and says where it is drawn: at its anchor, with the
    /// cursor where it stood before the field was placed.
    pub fn place_at(&mut self, field: &TextField) -> (r: (Anchor, i64))
        requires
            field.fonts.well_formed(),
            old(self).has_room(),
        ensures
            (r.0.x as int, r.0.y as int) == anchor_at(
                slot_of(field.alternate_location@),
                old(self).y as int,
            ),
            r.1 == consumed_by(field@),
            final(self).y == old(self).y - r.1,
            final(self).remaining == old(self).remaining - r.1,
            field.alternate_location@.len() > 0 ==> *final(self) == *old(self),
    {
        let anchor = find_anchor(self, field);
        let consumed = self.place(field);
        (anchor, consumed)
    }

    /// Places a range. A range without an alternate location goes to the
    /// gun column only where the machine-gun slot is taken; where it is
    /// free, the range stands there and takes nothing. A range with an
    /// alternate location is placed like any other field.
    pub fn place_range(&mut self, range: &TextField, no_mgs: bool) -> (r: (Anchor, i64))
        requires
            range.fonts.well_formed(),
            old(self).has_room(),
        ensures
            range.alternate_location@.len() == 0 && no_mgs ==> (r.0.x as int, r.0.y as int)
                == anchor_at(Slot::MachineGuns, old(self).y as int) && r.1 == 0 && *final(self)
                == *old(self),
            !(range.alternate_location@.len() == 0 && no_mgs) ==> (r.0.x as int, r.0.y as int)
                == anchor_at(slot_of(range.alternate_location@), old(self).y as int) && r.1
                == consumed_by(range@),
            final(self).y == old(self).y - r.1,
            final(self).remaining == old(self).remaining - r.1,
            range.alternate_location@.len() > 0 ==> *final(self) == *old(self),
    {
        if range.alternate_location.as_str().is_empty() && no_mgs {
            (Anchor { x: MGS_LINE_X_POSITION, y: MGS_LINE_Y_POSITION }, 0)
        } else {
            self.place_at(range)
        }
    }

    /// Takes the height of an element that is no field, and the gap, from
    /// the gun column; returns what was taken.
    pub fn take(&mut self, height: i64) -> (consumed: i64)
        requires
            0 <= height <= METRIC_LIMIT,
            old(self).has_room(),
        ensures
            consumed == height + GUN_COLUMN_Y_GAP,
            final(self).y == old(self).y - consumed,
            final(self).remaining == old(self).remaining - consumed,
    {
        let consumed: i64 = height + GUN_COLUMN_Y_GAP;
        self.y = self.y - consumed;
        self.remaining = self.remaining - consumed;
        consumed
    }

    /// Moves the cursor up by a height that already holds its gaps.
    pub fn advance(&mut self, consumed: i64)
        requires
            0 <= consumed <= 4 * METRIC_LIMIT,
            old(self).has_room(),
        ensures
            final(self).y == old(self).y - consumed,
            final(self).remaining == old(self).remaining - consumed,
    {
        self.y = self.y - consumed;
        self.remaining = self.remaining - consumed;
    }

    /// Whether the cursor can still move by the height of any field.
    pub fn check_room(&self) -> (r: bool)
        ensures
            r == self.has_room(),
    {
        -CURSOR_LIMIT <= self.y && self.y <= CURSOR_LIMIT && -CURSOR_LIMIT <= self.remaining
            && self.remaining <= CURSOR_LIMIT
    }

    /// Places `fields` in the order given and returns the height that they
    /// take together. Fields that would move the cursor beyond its range are
    /// not placed; the first of them ends the placing.
    pub fn place_all(&mut self, fields: &Vec<TextField>) -> (r: (usize, i64))
        requires
            forall|i: int| 0 <= i < fields.len() ==> (#[trigger] fields[i]).fonts.well_formed(),
            old(self).has_room(),
        ensures
            r.0 <= fields.len(),
            r.1 == total_consumed(fields@.map_values(|f: TextField| f@).subrange(0, r.0 as int)),
            final(self).y == old(self).y - r.1,
            final(self).remaining == old(self).remaining - r.1,
            r.0 < fields.len() ==> !final(self).has_room(),
    {
        let ghost views = fields@.map_values(|f: TextField| f@);
        let mut total: i64 = 0;
        let mut i: usize = 0;
        assert(views.subrange(0, 0) =~= Seq::<TextFieldView>::empty());
        while i < fields.len()
            invariant
                i <= fields.len(),
                views == fields@.map_values(|f: TextField| f@),
                forall|k: int| 0 <= k < fields.len() ==> (#[trigger] fields[k]).fonts.well_formed(),
                total == total_consumed(views.subrange(0, i as int)),
                self.y == old(self).y - total,
                self.remaining == old(self).remaining - total,
                old(self).has_room(),
                0 <= total <= 2 * CURSOR_LIMIT + METRIC_LIMIT + GUN_COLUMN_Y_GAP,
            decreases fields.len() - i,
        {
            if !(-CURSOR_LIMIT <= self.y && self.y <= CURSOR_LIMIT && -CURSOR_LIMIT
                <= self.remaining && self.remaining <= CURSOR_LIMIT) {
                return (i, total);
            }
            let ghost upto = views.subrange(0, i + 1);
            assert(upto.subrange(0, upto.len() - 1) =~= views.subrange(0, i as int));
            assert(upto[upto.len() - 1] == fields[i as int]@);
            let consumed = self.place(&fields[i]);
            total = total + consumed;
            i = i + 1;
        }
        (i, total)
    }
}

/// The slot that `field` goes to.
pub fn find_slot(field: &TextField) -> (r: Slot)
    ensures
        r == slot_of(field.alternate_location@),
{
    let l = to_chars(field.alternate_location.as_str());
    if l.len() == 0 {
        Slot::GunColumn
    } else if same_chars(&l, &to_chars(MOD_LOCATION_GS)) {
        Slot::GunStack
    } else if same_chars(&l, &to_chars(MOD_LOCATION_ABOVE_MGS)) {
        Slot::AboveMachineGuns
    } else if same_chars(&l, &to_chars(MOD_LOCATION_BEFORE_TOWING)) {
        Slot::BeforeTowing
    } else {
        Slot::MachineGuns
    }
}

/// Where a field in `slot` is anchored, with the cursor at height `y`.
pub open spec fn anchor_at(slot: Slot, y: int) -> (int, int) {
    match slot {
        Slot::GunColumn => (GUN_COLUMN_X_POSITION as int, y),
        Slot::GunStack => (GUN_COLUMN_X_POSITION as int, y),
        Slot::MachineGuns => (MGS_LINE_X_POSITION as int, MGS_LINE_Y_POSITION as int),
        Slot::AboveMachineGuns => (MGS_LINE_X_POSITION as int, MGS_LINE_2_Y_POSITION as int),
        Slot::BeforeTowing => (BEFORE_TOWING_X_POSITION as int, TOWING_Y_POSITION as int),
    }
}

/// Where `field` is anchored with the cursor where it is.
pub fn find_anchor(cursor: &LayoutCursor, field: &TextField) -> (r: Anchor)
    ensures
        (r.x as int, r.y as int) == anchor_at(slot_of(field.alternate_location@), cursor.y as int),
{
    match find_slot(field) {
        Slot::GunColumn => Anchor { x: GUN_COLUMN_X_POSITION, y: cursor.y },
        Slot::GunStack => Anchor { x: GUN_COLUMN_X_POSITION, y: cursor.y },
        Slot::MachineGuns => Anchor { x: MGS_LINE_X_POSITION, y: MGS_LINE_Y_POSITION },
        Slot::AboveMachineGuns => Anchor { x: MGS_LINE_X_POSITION, y: MGS_LINE_2_Y_POSITION },
        Slot::BeforeTowing => Anchor { x: BEFORE_TOWING_X_POSITION, y: TOWING_Y_POSITION },
    }
}

} // verus!
