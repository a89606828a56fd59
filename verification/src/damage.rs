//! Frame planning for a two-slot swap chain.
//!
//! Each slot of the swap chain remembers the region that it still *owes*: what other frames
//! painted since the slot was last drawn. A frame repaints its own damage together with what
//! its back slot owes, and adds its own damage to the debt of the other slot.

use vstd::prelude::*;

use crate::geometry::{zero_rect, Rect};

verus! {

/// What a frame has to redo.
#[derive(Debug, Clone, Copy, PartialEq, Eq, Structural)]
pub enum Damage {
    /// Nothing changed.
    Unchanged,
    /// Pixels changed inside the rectangle; the layout still holds.
    Paint(Rect),
    /// The layout changed: everything is repainted.
    Layout,
}

#[derive(Debug, Clone, Copy, PartialEq, Eq, Structural)]
pub enum FramePlan {
    Skip,
    /// Draw into the back slot.
    Draw {
        /// Whether the layout must be recomputed. A `Paint` frame reuses the existing one.
        relayout: bool,
        /// The region to repaint: this frame's damage joined with what the back slot owed.
        region: Rect,
        /// This frame's own damage, to be added to the other slot's debt.
        this_damage: Rect,
    },
}

/// What a frame of class `class` does, when its back slot owes `owed_back` on a surface of
/// extent `full`.
pub open spec fn frame_plan(class: Damage, owed_back: Rect, full: Rect) -> FramePlan {
    match class {
        Damage::Unchanged => FramePlan::Skip,
        Damage::Paint(r) => FramePlan::Draw {
            relayout: false,
            region: r.bounding(owed_back),
            this_damage: r,
        },
        Damage::Layout => FramePlan::Draw { relayout: true, region: full, this_damage: full },
    }
}

/// The debts of the two slots after slot `back` was drawn by a frame with damage `this_damage`.
pub open spec fn debts_after_draw(owed: Seq<Rect>, back: int, this_damage: Rect) -> Seq<Rect> {
    owed.update(back, zero_rect()).update(1 - back, owed[1 - back].bounding(this_damage))
}

/// Classify a frame from its effective damage `class` and the back slot's debt. `full` is the
/// whole-surface rectangle.
///
/// `Damage::Unchanged` always skips, even when the back slot owes something: a debt matters only on
/// a frame that presents the slot, and a skipped frame presents nothing.
pub fn plan_frame(class: Damage, owed_back: Rect, full: Rect) -> (plan: FramePlan)
    requires
        class matches Damage::Paint(r) ==> r.joinable(owed_back),
    ensures
        plan == frame_plan(class, owed_back, full),
        plan is Skip <==> class is Unchanged,
        plan matches FramePlan::Draw { relayout, region, this_damage } ==> {
            &&& relayout == (class is Layout)
            &&& class is Layout ==> region == full && this_damage == full
            &&& class matches Damage::Paint(r) ==> this_damage == r && region == r.bounding(
                owed_back,
            )
        },
{
    match class {
        Damage::Unchanged => FramePlan::Skip,
        Damage::Paint(r) => FramePlan::Draw {
            relayout: false,
            region: r.union(owed_back),
            this_damage: r,
        },
        Damage::Layout => FramePlan::Draw { relayout: true, region: full, this_damage: full },
    }
}

/// Settle the debts after slot `back` was drawn: it owes nothing any more, and the other slot
/// owes this frame's damage on top of what it owed.
pub fn apply_owed(owed: &mut [Rect; 2], back: usize, this_damage: Rect)
    requires
        back < 2,
        old(owed)@[1 - back].joinable(this_damage),
    ensures
        final(owed)@ == debts_after_draw(old(owed)@, back as int, this_damage),
        final(owed)@[back as int] == zero_rect(),
        final(owed)@[1 - back] == old(owed)@[1 - back].bounding(this_damage),
        old(owed)@[1 - back].fits() && this_damage.fits() ==> final(owed)@[1 - back].fits(),
{
    let other: usize = 1 - back;
    let settled: Rect = owed[other].union(this_damage);
    owed[back] = Rect::zero();
    owed[other] = settled;
}

/// One frame of a window's life: the slot that was its back buffer and what it had to redo.
pub struct Frame {
    pub back: int,
    pub class: Damage,
}

/// The frame is one of a two-slot swap chain, and a painted region is in the range where any two
/// rectangles can be joined.
pub open spec fn valid_frame(f: Frame) -> bool {
    &&& f.back == 0 || f.back == 1
    &&& f.class matches Damage::Paint(r) ==> r.fits()
}

/// A history of frames that a swap chain can go through.
pub open spec fn valid_history(frames: Seq<Frame>) -> bool {
    forall|i: int| 0 <= i < frames.len() ==> valid_frame(#[trigger] frames[i])
}

/// What the two slots owe after a history of frames, starting from two fresh slots.
pub open spec fn debts(frames: Seq<Frame>, full: Rect) -> Seq<Rect>
    decreases frames.len(),
{
    if frames.len() == 0 {
        seq![zero_rect(), zero_rect()]
    } else {
        let before = debts(frames.drop_last(), full);
        let f = frames.last();
        match frame_plan(f.class, before[f.back], full) {
            FramePlan::Skip => before,
            FramePlan::Draw { relayout, region, this_damage } => debts_after_draw(
                before,
                f.back,
                this_damage,
            ),
        }
    }
}

/// The 1-based number of the frame that last changed what `(px, py)` should show; 0 if none did.
pub open spec fn last_change(frames: Seq<Frame>, full: Rect, px: int, py: int) -> nat
    decreases frames.len(),
{
    if frames.len() == 0 {
        0
    } else {
        let before = frames.drop_last();
        let f = frames.last();
        match frame_plan(f.class, debts(before, full)[f.back], full) {
            FramePlan::Draw { relayout, region, this_damage } if this_damage.covers(px, py) =>
            frames.len(),
            _ => last_change(before, full, px, py),
        }
    }
}

/// The 1-based number of the frame that last painted `(px, py)` in slot `slot`; 0 if none did.
pub open spec fn last_paint(frames: Seq<Frame>, full: Rect, slot: int, px: int, py: int) -> nat
    decreases frames.len(),
{
    if frames.len() == 0 {
        0
    } else {
        let before = frames.drop_last();
        let f = frames.last();
        match frame_plan(f.class, debts(before, full)[f.back], full) {
            FramePlan::Draw { relayout, region, this_damage } if f.back == slot && region.covers(
                px,
                py,
            ) => frames.len(),
            _ => last_paint(before, full, slot, px, py),
        }
    }
}

/// The last frame of a valid history is valid, and so is the history before it.
proof fn prefix_is_valid(frames: Seq<Frame>)
    requires
        valid_history(frames),
        frames.len() > 0,
    ensures
        valid_frame(frames.last()),
        valid_history(frames.drop_last()),
{
    let before = frames.drop_last();
    assert(valid_frame(frames[frames.len() - 1]));
    assert forall|i: int| 0 <= i < before.len() implies valid_frame(#[trigger] before[i]) by {
        assert(before[i] == frames[i]);
    }
}

/// What a history leaves owed are two rectangles in the range where any two can be joined.
pub proof fn debts_fit(frames: Seq<Frame>, full: Rect)
    requires
        valid_history(frames),
        full.fits(),
    ensures
        debts(frames, full).len() == 2,
        debts(frames, full)[0].fits(),
        debts(frames, full)[1].fits(),
    decreases frames.len(),
{
    if frames.len() > 0 {
        let before = frames.drop_last();
        prefix_is_valid(frames);
        debts_fit(before, full);
    }
}

/// A pixel that a slot does not owe is up to date in it: nothing has changed there since the
/// slot last painted it.
pub proof fn unowed_pixels_are_current(
    frames: Seq<Frame>,
    full: Rect,
    slot: int,
    px: int,
    py: int,
)
    requires
        valid_history(frames),
        full.fits(),
        slot == 0 || slot == 1,
        full.covers(px, py),
        !debts(frames, full)[slot].covers(px, py),
    ensures
        last_paint(frames, full, slot, px, py) >= last_change(frames, full, px, py),
    decreases frames.len(),
{
    if frames.len() > 0 {
        let before = frames.drop_last();
        let f = frames.last();
        prefix_is_valid(frames);
        debts_fit(before, full);
        let owed = debts(before, full);
        match frame_plan(f.class, owed[f.back], full) {
            FramePlan::Skip => {
                unowed_pixels_are_current(before, full, slot, px, py);
            },
            FramePlan::Draw { relayout, region, this_damage } => {
                if f.back == slot {
                    if !region.covers(px, py) {
                        crate::geometry::union_covers_both(this_damage, owed[slot]);
                        assert(!this_damage.covers(px, py));
                        assert(!owed[slot].covers(px, py));
                        unowed_pixels_are_current(before, full, slot, px, py);
                        last_change_bounded(before, full, px, py);
                    } else {
                        last_change_bounded(frames, full, px, py);
                    }
                } else {
                    crate::geometry::union_covers_both(owed[slot], this_damage);
                    assert(debts(frames, full)[slot] == owed[slot].bounding(this_damage));
                    assert(!this_damage.covers(px, py));
                    assert(!owed[slot].covers(px, py));
                    unowed_pixels_are_current(before, full, slot, px, py);
                }
            },
        }
    }
}

proof fn last_change_bounded(frames: Seq<Frame>, full: Rect, px: int, py: int)
    ensures
        last_change(frames, full, px, py) <= frames.len(),
    decreases frames.len(),
{
    if frames.len() > 0 {
        last_change_bounded(frames.drop_last(), full, px, py);
    }
}

/// A frame that is drawn leaves its slot complete: every pixel of the surface shows the newest
/// change, however many frames the slot sat out.
pub proof fn drawn_slot_is_current(frames: Seq<Frame>, full: Rect, px: int, py: int)
    requires
        valid_history(frames),
        full.fits(),
        frames.len() > 0,
        !(frames.last().class is Unchanged),
        full.covers(px, py),
    ensures
        last_paint(frames, full, frames.last().back, px, py) >= last_change(frames, full, px, py),
{
    assert(debts(frames, full)[frames.last().back] == zero_rect()) by {
        let before = frames.drop_last();
        prefix_is_valid(frames);
        debts_fit(before, full);
    }
    unowed_pixels_are_current(frames, full, frames.last().back, px, py);
}

/// Drawing slot `back` clears its debt, and the other slot then owes at least this frame's
/// damage and everything it owed before.
pub proof fn drawing_moves_the_debt(owed: Seq<Rect>, back: int, this_damage: Rect)
    requires
        owed.len() == 2,
        back == 0 || back == 1,
        owed[1 - back].joinable(this_damage),
    ensures
        debts_after_draw(owed, back, this_damage)[back].empty(),
        debts_after_draw(owed, back, this_damage)[1 - back].covers_rect(this_damage),
        debts_after_draw(owed, back, this_damage)[1 - back].covers_rect(owed[1 - back]),
{
    crate::geometry::union_covers_both(owed[1 - back], this_damage);
}

/// A skipped frame leaves every debt as it was.
pub proof fn skipped_frame_keeps_debts(frames: Seq<Frame>, full: Rect)
    requires
        frames.len() > 0,
        frames.last().class is Unchanged,
    ensures
        debts(frames, full) == debts(frames.drop_last(), full),
{
}

/// Every paint of the history stays on the surface.
pub open spec fn paints_inside(frames: Seq<Frame>, full: Rect) -> bool {
    forall|i: int|
        0 <= i < frames.len() ==> ((#[trigger] frames[i]).class matches Damage::Paint(r)
            ==> r.proper() && full.covers_rect(r))
}

/// As long as every paint stays on the surface, so does every debt.
pub proof fn debts_stay_inside(frames: Seq<Frame>, full: Rect)
    requires
        valid_history(frames),
        paints_inside(frames, full),
        full.fits(),
        full.proper(),
    ensures
        full.covers_rect(debts(frames, full)[0]),
        full.covers_rect(debts(frames, full)[1]),
        debts(frames, full)[0].proper(),
        debts(frames, full)[1].proper(),
    decreases frames.len(),
{
    if frames.len() > 0 {
        let before = frames.drop_last();
        let f = frames.last();
        assert(f == frames[frames.len() - 1]);
        prefix_is_valid(frames);
        assert forall|i: int| 0 <= i < before.len() implies ((#[trigger] before[i]).class matches
            Damage::Paint(r) ==> r.proper() && full.covers_rect(r)) by {
            assert(before[i] == frames[i]);
        }
        debts_fit(before, full);
        debts_stay_inside(before, full);
        let owed = debts(before, full);
        match frame_plan(f.class, owed[f.back], full) {
            FramePlan::Skip => {},
            FramePlan::Draw { relayout, region, this_damage } => {
                assert(full.covers_rect(this_damage));
                crate::geometry::union_is_least(owed[1 - f.back], this_damage, full);
            },
        }
    }
}

/// Repainting the whole surface pays every debt that lies on it: the surface joined with the debt
/// is the surface.
pub proof fn full_repaint_pays_the_debt(full: Rect, owed: Rect)
    requires
        full.joinable(owed),
        full.proper(),
        owed.proper(),
        !full.empty(),
        full.covers_rect(owed),
    ensures
        full.bounding(owed) == full,
{
    if !owed.empty() {
        assert(owed.covers(owed.origin.x as int, owed.origin.y as int));
        assert(owed.covers(owed.right_edge(), owed.bottom_edge()));
    }
}

/// A frame is skipped exactly if nothing changed, and the layout is redone exactly if it changed;
/// then the whole surface is repainted and counts as this frame's damage.
pub proof fn plan_follows_the_damage(class: Damage, owed_back: Rect, full: Rect)
    ensures
        frame_plan(class, owed_back, full) is Skip <==> class is Unchanged,
        frame_plan(class, owed_back, full) matches FramePlan::Draw {
            relayout,
            region,
            this_damage,
        } ==> {
            &&& relayout <==> class is Layout
            &&& class is Layout ==> region == full && this_damage == full
            &&& class matches Damage::Paint(r) ==> this_damage == r
        },
{
}

/// A paint repaints its own damage and what the back slot owes, and nothing beyond what any
/// rectangle over the two covers.
pub proof fn painted_region_is_the_damage_and_the_debt(
    r: Rect,
    owed_back: Rect,
    full: Rect,
    bound: Rect,
)
    requires
        r.joinable(owed_back),
        r.proper(),
        owed_back.proper(),
        bound.covers_rect(r),
        bound.covers_rect(owed_back),
    ensures
        frame_plan(Damage::Paint(r), owed_back, full) matches FramePlan::Draw {
            relayout,
            region,
            this_damage,
        } && region.covers_rect(r) && region.covers_rect(owed_back) && bound.covers_rect(region),
{
    crate::geometry::union_covers_both(r, owed_back);
    crate::geometry::union_is_least(r, owed_back, bound);
}

/// The edges of a painted region, where the damage and the debt have area: on each side the
/// outermost of the two. Without a debt the region is the damage.
pub proof fn painted_region_has_the_outermost_edges(r: Rect, owed: Rect, full: Rect)
    requires
        r.joinable(owed),
        r.size.width > 0,
        r.size.height > 0,
    ensures
        frame_plan(Damage::Paint(r), owed, full) matches FramePlan::Draw {
            relayout,
            region,
            this_damage,
        } && {
            &&& owed.size.width == 0 || owed.size.height == 0 ==> region == r
            &&& owed.size.width > 0 && owed.size.height > 0 ==> {
                &&& region.origin.x <= r.origin.x && region.origin.x <= owed.origin.x
                &&& region.origin.x == r.origin.x || region.origin.x == owed.origin.x
                &&& region.origin.y <= r.origin.y && region.origin.y <= owed.origin.y
                &&& region.origin.y == r.origin.y || region.origin.y == owed.origin.y
                &&& region.origin.x + region.size.width >= r.origin.x + r.size.width
                &&& region.origin.x + region.size.width >= owed.origin.x + owed.size.width
                &&& region.origin.x + region.size.width == r.origin.x + r.size.width
                    || region.origin.x + region.size.width == owed.origin.x + owed.size.width
                &&& region.origin.y + region.size.height >= r.origin.y + r.size.height
                &&& region.origin.y + region.size.height >= owed.origin.y + owed.size.height
                &&& region.origin.y + region.size.height == r.origin.y + r.size.height
                    || region.origin.y + region.size.height == owed.origin.y + owed.size.height
            }
        },
{
}

/// After a draw the two slots owe this much and no more: the drawn one nothing, the other one what
/// it owed and this frame's damage, within any rectangle over those two.
pub proof fn debts_grow_by_the_damage_only(
    owed: Seq<Rect>,
    back: int,
    this_damage: Rect,
    bound: Rect,
)
    requires
        owed.len() == 2,
        back == 0 || back == 1,
        owed[1 - back].joinable(this_damage),
        owed[1 - back].proper(),
        this_damage.proper(),
        bound.covers_rect(owed[1 - back]),
        bound.covers_rect(this_damage),
    ensures
        ({
            let after = debts_after_draw(owed, back, this_damage);
            &&& after.len() == 2
            &&& after[back].size.width == 0 && after[back].size.height == 0
            &&& after[1 - back].covers_rect(owed[1 - back])
            &&& after[1 - back].covers_rect(this_damage)
            &&& bound.covers_rect(after[1 - back])
        }),
{
    crate::geometry::union_covers_both(owed[1 - back], this_damage);
    crate::geometry::union_is_least(owed[1 - back], this_damage, bound);
}

/// A slot that owes nothing owes exactly the damage of a frame drawn into the other one.
pub proof fn fresh_slot_owes_the_damage(owed: Seq<Rect>, back: int, this_damage: Rect)
    requires
        owed.len() == 2,
        back == 0 || back == 1,
        owed[1 - back].size.width == 0 || owed[1 - back].size.height == 0,
    ensures
        debts_after_draw(owed, back, this_damage)[1 - back] == this_damage,
{
}

} // verus!
