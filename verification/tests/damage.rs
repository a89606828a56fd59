use mecha_wayland::damage::{apply_owed, plan_frame, Damage, FramePlan};
use mecha_wayland::geometry::Rect;

#[test]
fn unchanged_skips_even_with_a_debt() {
    let full = Rect::new(0, 0, 1000, 1000);
    assert_eq!(plan_frame(Damage::Unchanged, Rect::new(1, 1, 5, 5), full), FramePlan::Skip);
    assert_eq!(plan_frame(Damage::Unchanged, Rect::zero(), full), FramePlan::Skip);
}

#[test]
fn paint_repaints_its_damage_and_the_debt() {
    let full = Rect::new(0, 0, 1000, 1000);
    let r = Rect::new(10, 10, 10, 10);
    let owed = Rect::new(40, 5, 10, 10);
    assert_eq!(
        plan_frame(Damage::Paint(r), owed, full),
        FramePlan::Draw {
            relayout: false,
            region: Rect::new(10, 5, 40, 15),
            this_damage: r,
        }
    );
    assert_eq!(
        plan_frame(Damage::Paint(r), Rect::zero(), full),
        FramePlan::Draw { relayout: false, region: r, this_damage: r }
    );
}

#[test]
fn layout_repaints_everything() {
    let full = Rect::new(0, 0, 1000, 1000);
    assert_eq!(
        plan_frame(Damage::Layout, Rect::new(1, 1, 5, 5), full),
        FramePlan::Draw { relayout: true, region: full, this_damage: full }
    );
}

#[test]
fn drawing_moves_the_debt_to_the_other_slot() {
    let mut owed = [Rect::new(1, 1, 2, 2), Rect::new(10, 10, 5, 5)];
    apply_owed(&mut owed, 0, Rect::new(20, 0, 5, 5));
    assert_eq!(owed, [Rect::zero(), Rect::new(10, 0, 15, 15)]);
    apply_owed(&mut owed, 1, Rect::new(3, 3, 3, 3));
    assert_eq!(owed, [Rect::new(3, 3, 3, 3), Rect::zero()]);
}

#[test]
fn a_slot_that_sat_frames_out_catches_up() {
    let full = Rect::new(0, 0, 100, 100);
    let mut owed = [Rect::zero(), Rect::zero()];
    let frames = [
        (0usize, Damage::Layout),
        (1, Damage::Paint(Rect::new(0, 0, 10, 10))),
        (1, Damage::Paint(Rect::new(50, 50, 10, 10))),
        (0, Damage::Unchanged),
        (1, Damage::Paint(Rect::new(90, 0, 10, 10))),
    ];
    for (back, class) in frames {
        if let FramePlan::Draw { this_damage, .. } = plan_frame(class, owed[back], full) {
            apply_owed(&mut owed, back, this_damage);
        }
    }
    // Slot 0 missed the three paints into slot 1.
    assert_eq!(owed, [Rect::new(0, 0, 100, 60), Rect::zero()]);
    let plan = plan_frame(Damage::Paint(Rect::new(0, 80, 5, 5)), owed[0], full);
    assert_eq!(
        plan,
        FramePlan::Draw {
            relayout: false,
            region: Rect::new(0, 0, 100, 85),
            this_damage: Rect::new(0, 80, 5, 5),
        }
    );
}
