use tooltip::geom::apply_modifier;
use tooltip::geom::compute_position;
use tooltip::geom::intersect;
use tooltip::geom::run_pipeline;
use tooltip::geom::Modifier;
use tooltip::GeomInput;
use tooltip::Rect;
use tooltip::Side;
use tooltip::Size;

fn rect(x: i64, y: i64, width: i64, height: i64) -> Rect {
    Rect { x, y, width, height }
}

#[test]
fn intersect_clips_to_the_overlap() {
    let a = rect(0, 0, 100, 100);
    let b = rect(40, -20, 100, 50);
    let r = intersect(&a, &b);
    assert_eq!(r, rect(40, 0, 60, 30));
}

#[test]
fn intersect_of_disjoint_rects_is_empty() {
    let a = rect(0, 0, 10, 10);
    let b = rect(50, 50, 10, 10);
    let r = intersect(&a, &b);
    assert_eq!((r.width, r.height), (0, 0));
}

#[test]
fn contains_includes_edges() {
    let r = rect(10, 20, 30, 40);
    assert!(r.contains(10, 20));
    assert!(r.contains(40, 60));
    assert!(r.contains(25, 30));
    assert!(!r.contains(9, 30));
    assert!(!r.contains(41, 30));
    assert!(!r.contains(25, 61));
}

#[test]
fn bottom_anchor_flips_to_top() {
    // anchor near the container's bottom edge: no room below, plenty above
    let inp = GeomInput {
        anchor: rect(45, 80, 10, 10),
        tip: Size { width: 30, height: 20 },
        clip: rect(0, 0, 100, 100),
        side: Side::Bottom,
        padding: 2,
        border_radius: 0,
        arrow: None,
    };
    let pos = compute_position(&inp);
    assert_eq!(pos.side, Side::Top);
    // re-placed above the anchor: y = 80 - 20 - 2
    assert_eq!((pos.x, pos.y), (35, 58));
}

#[test]
fn roomy_container_keeps_requested_side() {
    let inp = GeomInput {
        anchor: rect(45, 45, 10, 10),
        tip: Size { width: 30, height: 20 },
        clip: rect(0, 0, 100, 100),
        side: Side::Bottom,
        padding: 2,
        border_radius: 0,
        arrow: None,
    };
    let pos = compute_position(&inp);
    assert_eq!(pos.side, Side::Bottom);
    assert_eq!((pos.x, pos.y), (35, 57));
}

#[test]
fn anchor_near_right_edge_is_shifted_inside() {
    // anchor near the container's right edge: the centered tip would poke
    // out; shift clamps it so its right edge stays padding away
    let inp = GeomInput {
        anchor: rect(85, 10, 10, 10),
        tip: Size { width: 40, height: 20 },
        clip: rect(0, 0, 100, 100),
        side: Side::Bottom,
        padding: 2,
        border_radius: 0,
        arrow: None,
    };
    let pos = compute_position(&inp);
    assert_eq!(pos.side, Side::Bottom);
    assert_eq!((pos.x, pos.y), (58, 22));
    assert!(pos.x + inp.tip.width <= inp.clip.x + inp.clip.width - inp.padding);
}

#[test]
fn arrow_points_at_the_anchor_center() {
    let inp = GeomInput {
        anchor: rect(40, 40, 20, 10),
        tip: Size { width: 50, height: 20 },
        clip: rect(0, 0, 200, 200),
        side: Side::Top,
        padding: 0,
        border_radius: 5,
        arrow: Some(Size { width: 16, height: 6 }),
    };
    let pos = compute_position(&inp);
    assert_eq!(pos.side, Side::Top);
    // offset by padding + arrow height: y = 40 - 20 - 6
    assert_eq!((pos.x, pos.y), (25, 14));
    let ap = pos.arrow.expect("an arrow is configured");
    // anchor center 50; arrow left edge inside the tip: 50 - 16/2 - 25
    assert_eq!(ap.cross_edge, Side::Left);
    assert_eq!(ap.cross_offset, 17);
    // pinned to the edge facing the anchor, protruding by its height
    assert_eq!(ap.pin_edge, Side::Bottom);
    assert_eq!(ap.pin_offset, -6);
}

#[test]
fn arrow_offset_is_clamped_by_border_radius() {
    // anchor at the far left: the ideal arrow offset would be negative
    let inp = GeomInput {
        anchor: rect(0, 40, 10, 10),
        tip: Size { width: 50, height: 20 },
        clip: rect(0, 0, 200, 200),
        side: Side::Bottom,
        padding: 0,
        border_radius: 5,
        arrow: Some(Size { width: 16, height: 6 }),
    };
    let pos = compute_position(&inp);
    let ap = pos.arrow.expect("an arrow is configured");
    assert_eq!(ap.cross_offset, 5);
}

#[test]
fn clip_smaller_than_tip_degrades_without_error() {
    // the geometry engine must tolerate a clip region smaller than the tip
    // and fall back to a best-effort placement
    let inp = GeomInput {
        anchor: rect(0, 0, 10, 10),
        tip: Size { width: 50, height: 20 },
        clip: rect(0, 0, 10, 10),
        side: Side::Bottom,
        padding: 0,
        border_radius: 0,
        arrow: None,
    };
    let pos = compute_position(&inp);
    // clamped to the clip's left inset rather than crashing
    assert_eq!((pos.x, pos.y), (0, 10));
}

#[test]
fn transposing_flip_and_shift_changes_the_outcome() {
    // the same collision scenario run under the standard order and with
    // Flip and Shift transposed: a later Flip re-places the tip and throws
    // the earlier Shift clamp away
    let inp = GeomInput {
        anchor: rect(2, 80, 10, 10),
        tip: Size { width: 30, height: 20 },
        clip: rect(0, 0, 100, 100),
        side: Side::Bottom,
        padding: 2,
        border_radius: 0,
        arrow: None,
    };
    let standard = vec![Modifier::Offset, Modifier::Flip, Modifier::Shift, Modifier::Arrow];
    let transposed = vec![Modifier::Offset, Modifier::Shift, Modifier::Flip, Modifier::Arrow];
    let a = run_pipeline(&inp, &standard);
    let b = run_pipeline(&inp, &transposed);
    assert_ne!(a, b);
    assert_eq!(a.x, 2);
    assert_eq!(b.x, -8);
    assert_eq!(a.side, b.side);
}

#[test]
fn modifiers_apply_one_at_a_time() {
    let inp = GeomInput {
        anchor: rect(45, 80, 10, 10),
        tip: Size { width: 30, height: 20 },
        clip: rect(0, 0, 100, 100),
        side: Side::Bottom,
        padding: 2,
        border_radius: 0,
        arrow: None,
    };
    let mods = vec![Modifier::Offset, Modifier::Flip, Modifier::Shift, Modifier::Arrow];
    let mut st = run_pipeline(&inp, &vec![]);
    assert_eq!((st.x, st.y, st.side), (35, 90, Side::Bottom));
    for m in mods.iter() {
        st = apply_modifier(&inp, st, *m);
    }
    assert_eq!(st, compute_position(&inp));
}
