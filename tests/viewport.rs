use render_core::viewport::{compute_placement, frame_blit, Blit, Placement, Rect, Size};

fn size(width: u32, height: u32) -> Size {
    Size { width, height }
}

#[test]
fn exact_triple_fills_window() {
    let p = compute_placement(size(320, 240), size(960, 720));
    assert_eq!(p, Placement { scale: 3, offset_x: 0, offset_y: 0 });
}

#[test]
fn uneven_window_takes_smaller_axis_scale() {
    let p = compute_placement(size(320, 240), size(1000, 700));
    assert_eq!(p, Placement { scale: 2, offset_x: 180, offset_y: 110 });
}

#[test]
fn narrow_window_falls_back_to_scale_one() {
    let p = compute_placement(size(640, 480), size(600, 500));
    assert_eq!(p, Placement { scale: 1, offset_x: -20, offset_y: 10 });
}

#[test]
fn window_smaller_on_both_axes() {
    let p = compute_placement(size(640, 480), size(100, 50));
    assert_eq!(p, Placement { scale: 1, offset_x: -270, offset_y: -215 });
}

#[test]
fn short_window_falls_back_to_scale_one() {
    let p = compute_placement(size(320, 240), size(2000, 200));
    assert_eq!(p.scale, 1);
    assert_eq!(p.offset_x, 840);
    assert_eq!(p.offset_y, -20);
}

#[test]
fn one_axis_at_scale_one_keeps_scale_one() {
    let p = compute_placement(size(320, 240), size(400, 1000));
    assert_eq!(p, Placement { scale: 1, offset_x: 40, offset_y: 380 });
}

#[test]
fn same_size_window() {
    let p = compute_placement(size(320, 240), size(320, 240));
    assert_eq!(p, Placement { scale: 1, offset_x: 0, offset_y: 0 });
}

#[test]
fn zero_window() {
    let p = compute_placement(size(320, 240), size(0, 0));
    assert_eq!(p, Placement { scale: 1, offset_x: -160, offset_y: -120 });
}

#[test]
fn odd_margin_rounds_toward_top_left() {
    let p = compute_placement(size(320, 240), size(641, 483));
    assert_eq!(p, Placement { scale: 2, offset_x: 0, offset_y: 1 });
    let q = compute_placement(size(10, 10), size(9, 7));
    assert_eq!(q, Placement { scale: 1, offset_x: -1, offset_y: -2 });
}

#[test]
fn larger_window_fits_and_centers() {
    let cases = [(320u32, 240u32, 320u32, 240u32), (320, 240, 1919, 1081), (7, 3, 100, 100), (1, 1, 5, 9), (640, 480, 1280, 959)];
    for (vw, vh, pw, ph) in cases {
        let p = compute_placement(size(vw, vh), size(pw, ph));
        assert!(p.scale >= 1);
        assert!(p.offset_x >= 0 && p.offset_y >= 0);
        let right = p.offset_x as i64 + (vw * p.scale) as i64;
        let bottom = p.offset_y as i64 + (vh * p.scale) as i64;
        assert!(right <= pw as i64 && bottom <= ph as i64);
        let dx = pw as i64 - right - p.offset_x as i64;
        let dy = ph as i64 - bottom - p.offset_y as i64;
        assert!((0..=1).contains(&dx) && (0..=1).contains(&dy));
        assert!(vw * (p.scale + 1) > pw || vh * (p.scale + 1) > ph);
    }
}

#[test]
fn exact_multiples_center_with_zero_offset() {
    for k in 1u32..=8 {
        let p = compute_placement(size(320, 240), size(320 * k, 240 * k));
        assert_eq!(p, Placement { scale: k, offset_x: 0, offset_y: 0 });
    }
}

#[test]
fn largest_sizes_do_not_overflow() {
    let p = compute_placement(size(1, 1), size(u32::MAX, u32::MAX));
    assert_eq!(p, Placement { scale: u32::MAX, offset_x: 0, offset_y: 0 });
    let q = compute_placement(size(u32::MAX, u32::MAX), size(0, 0));
    assert_eq!(q, Placement { scale: 1, offset_x: i32::MIN, offset_y: i32::MIN });
    let r = compute_placement(size(u32::MAX, 1), size(0, u32::MAX));
    assert_eq!(r, Placement { scale: 1, offset_x: i32::MIN, offset_y: i32::MAX });
}

#[test]
fn blit_reads_flipped_and_draws_scaled() {
    let b = frame_blit(size(320, 240), size(1000, 700));
    assert_eq!(
        b,
        Blit {
            source: Rect { x: 0, y: 0, width: 320, height: -240 },
            dest: Rect { x: 180, y: 110, width: 640, height: 480 },
        }
    );
}

#[test]
fn blit_overflowing_window() {
    let b = frame_blit(size(640, 480), size(600, 500));
    assert_eq!(b.source, Rect { x: 0, y: 0, width: 640, height: -480 });
    assert_eq!(b.dest, Rect { x: -20, y: 10, width: 640, height: 480 });
}

#[test]
fn blit_at_largest_scale() {
    let b = frame_blit(size(1, 2), size(u32::MAX, u32::MAX));
    assert_eq!(b.dest.width, (u32::MAX / 2) as i64);
    assert_eq!(b.dest.height, (u32::MAX / 2 * 2) as i64);
    assert_eq!(b.dest.x, (u32::MAX - u32::MAX / 2) as i64 / 2);
}
