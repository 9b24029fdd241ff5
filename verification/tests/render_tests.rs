use mouse_trail::render::{render_all, render_dot};
use mouse_trail::trail::{TrailBuffer, TRAIL_LEN};

#[test]
fn renderer_is_deterministic() {
    // Rendering a fixed buffer twice yields identical attributes: the
    // renderer keeps no state of its own between invocations.
    let mut b = TrailBuffer::new();
    b.tick(&vec![(40, 0), (10, 0), (-3, 7)]);
    let first = render_all(&b);
    let second = render_all(&b);
    assert_eq!(first, second);
    for i in 0..TRAIL_LEN {
        assert_eq!(render_dot(&b, i), first[i]);
    }
}

#[test]
fn zero_buffer_attributes() {
    // Head at slot 0 puts the visual head at slot 1; slot 1 is rank 0 and
    // slot 0 is the farthest, rank 119.
    let b = TrailBuffer::new();
    let a1 = render_dot(&b, 1);
    assert_eq!(a1.rank, 0);
    assert_eq!(a1.depth, 2 * TRAIL_LEN);
    assert_eq!(a1.scale_num, 4 * TRAIL_LEN);
    assert_eq!(a1.x, 480);
    assert_eq!(a1.y, -380);
    let a0 = render_dot(&b, 0);
    assert_eq!(a0.rank, 119);
    assert_eq!(a0.depth, 2);
    assert_eq!(a0.scale_num, 4 * TRAIL_LEN - 3 * 119);
}

#[test]
fn unscale_truncates_toward_zero() {
    // A negative sum divides toward zero: -7/4 is -1, not -2.
    let mut b = TrailBuffer::new();
    assert!(b.fold_sample(-7, 9));
    assert_eq!(b.sum_at(119), (-7, 9));
    let a = render_dot(&b, 119);
    assert_eq!(a.x, -1 + 480);
    assert_eq!(a.y, -2 - 380);
    // Head at 119 wraps the visual head to 0, so slot 119 is the farthest.
    assert_eq!(a.rank, 119);
}

#[test]
fn scale_num_matches_size_scale_formula() {
    // scale_num / (4 * TRAIL_LEN) equals (TRAIL_LEN - 0.75 * rank) / TRAIL_LEN.
    let b = TrailBuffer::new();
    let attrs = render_all(&b);
    for a in &attrs {
        let from_num = a.scale_num as f64 / (4.0 * TRAIL_LEN as f64);
        let from_formula = (TRAIL_LEN as f64 - 0.75 * a.rank as f64) / TRAIL_LEN as f64;
        assert!((from_num - from_formula).abs() < 1e-12);
        // The derived core-dot attributes of the original display.
        let lightness = 0.045 + 0.885 * from_num;
        let alpha = 0.6 + 0.4 * from_num;
        assert!((0.0..=1.0).contains(&lightness));
        assert!((0.0..=1.0).contains(&alpha));
    }
}

#[test]
fn render_all_covers_every_slot() {
    let mut b = TrailBuffer::new();
    b.tick(&vec![(12, -5)]);
    let attrs = render_all(&b);
    assert_eq!(attrs.len(), TRAIL_LEN);
    for i in 0..TRAIL_LEN {
        assert_eq!(attrs[i], render_dot(&b, i));
    }
}
