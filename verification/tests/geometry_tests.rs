use compositor_backend::Dimensions;
use compositor_backend::DrawRegion;
use compositor_backend::Viewport;

#[test]
fn dimensions_refuse_zero() {
    assert!(Dimensions::new(0, 600).is_none());
    assert!(Dimensions::new(800, 0).is_none());
    assert!(Dimensions::new(0, 0).is_none());
    let d = Dimensions::new(800, 600).unwrap();
    assert_eq!(d.width, 800);
    assert_eq!(d.height, 600);
}

#[test]
fn default_viewport_is_full() {
    assert_eq!(Viewport::default(), Viewport::Full);
}

#[test]
fn zero_shrink_equals_full() {
    let full = Viewport::Full.region(800, 600);
    let shrink = (Viewport::Shrink { width: 0, height: 0 }).region(800, 600);
    assert_eq!(full, shrink);
    assert_eq!(full, DrawRegion { x: 0, y: 0, width: 800, height: 600 });
}

#[test]
fn shrink_margin_anchors_top_right() {
    let r = (Viewport::Shrink { width: 100, height: 50 }).region(800, 600);
    assert_eq!(r, DrawRegion { x: 100, y: 0, width: 700, height: 550 });
}

#[test]
fn oversized_shrink_is_empty() {
    let r = (Viewport::Shrink { width: 900, height: 10 }).region(800, 600);
    assert_eq!(r.width, 0);
    assert!(r.width == 0 || r.height == 0);

    let r = (Viewport::Shrink { width: 10, height: 700 }).region(800, 600);
    assert_eq!(r.height, 0);

    let r = (Viewport::Shrink { width: 5000, height: 5000 }).region(800, 600);
    assert_eq!(r.width, 0);
    assert_eq!(r.height, 0);
    assert_eq!(r.x, 800);
}

#[test]
fn scissor_rect_lists_region_fields() {
    let r = (Viewport::Shrink { width: 100, height: 50 }).region(800, 600);
    assert_eq!(r.scissor_rect(), (100, 0, 700, 550));
}

#[test]
fn shrink_equal_to_surface_is_empty() {
    let r = (Viewport::Shrink { width: 800, height: 600 }).region(800, 600);
    assert_eq!(r, DrawRegion { x: 800, y: 0, width: 0, height: 0 });
}
