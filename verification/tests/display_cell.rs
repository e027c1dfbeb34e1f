use segdisplay::font::default_font;
use segdisplay::geometry::geometry;
use segdisplay::geometry::Mirror;
use segdisplay::DigitDisplay;
use segdisplay::DigitOptions;
use segdisplay::DrawingOptions;
use segdisplay::Segment;
use segdisplay::SegmentBits;

fn mask_of(segments: &[Segment]) -> SegmentBits {
    let mut m = SegmentBits::new();
    for s in segments {
        m = m.with(*s);
    }
    m
}

fn drawing_options_of(o: &DigitOptions) -> DrawingOptions {
    DrawingOptions {
        width: o.width,
        height: o.height,
        gap: o.gap,
        thickness: o.thickness,
        pos_transform: Mirror::identity(),
        transform: Mirror::identity(),
    }
}

#[test]
fn render_twice_yields_identical_polygons() {
    let options = DigitOptions::new();
    let mut cell = DigitDisplay::new(options);
    let mask = mask_of(&[Segment::A1, Segment::B, Segment::G1]);
    let first = cell.render(mask, options.width, options.height);
    let second = cell.render(mask, options.width, options.height);
    assert_eq!(first, second);
    assert_eq!(first.len(), 3);
}

#[test]
fn render_matches_fresh_geometry() {
    let options = DigitOptions::new();
    let mut cell = DigitDisplay::new(options);
    let mask = mask_of(&[Segment::F, Segment::G2]);
    let polygons = cell.render(mask, options.width, options.height);
    let draw = drawing_options_of(&options);
    assert_eq!(polygons.len(), 2);
    assert_eq!(polygons[0], geometry(Segment::F, &draw));
    assert_eq!(polygons[1], geometry(Segment::G2, &draw));
}

#[test]
fn modify_invalidates_cached_geometry() {
    let options = DigitOptions::new();
    let mut cell = DigitDisplay::new(options);
    let mask = mask_of(&[Segment::G1]);
    let before = cell.render(mask, options.width, options.height);

    cell.modify_options(|o| DigitOptions { thickness: o.thickness + 40, ..o });
    let new_options = *cell.options();
    assert_eq!(new_options.thickness, options.thickness + 40);

    let after = cell.render(mask, new_options.width, new_options.height);
    assert_ne!(before, after);
    let fresh = geometry(Segment::G1, &drawing_options_of(&new_options));
    assert_eq!(after.len(), 1);
    assert_eq!(after[0], fresh);
}

#[test]
fn set_options_then_render_uses_new_options() {
    let options = DigitOptions::new();
    let mut cell = DigitDisplay::new(options);
    let mask = mask_of(&[Segment::I, Segment::L]);
    let _ = cell.render(mask, options.width, options.height);

    let new_options = DigitOptions { gap: options.gap + 9, ..options };
    cell.set_options(new_options);
    let after = cell.render(mask, new_options.width, new_options.height);
    assert_eq!(after[0], geometry(Segment::I, &drawing_options_of(&new_options)));
    assert_eq!(after[1], geometry(Segment::L, &drawing_options_of(&new_options)));
}

#[test]
fn blank_mask_renders_nothing() {
    let options = DigitOptions::new();
    let mut cell = DigitDisplay::new(options);
    let polygons = cell.render(SegmentBits::new(), options.width, options.height);
    assert!(polygons.is_empty());
}

#[test]
fn mismatched_target_size_renders_nothing() {
    let options = DigitOptions::new();
    let mut cell = DigitDisplay::new(options);
    let mask = mask_of(&[Segment::A1]);
    let polygons = cell.render(mask, options.width + 1, options.height);
    assert!(polygons.is_empty());
    let polygons = cell.render(mask, options.width, options.height - 1);
    assert!(polygons.is_empty());
}

#[test]
fn hi_text_end_to_end() {
    let font = default_font();
    let options = DigitOptions::new();

    let h_mask = font.get(&'H').unwrap();
    let expected_h = mask_of(&[
        Segment::B,
        Segment::C,
        Segment::E,
        Segment::F,
        Segment::G1,
        Segment::G2,
    ]);
    assert_eq!(h_mask, expected_h);

    let i_mask = font.get(&'i').unwrap();
    let expected_i = mask_of(&[Segment::A1, Segment::A2, Segment::L]);
    assert_eq!(i_mask, expected_i);

    let mut cell0 = DigitDisplay::new(options);
    let mut cell1 = DigitDisplay::new(options);
    let h_polygons = cell0.render(h_mask, options.width, options.height);
    let i_polygons = cell1.render(i_mask, options.width, options.height);
    assert_eq!(h_polygons.len(), 6);
    assert_eq!(i_polygons.len(), 3);
    for polygon in h_polygons.iter().chain(i_polygons.iter()) {
        assert!(polygon.len() >= 4);
    }
}

#[test]
fn options_accessor_returns_current_values() {
    let options = DigitOptions { width: 10, height: 20, gap: 1, thickness: 2, slant: 0 };
    let cell = DigitDisplay::new(options);
    assert_eq!(*cell.options(), options);
}
