use segdisplay::geometry::geometry;
use segdisplay::geometry::Coord;
use segdisplay::geometry::Mirror;
use segdisplay::DrawingOptions;
use segdisplay::Point;
use segdisplay::Segment;

const ALL_SEGMENTS: [Segment; 17] = [
    Segment::A1,
    Segment::A2,
    Segment::B,
    Segment::C,
    Segment::D1,
    Segment::D2,
    Segment::E,
    Segment::F,
    Segment::G1,
    Segment::G2,
    Segment::H,
    Segment::I,
    Segment::J,
    Segment::K,
    Segment::L,
    Segment::M,
    Segment::DP,
];

fn value(c: &Coord) -> f64 {
    (c.units as f64 + c.root_units as f64 * 2f64.sqrt()) / 4.0
}

#[test]
fn every_segment_has_an_outline_except_the_decimal_point() {
    let options = DrawingOptions::default();
    for s in ALL_SEGMENTS {
        let outline = geometry(s, &options);
        if s == Segment::DP {
            assert!(outline.is_empty());
        } else {
            assert!(outline.len() >= 4);
        }
    }
}

#[test]
fn g1_default_coordinates_are_exact() {
    let options = DrawingOptions::default();
    let outline = geometry(Segment::G1, &options);
    assert_eq!(outline.len(), 5);
    // first point: x = -44 + sqrt(2), y = 0
    assert_eq!(outline[0].x, Coord { units: -176, root_units: 4 });
    assert_eq!(outline[0].y, Coord { units: 0, root_units: 0 });
    // third point: the inner corner at the cell center side
    assert_eq!(outline[2].x, Coord { units: -4, root_units: 0 });
    assert_eq!(outline[2].y, Coord { units: -24, root_units: 0 });
}

#[test]
fn g1_default_coordinates_match_reference_floats() {
    let options = DrawingOptions::default();
    let outline = geometry(Segment::G1, &options);
    let expected = [
        (-42.585786, 0.0),
        (-36.585786, -6.0),
        (-1.0, -6.0),
        (-1.0, 6.0),
        (-36.585786, 6.0),
    ];
    assert_eq!(outline.len(), expected.len());
    for (p, (ex, ey)) in outline.iter().zip(expected.iter()) {
        assert!((value(&p.x) - ex).abs() < 1e-5);
        assert!((value(&p.y) - ey).abs() < 1e-5);
    }
}

#[test]
fn a1_default_coordinates_match_reference_floats() {
    let options = DrawingOptions::default();
    let outline = geometry(Segment::A1, &options);
    let expected = [
        (-43.292893, -94.707107),
        (-38.0, -100.0),
        (-1.0, -100.0),
        (-1.0, -88.0),
        (-36.585786, -88.0),
    ];
    assert_eq!(outline.len(), expected.len());
    for (p, (ex, ey)) in outline.iter().zip(expected.iter()) {
        assert!((value(&p.x) - ex).abs() < 1e-5);
        assert!((value(&p.y) - ey).abs() < 1e-5);
    }
}

fn mirrored(p: &Point, flip_x: bool, flip_y: bool) -> Point {
    let mut r = *p;
    if flip_x {
        r.x.units = -r.x.units;
        r.x.root_units = -r.x.root_units;
    }
    if flip_y {
        r.y.units = -r.y.units;
        r.y.root_units = -r.y.root_units;
    }
    r
}

#[test]
fn mirror_pairings_hold_under_default_options() {
    let options = DrawingOptions::default();
    // (derived segment, base representative, flip_x, flip_y)
    let pairings = [
        (Segment::A2, Segment::A1, true, false),
        (Segment::D1, Segment::A1, false, true),
        (Segment::D2, Segment::A1, true, true),
        (Segment::B, Segment::F, true, false),
        (Segment::C, Segment::F, true, true),
        (Segment::E, Segment::F, false, true),
        (Segment::G2, Segment::G1, true, false),
        (Segment::J, Segment::H, true, false),
        (Segment::K, Segment::H, false, true),
        (Segment::M, Segment::H, true, true),
        (Segment::L, Segment::I, false, true),
    ];
    for (derived, rep, flip_x, flip_y) in pairings {
        let d = geometry(derived, &options);
        let r = geometry(rep, &options);
        assert_eq!(d.len(), r.len());
        for (dp, rp) in d.iter().zip(r.iter()) {
            assert_eq!(*dp, mirrored(rp, flip_x, flip_y));
        }
    }
}

#[test]
fn mirror_pairings_hold_under_a_caller_transform() {
    let options = DrawingOptions::default().transform(Mirror::mirror_x());
    let b = geometry(Segment::B, &options);
    let f = geometry(Segment::F, &options);
    assert_eq!(b.len(), f.len());
    for (bp, fp) in b.iter().zip(f.iter()) {
        assert_eq!(*bp, mirrored(fp, true, false));
    }
}

#[test]
fn zero_gap_and_thickness_do_not_crash() {
    let options = DrawingOptions { gap: 0, thickness: 0, ..DrawingOptions::default() };
    for s in ALL_SEGMENTS {
        let outline = geometry(s, &options);
        for p in outline.iter() {
            assert_eq!(p.x.root_units, 0);
            assert_eq!(p.y.root_units, 0);
        }
    }
}

#[test]
fn zero_size_does_not_divide_or_crash() {
    let options = DrawingOptions { width: 0, height: 0, ..DrawingOptions::default() };
    for s in ALL_SEGMENTS {
        let _ = geometry(s, &options);
    }
}

#[test]
fn fully_degenerate_options_collapse_to_the_origin() {
    let options =
        DrawingOptions { width: 0, height: 0, gap: 0, thickness: 0, ..DrawingOptions::default() };
    let origin = Point {
        x: Coord { units: 0, root_units: 0 },
        y: Coord { units: 0, root_units: 0 },
    };
    for s in ALL_SEGMENTS {
        let outline = geometry(s, &options);
        for p in outline.iter() {
            assert_eq!(*p, origin);
        }
    }
}

#[test]
fn transform_composes_reflections() {
    let options = DrawingOptions::default()
        .transform(Mirror::mirror_x())
        .transform(Mirror::mirror_x());
    assert_eq!(options.transform, Mirror::identity());
    let once = DrawingOptions::default().transform(Mirror::mirror_x()).transform(
        Mirror::mirror_y(),
    );
    assert_eq!(once.transform, Mirror::mirror_xy());
}
