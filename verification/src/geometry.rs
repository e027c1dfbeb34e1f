//! Exact vector geometry for the seventeen segments.
//!
//! Every segment outline is derived from one of four canonical base shapes
//! by a mirror transform, so the point tables are written once and shared.
//! A base point is stored in a normalized frame where the cell spans
//! -1..1 on both axes; its coordinates, thickness offsets and gap offsets
//! are all small multiples of one half or of one quarter of the square
//! root of two, so they are kept as small integers in those units and the
//! placed points come out exact: a placed coordinate is
//! `(units + root_units * sqrt(2)) / 4` in cell units.

use vstd::prelude::*;

use crate::bits::Segment;

verus! {

/// A vector with both components counted in halves: `x` stands for
/// `x / 2` in the normalized cell frame.
#[derive(Clone, Copy, Debug, PartialEq, Eq, Structural)]
pub struct HalfVec {
    pub x: i8,
    pub y: i8,
}

/// A gap-offset vector: a rational part counted in halves plus a diagonal
/// part counted in quarters of the square root of two. Component `x`
/// stands for `half_x / 2 + root_x * sqrt(2) / 4`, and likewise for `y`.
/// The diagonal part keeps bevelled corner gaps visually consistent with
/// perpendicular ones.
#[derive(Clone, Copy, Debug, PartialEq, Eq, Structural)]
pub struct GapVec {
    pub half_x: i8,
    pub half_y: i8,
    pub root_x: i8,
    pub root_y: i8,
}

/// One vertex of a segment outline, as three independent contributions
/// that are combined linearly when the point is placed: a unit position
/// in the normalized cell frame, a multiplier on the stroke thickness for
/// corner bevels, and a multiplier on the inter-segment gap.
#[derive(Clone, Copy, Debug, PartialEq, Eq, Structural)]
pub struct SegmentPoint {
    pub pos: HalfVec,
    pub thickness_offset: HalfVec,
    pub gap_offset: GapVec,
}

impl SegmentPoint {
    /// A point at the given position with zero thickness and gap offsets.
    pub fn new(pos: HalfVec) -> (r: Self)
        ensures
            r == (SegmentPoint {
                pos,
                thickness_offset: HalfVec { x: 0, y: 0 },
                gap_offset: GapVec { half_x: 0, half_y: 0, root_x: 0, root_y: 0 },
            }),
    {
        SegmentPoint {
            pos,
            thickness_offset: HalfVec { x: 0, y: 0 },
            gap_offset: GapVec { half_x: 0, half_y: 0, root_x: 0, root_y: 0 },
        }
    }

    /// The same point with the thickness offset replaced.
    pub fn with_thickness_offset(self, thickness_offset: HalfVec) -> (r: Self)
        ensures
            r == (SegmentPoint { thickness_offset, ..self }),
    {
        SegmentPoint { thickness_offset, ..self }
    }

    /// The same point with the gap offset replaced.
    pub fn with_gap_offset(self, gap_offset: GapVec) -> (r: Self)
        ensures
            r == (SegmentPoint { gap_offset, ..self }),
    {
        SegmentPoint { gap_offset, ..self }
    }
}

/// An axis-aligned reflection: each flag negates one axis. Composition of
/// two reflections toggles each flag, so these four transforms form the
/// whole symmetry group the display needs.
#[derive(Clone, Copy, Debug, PartialEq, Eq, Structural)]
pub struct Mirror {
    pub flip_x: bool,
    pub flip_y: bool,
}

impl Mirror {
    /// The identity transform.
    pub fn identity() -> (r: Self)
        ensures
            r == (Mirror { flip_x: false, flip_y: false }),
    {
        Mirror { flip_x: false, flip_y: false }
    }

    /// Reflection across the vertical axis.
    pub fn mirror_x() -> (r: Self)
        ensures
            r == (Mirror { flip_x: true, flip_y: false }),
    {
        Mirror { flip_x: true, flip_y: false }
    }

    /// Reflection across the horizontal axis.
    pub fn mirror_y() -> (r: Self)
        ensures
            r == (Mirror { flip_x: false, flip_y: true }),
    {
        Mirror { flip_x: false, flip_y: true }
    }

    /// Reflection across both axes.
    pub fn mirror_xy() -> (r: Self)
        ensures
            r == (Mirror { flip_x: true, flip_y: true }),
    {
        Mirror { flip_x: true, flip_y: true }
    }

    /// The composition of two reflections: signs multiply, so the flags
    /// toggle.
    pub open spec fn spec_compose(self, other: Mirror) -> Mirror {
        Mirror { flip_x: self.flip_x != other.flip_x, flip_y: self.flip_y != other.flip_y }
    }

    /// Compose this reflection with another.
    pub fn compose(self, other: Mirror) -> (r: Mirror)
        ensures
            r == self.spec_compose(other),
    {
        Mirror { flip_x: self.flip_x != other.flip_x, flip_y: self.flip_y != other.flip_y }
    }
}

/// Per-render drawing parameters: the cell size, the inter-segment gap
/// and the stroke thickness, all in the same integer units, plus a
/// pre-transform composed into a base shape's own symmetry and a
/// post-transform that mirrors the placed outline.
#[derive(Clone, Copy, Debug, PartialEq, Eq, Structural)]
pub struct DrawingOptions {
    pub width: u32,
    pub height: u32,
    pub gap: u32,
    pub thickness: u32,
    pub pos_transform: Mirror,
    pub transform: Mirror,
}

impl Default for DrawingOptions {
    /// A 100 by 200 cell with gap 2 and thickness 12, untransformed.
    fn default() -> (r: Self)
        ensures
            r == (DrawingOptions {
                width: 100,
                height: 200,
                gap: 2,
                thickness: 12,
                pos_transform: Mirror { flip_x: false, flip_y: false },
                transform: Mirror { flip_x: false, flip_y: false },
            }),
    {
        DrawingOptions {
            width: 100,
            height: 200,
            gap: 2,
            thickness: 12,
            pos_transform: Mirror { flip_x: false, flip_y: false },
            transform: Mirror { flip_x: false, flip_y: false },
        }
    }
}

impl DrawingOptions {
    /// These options with the given reflection composed onto the
    /// post-transform.
    pub fn transform(self, mat: Mirror) -> (r: Self)
        ensures
            r == (DrawingOptions { transform: self.transform.spec_compose(mat), ..self }),
    {
        DrawingOptions { transform: self.transform.compose(mat), ..self }
    }
}

/// An exact scalar coordinate: the value `(units + root_units * sqrt(2)) / 4`
/// in the caller's size units.
#[derive(Clone, Copy, Debug, PartialEq, Eq, Structural)]
pub struct Coord {
    pub units: i64,
    pub root_units: i64,
}

/// A placed outline vertex in world coordinates, measured from the cell
/// center.
#[derive(Clone, Copy, Debug, PartialEq, Eq, Structural)]
pub struct Point {
    pub x: Coord,
    pub y: Coord,
}

/// `v` negated when the flag is set.
pub open spec fn flip_val(flip: bool, v: int) -> int {
    if flip {
        -v
    } else {
        v
    }
}

/// The rational part, in quarter units, of one placed coordinate:
/// half the cell size times the unit position, plus the thickness times
/// its offset, reflected by the pre-transform, plus the gap times the
/// rational part of its offset, all reflected by the post-transform.
pub open spec fn place_units(
    size: int,
    pos: int,
    thickness: int,
    toff: int,
    gap: int,
    ghalf: int,
    inner_flip: bool,
    outer_flip: bool,
) -> int {
    flip_val(
        outer_flip,
        flip_val(inner_flip, size * pos + 2 * (thickness * toff)) + 2 * (gap * ghalf),
    )
}

/// The diagonal part, in quarters of the square root of two, of one
/// placed coordinate: the gap times the diagonal part of its offset,
/// reflected by the post-transform.
pub open spec fn place_root_units(gap: int, groot: int, outer_flip: bool) -> int {
    flip_val(outer_flip, gap * groot)
}

/// One base point placed under the given options and per-segment
/// reflection. Both reflections are diagonal, so the two axes are
/// independent: the x component uses the cell width and the y component
/// the cell height.
pub open spec fn spec_place_point(p: SegmentPoint, o: DrawingOptions, seg_mirror: Mirror) -> Point {
    let eff = o.transform.spec_compose(seg_mirror);
    Point {
        x: Coord {
            units: place_units(
                o.width as int,
                p.pos.x as int,
                o.thickness as int,
                p.thickness_offset.x as int,
                o.gap as int,
                p.gap_offset.half_x as int,
                o.pos_transform.flip_x,
                eff.flip_x,
            ) as i64,
            root_units: place_root_units(
                o.gap as int,
                p.gap_offset.root_x as int,
                eff.flip_x,
            ) as i64,
        },
        y: Coord {
            units: place_units(
                o.height as int,
                p.pos.y as int,
                o.thickness as int,
                p.thickness_offset.y as int,
                o.gap as int,
                p.gap_offset.half_y as int,
                o.pos_transform.flip_y,
                eff.flip_y,
            ) as i64,
            root_units: place_root_units(
                o.gap as int,
                p.gap_offset.root_y as int,
                eff.flip_y,
            ) as i64,
        },
    }
}

/// One axis of the placement, in exact integer arithmetic.
fn place_coord(
    size: u32,
    pos: i8,
    thickness: u32,
    toff: i8,
    gap: u32,
    ghalf: i8,
    groot: i8,
    inner_flip: bool,
    outer_flip: bool,
) -> (c: Coord)
    ensures
        c.units == place_units(
            size as int,
            pos as int,
            thickness as int,
            toff as int,
            gap as int,
            ghalf as int,
            inner_flip,
            outer_flip,
        ),
        c.root_units == place_root_units(gap as int, groot as int, outer_flip),
{
    proof {
        assert(-0x80_0000_0000i64 <= (size as i64) * (pos as i64) <= 0x80_0000_0000i64)
            by (nonlinear_arith)
            requires
                0 <= size < 0x1_0000_0000i64,
                -128 <= pos <= 127,
        ;
        assert(-0x80_0000_0000i64 <= (thickness as i64) * (toff as i64) <= 0x80_0000_0000i64)
            by (nonlinear_arith)
            requires
                0 <= thickness < 0x1_0000_0000i64,
                -128 <= toff <= 127,
        ;
        assert(-0x80_0000_0000i64 <= (gap as i64) * (ghalf as i64) <= 0x80_0000_0000i64)
            by (nonlinear_arith)
            requires
                0 <= gap < 0x1_0000_0000i64,
                -128 <= ghalf <= 127,
        ;
        assert(-0x80_0000_0000i64 <= (gap as i64) * (groot as i64) <= 0x80_0000_0000i64)
            by (nonlinear_arith)
            requires
                0 <= gap < 0x1_0000_0000i64,
                -128 <= groot <= 127,
        ;
    }
    let sprod: i64 = (size as i64) * (pos as i64);
    let tprod: i64 = (thickness as i64) * (toff as i64);
    let gprod: i64 = (gap as i64) * (ghalf as i64);
    let base: i64 = sprod + 2 * tprod;
    let flipped: i64 = if inner_flip {
        -base
    } else {
        base
    };
    let with_gap: i64 = flipped + 2 * gprod;
    let units: i64 = if outer_flip {
        -with_gap
    } else {
        with_gap
    };
    let root: i64 = (gap as i64) * (groot as i64);
    let root_units: i64 = if outer_flip {
        -root
    } else {
        root
    };
    proof {
        assert(sprod == (size as int) * (pos as int)) by (nonlinear_arith)
            requires
                sprod == (size as i64) * (pos as i64),
        ;
        assert(tprod == (thickness as int) * (toff as int)) by (nonlinear_arith)
            requires
                tprod == (thickness as i64) * (toff as i64),
        ;
        assert(gprod == (gap as int) * (ghalf as int)) by (nonlinear_arith)
            requires
                gprod == (gap as i64) * (ghalf as i64),
        ;
        assert(root == (gap as int) * (groot as int)) by (nonlinear_arith)
            requires
                root == (gap as i64) * (groot as i64),
        ;
    }
    Coord { units, root_units }
}

/// The long corner stroke in the top-left quadrant: the base shape of
/// segments A1, A2, D1 and D2.
pub open spec fn base_a1() -> Seq<SegmentPoint> {
    seq![
        SegmentPoint {
            pos: HalfVec { x: -2i8, y: -2i8 },
            thickness_offset: HalfVec { x: 1, y: 1 },
            gap_offset: GapVec { half_x: 0, half_y: 0, root_x: 1, root_y: -1i8 },
        },
        SegmentPoint {
            pos: HalfVec { x: -2i8, y: -2i8 },
            thickness_offset: HalfVec { x: 2, y: 0 },
            gap_offset: GapVec { half_x: 0, half_y: 0, root_x: 0, root_y: 0 },
        },
        SegmentPoint {
            pos: HalfVec { x: 0, y: -2i8 },
            thickness_offset: HalfVec { x: 0, y: 0 },
            gap_offset: GapVec { half_x: -1i8, half_y: 0, root_x: 0, root_y: 0 },
        },
        SegmentPoint {
            pos: HalfVec { x: 0, y: -2i8 },
            thickness_offset: HalfVec { x: 0, y: 2 },
            gap_offset: GapVec { half_x: -1i8, half_y: 0, root_x: 0, root_y: 0 },
        },
        SegmentPoint {
            pos: HalfVec { x: -2i8, y: -2i8 },
            thickness_offset: HalfVec { x: 2, y: 2 },
            gap_offset: GapVec { half_x: 0, half_y: 0, root_x: 2, root_y: 0 },
        },
    ]
}

/// The long straight stroke along the upper left side: the base shape of
/// segments B, C, E and F.
pub open spec fn base_f() -> Seq<SegmentPoint> {
    seq![
        SegmentPoint {
            pos: HalfVec { x: -2i8, y: -2i8 },
            thickness_offset: HalfVec { x: 1, y: 1 },
            gap_offset: GapVec { half_x: 0, half_y: 0, root_x: -1i8, root_y: 1 },
        },
        SegmentPoint {
            pos: HalfVec { x: -2i8, y: -2i8 },
            thickness_offset: HalfVec { x: 2, y: 2 },
            gap_offset: GapVec { half_x: 0, half_y: 0, root_x: 0, root_y: 2 },
        },
        SegmentPoint {
            pos: HalfVec { x: -2i8, y: 0 },
            thickness_offset: HalfVec { x: 2, y: -1i8 },
            gap_offset: GapVec { half_x: 0, half_y: 0, root_x: 0, root_y: -2i8 },
        },
        SegmentPoint {
            pos: HalfVec { x: -2i8, y: 0 },
            thickness_offset: HalfVec { x: 1, y: 0 },
            gap_offset: GapVec { half_x: -1i8, half_y: -1i8, root_x: 0, root_y: 0 },
        },
        SegmentPoint {
            pos: HalfVec { x: -2i8, y: 0 },
            thickness_offset: HalfVec { x: 0, y: -1i8 },
            gap_offset: GapVec { half_x: 0, half_y: 0, root_x: 0, root_y: 0 },
        },
        SegmentPoint {
            pos: HalfVec { x: -2i8, y: -2i8 },
            thickness_offset: HalfVec { x: 0, y: 2 },
            gap_offset: GapVec { half_x: 0, half_y: 0, root_x: 0, root_y: 0 },
        },
    ]
}

/// The short center bar on the left: the base shape of segments G1
/// and G2.
pub open spec fn base_g1() -> Seq<SegmentPoint> {
    seq![
        SegmentPoint {
            pos: HalfVec { x: -2i8, y: 0 },
            thickness_offset: HalfVec { x: 1, y: 0 },
            gap_offset: GapVec { half_x: 0, half_y: 0, root_x: 2, root_y: 0 },
        },
        SegmentPoint {
            pos: HalfVec { x: -2i8, y: 0 },
            thickness_offset: HalfVec { x: 2, y: -1i8 },
            gap_offset: GapVec { half_x: 0, half_y: 0, root_x: 2, root_y: 0 },
        },
        SegmentPoint {
            pos: HalfVec { x: 0, y: 0 },
            thickness_offset: HalfVec { x: 0, y: -1i8 },
            gap_offset: GapVec { half_x: -1i8, half_y: 0, root_x: 0, root_y: 0 },
        },
        SegmentPoint {
            pos: HalfVec { x: 0, y: 0 },
            thickness_offset: HalfVec { x: 0, y: 1 },
            gap_offset: GapVec { half_x: -1i8, half_y: 0, root_x: 0, root_y: 0 },
        },
        SegmentPoint {
            pos: HalfVec { x: -2i8, y: 0 },
            thickness_offset: HalfVec { x: 2, y: 1 },
            gap_offset: GapVec { half_x: 0, half_y: 0, root_x: 2, root_y: 0 },
        },
    ]
}

/// The diagonal center spoke toward the top-left corner: the base shape
/// of segments H, J, K and M.
pub open spec fn base_h() -> Seq<SegmentPoint> {
    seq![
        SegmentPoint {
            pos: HalfVec { x: -2i8, y: -2i8 },
            thickness_offset: HalfVec { x: 2, y: 2 },
            gap_offset: GapVec { half_x: 2, half_y: 2, root_x: 0, root_y: 0 },
        },
        SegmentPoint {
            pos: HalfVec { x: -2i8, y: -2i8 },
            thickness_offset: HalfVec { x: 3, y: 2 },
            gap_offset: GapVec { half_x: 2, half_y: 2, root_x: 0, root_y: 0 },
        },
        SegmentPoint {
            pos: HalfVec { x: 0, y: -1i8 },
            thickness_offset: HalfVec { x: -1i8, y: 0 },
            gap_offset: GapVec { half_x: -2i8, half_y: 0, root_x: 0, root_y: 0 },
        },
        SegmentPoint {
            pos: HalfVec { x: 0, y: 0 },
            thickness_offset: HalfVec { x: -1i8, y: -1i8 },
            gap_offset: GapVec { half_x: -2i8, half_y: -2i8, root_x: 0, root_y: 0 },
        },
        SegmentPoint {
            pos: HalfVec { x: 0, y: 0 },
            thickness_offset: HalfVec { x: -2i8, y: -1i8 },
            gap_offset: GapVec { half_x: -2i8, half_y: -2i8, root_x: 0, root_y: 0 },
        },
        SegmentPoint {
            pos: HalfVec { x: -2i8, y: -1i8 },
            thickness_offset: HalfVec { x: 2, y: 0 },
            gap_offset: GapVec { half_x: 2, half_y: 0, root_x: 0, root_y: 0 },
        },
    ]
}

/// The vertical center spoke above the middle: the base shape of
/// segments I and L.
pub open spec fn base_i() -> Seq<SegmentPoint> {
    seq![
        SegmentPoint {
            pos: HalfVec { x: 0, y: -2i8 },
            thickness_offset: HalfVec { x: -1i8, y: 2 },
            gap_offset: GapVec { half_x: 0, half_y: 2, root_x: 0, root_y: 0 },
        },
        SegmentPoint {
            pos: HalfVec { x: 0, y: -2i8 },
            thickness_offset: HalfVec { x: 1, y: 2 },
            gap_offset: GapVec { half_x: 0, half_y: 2, root_x: 0, root_y: 0 },
        },
        SegmentPoint {
            pos: HalfVec { x: 0, y: 0 },
            thickness_offset: HalfVec { x: 1, y: -1i8 },
            gap_offset: GapVec { half_x: 0, half_y: -2i8, root_x: 0, root_y: 0 },
        },
        SegmentPoint {
            pos: HalfVec { x: 0, y: 0 },
            thickness_offset: HalfVec { x: -1i8, y: -1i8 },
            gap_offset: GapVec { half_x: 0, half_y: -2i8, root_x: 0, root_y: 0 },
        },
    ]
}

/// The base shape a segment's outline is derived from. The decimal point
/// has no shape yet: its outline is empty, a documented gap.
pub open spec fn base_points(s: Segment) -> Seq<SegmentPoint> {
    match s {
        Segment::A1 | Segment::A2 | Segment::D1 | Segment::D2 => base_a1(),
        Segment::B | Segment::C | Segment::E | Segment::F => base_f(),
        Segment::G1 | Segment::G2 => base_g1(),
        Segment::H | Segment::J | Segment::K | Segment::M => base_h(),
        Segment::I | Segment::L => base_i(),
        Segment::DP => Seq::empty(),
    }
}

/// The reflection that derives a segment's outline from its base shape.
pub open spec fn segment_mirror(s: Segment) -> Mirror {
    match s {
        Segment::A1 | Segment::F | Segment::G1 | Segment::H | Segment::I | Segment::DP => Mirror {
            flip_x: false,
            flip_y: false,
        },
        Segment::A2 | Segment::B | Segment::G2 | Segment::J => Mirror {
            flip_x: true,
            flip_y: false,
        },
        Segment::D1 | Segment::E | Segment::K | Segment::L => Mirror {
            flip_x: false,
            flip_y: true,
        },
        Segment::C | Segment::D2 | Segment::M => Mirror { flip_x: true, flip_y: true },
    }
}

/// Place one base point under the given options and per-segment
/// reflection.
pub fn place_point(p: &SegmentPoint, o: &DrawingOptions, seg_mirror: Mirror) -> (r: Point)
    ensures
        r == spec_place_point(*p, *o, seg_mirror),
{
    let eff = o.transform.compose(seg_mirror);
    let x = place_coord(
        o.width,
        p.pos.x,
        o.thickness,
        p.thickness_offset.x,
        o.gap,
        p.gap_offset.half_x,
        p.gap_offset.root_x,
        o.pos_transform.flip_x,
        eff.flip_x,
    );
    let y = place_coord(
        o.height,
        p.pos.y,
        o.thickness,
        p.thickness_offset.y,
        o.gap,
        p.gap_offset.half_y,
        p.gap_offset.root_y,
        o.pos_transform.flip_y,
        eff.flip_y,
    );
    Point { x, y }
}

/// Build one segment point from its integer offsets.
fn make_point(
    px: i8,
    py: i8,
    tx: i8,
    ty: i8,
    ghx: i8,
    ghy: i8,
    grx: i8,
    gry: i8,
) -> (r: SegmentPoint)
    ensures
        r == (SegmentPoint {
            pos: HalfVec { x: px, y: py },
            thickness_offset: HalfVec { x: tx, y: ty },
            gap_offset: GapVec { half_x: ghx, half_y: ghy, root_x: grx, root_y: gry },
        }),
{
    SegmentPoint::new(HalfVec { x: px, y: py })
        .with_thickness_offset(HalfVec { x: tx, y: ty })
        .with_gap_offset(GapVec { half_x: ghx, half_y: ghy, root_x: grx, root_y: gry })
}

/// The base point list of the given segment, as a vector.
pub fn segment_base_points(s: Segment) -> (v: Vec<SegmentPoint>)
    ensures
        v@ == base_points(s),
{
    let mut v: Vec<SegmentPoint> = Vec::new();
    match s {
        Segment::A1 | Segment::A2 | Segment::D1 | Segment::D2 => {
            v.push(make_point(-2, -2, 1, 1, 0, 0, 1, -1));
            v.push(make_point(-2, -2, 2, 0, 0, 0, 0, 0));
            v.push(make_point(0, -2, 0, 0, -1, 0, 0, 0));
            v.push(make_point(0, -2, 0, 2, -1, 0, 0, 0));
            v.push(make_point(-2, -2, 2, 2, 0, 0, 2, 0));
            proof {
                assert(v@ =~= base_a1());
            }
        },
        Segment::B | Segment::C | Segment::E | Segment::F => {
            v.push(make_point(-2, -2, 1, 1, 0, 0, -1, 1));
            v.push(make_point(-2, -2, 2, 2, 0, 0, 0, 2));
            v.push(make_point(-2, 0, 2, -1, 0, 0, 0, -2));
            v.push(make_point(-2, 0, 1, 0, -1, -1, 0, 0));
            v.push(make_point(-2, 0, 0, -1, 0, 0, 0, 0));
            v.push(make_point(-2, -2, 0, 2, 0, 0, 0, 0));
            proof {
                assert(v@ =~= base_f());
            }
        },
        Segment::G1 | Segment::G2 => {
            v.push(make_point(-2, 0, 1, 0, 0, 0, 2, 0));
            v.push(make_point(-2, 0, 2, -1, 0, 0, 2, 0));
            v.push(make_point(0, 0, 0, -1, -1, 0, 0, 0));
            v.push(make_point(0, 0, 0, 1, -1, 0, 0, 0));
            v.push(make_point(-2, 0, 2, 1, 0, 0, 2, 0));
            proof {
                assert(v@ =~= base_g1());
            }
        },
        Segment::H | Segment::J | Segment::K | Segment::M => {
            v.push(make_point(-2, -2, 2, 2, 2, 2, 0, 0));
            v.push(make_point(-2, -2, 3, 2, 2, 2, 0, 0));
            v.push(make_point(0, -1, -1, 0, -2, 0, 0, 0));
            v.push(make_point(0, 0, -1, -1, -2, -2, 0, 0));
            v.push(make_point(0, 0, -2, -1, -2, -2, 0, 0));
            v.push(make_point(-2, -1, 2, 0, 2, 0, 0, 0));
            proof {
                assert(v@ =~= base_h());
            }
        },
        Segment::I | Segment::L => {
            v.push(make_point(0, -2, -1, 2, 0, 2, 0, 0));
            v.push(make_point(0, -2, 1, 2, 0, 2, 0, 0));
            v.push(make_point(0, 0, 1, -1, 0, -2, 0, 0));
            v.push(make_point(0, 0, -1, -1, 0, -2, 0, 0));
            proof {
                assert(v@ =~= base_i());
            }
        },
        Segment::DP => {
            proof {
                assert(v@ =~= Seq::<SegmentPoint>::empty());
            }
        },
    }
    v
}

/// The reflection that derives the given segment's outline from its base
/// shape, as a value.
pub fn mirror_of(s: Segment) -> (m: Mirror)
    ensures
        m == segment_mirror(s),
{
    match s {
        Segment::A1 | Segment::F | Segment::G1 | Segment::H | Segment::I | Segment::DP => Mirror {
            flip_x: false,
            flip_y: false,
        },
        Segment::A2 | Segment::B | Segment::G2 | Segment::J => Mirror {
            flip_x: true,
            flip_y: false,
        },
        Segment::D1 | Segment::E | Segment::K | Segment::L => Mirror {
            flip_x: false,
            flip_y: true,
        },
        Segment::C | Segment::D2 | Segment::M => Mirror { flip_x: true, flip_y: true },
    }
}

/// The exact outline of one segment under the given options: each base
/// point of the segment's base shape, placed under the segment's own
/// reflection composed with the caller's transforms, in list order. The
/// caller closes the polygon.
pub open spec fn spec_geometry(s: Segment, o: DrawingOptions) -> Seq<Point> {
    base_points(s).map(|i: int, p: SegmentPoint| spec_place_point(p, o, segment_mirror(s)))
}

/// Compute the filled outline of one segment under the given options.
///
/// Every segment yields a closed polygon of at least four vertices,
/// except the decimal point, whose outline is empty: its shape is a
/// documented gap.
pub fn geometry(segment: Segment, options: &DrawingOptions) -> (r: Vec<Point>)
    ensures
        r@ == spec_geometry(segment, *options),
        segment != Segment::DP ==> r@.len() >= 4,
        segment == Segment::DP ==> r@.len() == 0,
{
    let base = segment_base_points(segment);
    let m = mirror_of(segment);
    let mut r: Vec<Point> = Vec::new();
    let mut i: usize = 0;
    while i < base.len()
        invariant
            base@ == base_points(segment),
            m == segment_mirror(segment),
            i <= base.len(),
            r@.len() == i,
            forall|j: int|
                0 <= j < i ==> r@[j] == spec_place_point(base@[j], *options, m),
        decreases base.len() - i,
    {
        let p = place_point(&base[i], options, m);
        r.push(p);
        i = i + 1;
    }
    proof {
        assert(r@ =~= spec_geometry(segment, *options));
    }
    r
}

/// The segment whose outline uses a given segment's base shape with the
/// identity reflection.
pub open spec fn base_representative(s: Segment) -> Segment {
    match s {
        Segment::A1 | Segment::A2 | Segment::D1 | Segment::D2 => Segment::A1,
        Segment::B | Segment::C | Segment::E | Segment::F => Segment::F,
        Segment::G1 | Segment::G2 => Segment::G1,
        Segment::H | Segment::J | Segment::K | Segment::M => Segment::H,
        Segment::I | Segment::L => Segment::I,
        Segment::DP => Segment::DP,
    }
}

/// Whether point `b` is point `a` reflected by `m`: every flipped axis
/// negates both the rational and the diagonal part of that coordinate.
pub open spec fn point_mirrored(m: Mirror, a: Point, b: Point) -> bool {
    &&& if m.flip_x {
        b.x.units == -(a.x.units as int) && b.x.root_units == -(a.x.root_units as int)
    } else {
        b.x == a.x
    }
    &&& if m.flip_y {
        b.y.units == -(a.y.units as int) && b.y.root_units == -(a.y.root_units as int)
    } else {
        b.y == a.y
    }
}

/// The placed rational part of any coordinate stays far inside the range
/// of a 64-bit integer: the inputs are a 32-bit size and 8-bit offsets.
proof fn lemma_place_units_in_range(
    size: int,
    pos: int,
    thickness: int,
    toff: int,
    gap: int,
    ghalf: int,
    inner_flip: bool,
    outer_flip: bool,
)
    requires
        0 <= size < 0x1_0000_0000,
        -128 <= pos <= 127,
        0 <= thickness < 0x1_0000_0000,
        -128 <= toff <= 127,
        0 <= gap < 0x1_0000_0000,
        -128 <= ghalf <= 127,
    ensures
        -0x1000_0000_0000 <= place_units(size, pos, thickness, toff, gap, ghalf, inner_flip, outer_flip)
            <= 0x1000_0000_0000,
{
    assert(-0x80_0000_0000 <= size * pos <= 0x80_0000_0000) by (nonlinear_arith)
        requires
            0 <= size < 0x1_0000_0000,
            -128 <= pos <= 127,
    ;
    assert(-0x80_0000_0000 <= thickness * toff <= 0x80_0000_0000) by (nonlinear_arith)
        requires
            0 <= thickness < 0x1_0000_0000,
            -128 <= toff <= 127,
    ;
    assert(-0x80_0000_0000 <= gap * ghalf <= 0x80_0000_0000) by (nonlinear_arith)
        requires
            0 <= gap < 0x1_0000_0000,
            -128 <= ghalf <= 127,
    ;
}

/// The placed diagonal part of any coordinate stays far inside the range
/// of a 64-bit integer.
proof fn lemma_place_root_units_in_range(gap: int, groot: int, outer_flip: bool)
    requires
        0 <= gap < 0x1_0000_0000,
        -128 <= groot <= 127,
    ensures
        -0x1000_0000_0000 <= place_root_units(gap, groot, outer_flip) <= 0x1000_0000_0000,
{
    assert(-0x80_0000_0000 <= gap * groot <= 0x80_0000_0000) by (nonlinear_arith)
        requires
            0 <= gap < 0x1_0000_0000,
            -128 <= groot <= 127,
    ;
}

/// Placing a point under a reflection gives the same point placed under
/// the identity, reflected: the transforms are diagonal, so the extra
/// reflection only flips the sign of the affected coordinates.
pub proof fn lemma_place_point_mirror(p: SegmentPoint, o: DrawingOptions, m: Mirror)
    ensures
        point_mirrored(
            m,
            spec_place_point(p, o, Mirror { flip_x: false, flip_y: false }),
            spec_place_point(p, o, m),
        ),
{
    let t = o.transform;
    lemma_place_units_in_range(
        o.width as int,
        p.pos.x as int,
        o.thickness as int,
        p.thickness_offset.x as int,
        o.gap as int,
        p.gap_offset.half_x as int,
        o.pos_transform.flip_x,
        t.flip_x,
    );
    lemma_place_units_in_range(
        o.width as int,
        p.pos.x as int,
        o.thickness as int,
        p.thickness_offset.x as int,
        o.gap as int,
        p.gap_offset.half_x as int,
        o.pos_transform.flip_x,
        t.spec_compose(m).flip_x,
    );
    lemma_place_units_in_range(
        o.height as int,
        p.pos.y as int,
        o.thickness as int,
        p.thickness_offset.y as int,
        o.gap as int,
        p.gap_offset.half_y as int,
        o.pos_transform.flip_y,
        t.flip_y,
    );
    lemma_place_units_in_range(
        o.height as int,
        p.pos.y as int,
        o.thickness as int,
        p.thickness_offset.y as int,
        o.gap as int,
        p.gap_offset.half_y as int,
        o.pos_transform.flip_y,
        t.spec_compose(m).flip_y,
    );
    lemma_place_root_units_in_range(o.gap as int, p.gap_offset.root_x as int, t.flip_x);
    lemma_place_root_units_in_range(
        o.gap as int,
        p.gap_offset.root_x as int,
        t.spec_compose(m).flip_x,
    );
    lemma_place_root_units_in_range(o.gap as int, p.gap_offset.root_y as int, t.flip_y);
    lemma_place_root_units_in_range(
        o.gap as int,
        p.gap_offset.root_y as int,
        t.spec_compose(m).flip_y,
    );
}

/// Every segment's outline is its base representative's outline
/// reflected by the segment's own mirror, under identical options: for
/// example, segment B equals segment F reflected across the vertical
/// axis, and segment C equals segment F reflected across both axes.
pub proof fn lemma_geometry_mirror(s: Segment, o: DrawingOptions)
    ensures
        spec_geometry(s, o).len() == spec_geometry(base_representative(s), o).len(),
        forall|j: int|
            0 <= j < spec_geometry(s, o).len() ==> point_mirrored(
                segment_mirror(s),
                spec_geometry(base_representative(s), o)[j],
                #[trigger] spec_geometry(s, o)[j],
            ),
{
    let rep = base_representative(s);
    assert(base_points(rep) == base_points(s));
    assert(segment_mirror(rep) == (Mirror { flip_x: false, flip_y: false }));
    assert forall|j: int| 0 <= j < spec_geometry(s, o).len() implies point_mirrored(
        segment_mirror(s),
        spec_geometry(rep, o)[j],
        #[trigger] spec_geometry(s, o)[j],
    ) by {
        lemma_place_point_mirror(base_points(s)[j], o, segment_mirror(s));
    }
}

/// When the cell size, the gap and the thickness are all zero, every
/// placed point collapses to the cell center: the outline degenerates to
/// one point repeated.
pub proof fn lemma_geometry_degenerate(s: Segment, o: DrawingOptions)
    requires
        o.width == 0,
        o.height == 0,
        o.gap == 0,
        o.thickness == 0,
    ensures
        forall|j: int|
            0 <= j < spec_geometry(s, o).len() ==> #[trigger] spec_geometry(s, o)[j] == (Point {
                x: Coord { units: 0, root_units: 0 },
                y: Coord { units: 0, root_units: 0 },
            }),
{
    assert forall|j: int| 0 <= j < spec_geometry(s, o).len() implies #[trigger] spec_geometry(
        s,
        o,
    )[j] == (Point {
        x: Coord { units: 0, root_units: 0 },
        y: Coord { units: 0, root_units: 0 },
    }) by {
        let p = base_points(s)[j];
        assert(0 * (p.pos.x as int) == 0) by (nonlinear_arith);
        assert(0 * (p.pos.y as int) == 0) by (nonlinear_arith);
        assert(0 * (p.thickness_offset.x as int) == 0) by (nonlinear_arith);
        assert(0 * (p.thickness_offset.y as int) == 0) by (nonlinear_arith);
        assert(0 * (p.gap_offset.half_x as int) == 0) by (nonlinear_arith);
        assert(0 * (p.gap_offset.half_y as int) == 0) by (nonlinear_arith);
        assert(0 * (p.gap_offset.root_x as int) == 0) by (nonlinear_arith);
        assert(0 * (p.gap_offset.root_y as int) == 0) by (nonlinear_arith);
    }
}

} // verus!

