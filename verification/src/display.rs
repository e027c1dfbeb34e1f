//! A renderable character cell with a per-segment geometry cache.
//!
//! The cell owns its drawing parameters and one cache slot per segment.
//! Changing the parameters invalidates the whole cache before the new
//! values take effect, so a later render can never reuse an outline that
//! was computed under old parameters; the cache invariant below makes
//! that explicit: whatever a slot holds is the outline of its segment
//! under the *current* parameters.

use vstd::prelude::*;

use crate::bits::Segment;
use crate::bits::SegmentBits;
use crate::geometry::geometry;
use crate::geometry::spec_geometry;
use crate::geometry::DrawingOptions;
use crate::geometry::Mirror;
use crate::geometry::Point;

verus! {

/// Per-cell display parameters: the cell size, the inter-segment gap and
/// the stroke thickness, in the same integer units the geometry uses.
/// `slant` is reserved for future use and does not affect geometry.
#[derive(Clone, Copy, Debug, PartialEq, Eq, Structural)]
pub struct DigitOptions {
    pub width: u32,
    pub height: u32,
    pub gap: u32,
    pub thickness: u32,
    pub slant: i32,
}

impl DigitOptions {
    /// The stock cell: 400 by 800 units with thickness 57 and gap 13.
    pub fn new() -> (r: Self)
        ensures
            r == (DigitOptions { width: 400, height: 800, gap: 13, thickness: 57, slant: 0 }),
    {
        DigitOptions { width: 400, height: 800, gap: 13, thickness: 57, slant: 0 }
    }
}

impl Default for DigitOptions {
    /// The default cell parameters are the stock ones.
    fn default() -> (r: Self)
        ensures
            r == (DigitOptions { width: 400, height: 800, gap: 13, thickness: 57, slant: 0 }),
    {
        DigitOptions::new()
    }
}

/// The drawing options a cell's parameters stand for: same size, gap and
/// thickness, with no extra transform.
pub open spec fn spec_drawing_options(o: DigitOptions) -> DrawingOptions {
    DrawingOptions {
        width: o.width,
        height: o.height,
        gap: o.gap,
        thickness: o.thickness,
        pos_transform: Mirror { flip_x: false, flip_y: false },
        transform: Mirror { flip_x: false, flip_y: false },
    }
}

/// Build the drawing options for a cell's parameters.
fn drawing_options(o: &DigitOptions) -> (r: DrawingOptions)
    ensures
        r == spec_drawing_options(*o),
{
    DrawingOptions {
        width: o.width,
        height: o.height,
        gap: o.gap,
        thickness: o.thickness,
        pos_transform: Mirror::identity(),
        transform: Mirror::identity(),
    }
}

/// The outlines a render of the first `n` segments yields: for each lit
/// segment, in ordinal order, the segment's outline under the given
/// options; unlit segments yield nothing.
pub open spec fn spec_rendered(segments: SegmentBits, o: DrawingOptions, n: nat) -> Seq<Seq<Point>>
    decreases n,
{
    if n == 0 {
        Seq::empty()
    } else {
        let prev = spec_rendered(segments, o, (n - 1) as nat);
        let seg = Segment::from_ordinal((n - 1) as u32);
        if segments.spec_contains(seg) {
            prev.push(spec_geometry(seg, o))
        } else {
            prev
        }
    }
}

/// One display cell: its current parameters and one geometry cache slot
/// per segment.
pub struct DigitDisplay {
    options: DigitOptions,
    cache: Vec<Option<Vec<Point>>>,
}

impl DigitDisplay {
    /// The cell's current parameters.
    pub closed spec fn spec_options(self) -> DigitOptions {
        self.options
    }

    /// The cache holds one slot per segment, and an occupied slot holds
    /// exactly the outline of its segment under the current parameters.
    pub closed spec fn wf(self) -> bool {
        &&& self.cache@.len() == 17
        &&& forall|i: int|
            0 <= i < 17 ==> ((#[trigger] self.cache@[i]) matches Some(g) ==> g@ == spec_geometry(
                Segment::from_ordinal(i as u32),
                spec_drawing_options(self.options),
            ))
    }

    /// Whether every cache slot is empty.
    pub closed spec fn cache_empty(self) -> bool {
        forall|i: int| 0 <= i < 17 ==> (#[trigger] self.cache@[i]) is None
    }

    /// A cell with the given parameters and an empty geometry cache.
    pub fn new(options: DigitOptions) -> (r: Self)
        ensures
            r.wf(),
            r.cache_empty(),
            r.spec_options() == options,
    {
        DigitDisplay { options, cache: empty_cache() }
    }

    /// A read-only view of the cell's parameters.
    pub fn options(&self) -> (r: &DigitOptions)
        ensures
            *r == self.spec_options(),
    {
        &self.options
    }

    /// Replace the cell's parameters, invalidating the whole geometry
    /// cache first so no outline computed under the old parameters can
    /// survive the change.
    pub fn set_options(&mut self, options: DigitOptions)
        requires
            old(self).wf(),
        ensures
            final(self).wf(),
            final(self).cache_empty(),
            final(self).spec_options() == options,
    {
        self.cache = empty_cache();
        self.options = options;
    }

    /// Apply a mutator to the cell's parameters, invalidating the whole
    /// geometry cache before the mutation takes effect.
    pub fn modify_options<F: FnOnce(DigitOptions) -> DigitOptions>(&mut self, modifier: F)
        requires
            old(self).wf(),
            modifier.requires((old(self).spec_options(),)),
        ensures
            final(self).wf(),
            final(self).cache_empty(),
            modifier.ensures((old(self).spec_options(),), final(self).spec_options()),
    {
        self.cache = empty_cache();
        let options = modifier(self.options);
        self.options = options;
    }

    /// The outline of one segment under the current parameters, from the
    /// cache when its slot is occupied, computed and cached otherwise.
    fn segment_outline(&mut self, seg: Segment) -> (r: Vec<Point>)
        requires
            old(self).wf(),
        ensures
            final(self).wf(),
            final(self).spec_options() == old(self).spec_options(),
            r@ == spec_geometry(seg, spec_drawing_options(old(self).spec_options())),
    {
        let idx = seg.index() as usize;
        proof {
            crate::bits::lemma_ordinal_roundtrip(seg);
        }
        match &self.cache[idx] {
            Some(g) => {
                return copy_points(g);
            },
            None => {},
        }
        let opts = drawing_options(&self.options);
        let g = geometry(seg, &opts);
        let r = copy_points(&g);
        self.cache.set(idx, Some(g));
        r
    }

    /// Render the cell: the outline of every lit segment, in ordinal
    /// order, under the current parameters.
    ///
    /// A blank mask short-circuits to nothing without touching the
    /// cache, and so does a draw target whose size differs from the
    /// configured cell size: that is a transient pre-resize state, not
    /// an error.
    pub fn render(&mut self, segments: SegmentBits, target_width: u32, target_height: u32) -> (r:
        Vec<Vec<Point>>)
        requires
            old(self).wf(),
        ensures
            final(self).wf(),
            final(self).spec_options() == old(self).spec_options(),
            segments@ == 0 || target_width != old(self).spec_options().width || target_height
                != old(self).spec_options().height ==> r@.len() == 0 && *final(self) == *old(self),
            segments@ != 0 && target_width == old(self).spec_options().width && target_height
                == old(self).spec_options().height ==> {
                let shown = spec_rendered(
                    segments,
                    spec_drawing_options(old(self).spec_options()),
                    17,
                );
                r@.len() == shown.len() && (forall|i: int|
                    0 <= i < r@.len() ==> (#[trigger] r@[i])@ == shown[i])
            },
    {
        if segments.is_empty() || target_width != self.options.width || target_height
            != self.options.height {
            return Vec::new();
        }
        let ghost o = spec_drawing_options(self.options);
        let mut r: Vec<Vec<Point>> = Vec::new();
        let mut i: u32 = 0;
        while i < 17
            invariant
                self.wf(),
                self.spec_options() == old(self).spec_options(),
                o == spec_drawing_options(old(self).spec_options()),
                i <= 17,
                r@.len() == spec_rendered(segments, o, i as nat).len(),
                forall|j: int|
                    0 <= j < r@.len() ==> (#[trigger] r@[j])@ == spec_rendered(
                        segments,
                        o,
                        i as nat,
                    )[j],
            decreases 17 - i,
        {
            let seg = Segment::from_index(i).unwrap();
            if segments.contains(seg) {
                let outline = self.segment_outline(seg);
                r.push(outline);
            }
            proof {
                let prev = spec_rendered(segments, o, i as nat);
                let next = spec_rendered(segments, o, (i + 1) as nat);
                assert(next == if segments.spec_contains(seg) {
                    prev.push(spec_geometry(seg, o))
                } else {
                    prev
                });
            }
            i = i + 1;
        }
        r
    }
}

/// A fresh cache with one empty slot per segment.
fn empty_cache() -> (v: Vec<Option<Vec<Point>>>)
    ensures
        v@.len() == 17,
        forall|i: int| 0 <= i < 17 ==> (#[trigger] v@[i]) is None,
{
    let mut v: Vec<Option<Vec<Point>>> = Vec::new();
    let mut i: u32 = 0;
    while i < 17
        invariant
            i <= 17,
            v@.len() == i,
            forall|j: int| 0 <= j < i ==> (#[trigger] v@[j]) is None,
        decreases 17 - i,
    {
        v.push(None);
        i = i + 1;
    }
    v
}

/// Copy a list of placed points.
fn copy_points(v: &Vec<Point>) -> (r: Vec<Point>)
    ensures
        r@ == v@,
{
    let mut r: Vec<Point> = Vec::new();
    let mut i: usize = 0;
    while i < v.len()
        invariant
            i <= v@.len(),
            r@.len() == i,
            forall|j: int| 0 <= j < i ==> #[trigger] r@[j] == v@[j],
        decreases v@.len() - i,
    {
        r.push(v[i]);
        i = i + 1;
    }
    proof {
        assert(r@ =~= v@);
    }
    r
}

/// What a render yields depends on the lit-segment mask and the cell
/// parameters alone, never on the state of the geometry cache: two cells
/// with the same parameters, asked for the same mask, yield the same
/// outlines, and so do two successive renders of one unchanged cell.
pub proof fn lemma_render_repeatable(a: DigitDisplay, b: DigitDisplay, segments: SegmentBits)
    requires
        a.spec_options() == b.spec_options(),
    ensures
        spec_rendered(segments, spec_drawing_options(a.spec_options()), 17) == spec_rendered(
            segments,
            spec_drawing_options(b.spec_options()),
            17,
        ),
{
}

} // verus!

