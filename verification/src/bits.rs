//! Segments of a seventeen-segment character cell and masks over them.

use vstd::prelude::*;

verus! {

/// The number of independently lit segments in one character cell.
pub const SEGMENT_COUNT: usize = 17;

/// One independently lit stroke of the display cell.
///
/// The ordinal of each variant is its bit position in a [`SegmentBits`]
/// mask; the numbering is fixed, since masks are stored as raw integers
/// in font tables. A1/A2 are the top corners, B/C the right side, D1/D2
/// the bottom corners, E/F the left side, G1/G2 the horizontal center
/// bars, H/I/J/K/L/M the diagonal and vertical center spokes, and DP the
/// decimal point.
#[derive(Clone, Copy, Debug, PartialEq, Eq, Structural)]
pub enum Segment {
    A1,
    A2,
    B,
    C,
    D1,
    D2,
    E,
    F,
    G1,
    G2,
    H,
    I,
    J,
    K,
    L,
    M,
    DP,
}

impl Segment {
    /// The fixed bit position of this segment, always below
    /// [`SEGMENT_COUNT`].
    pub open spec fn ordinal(self) -> u32 {
        match self {
            Segment::A1 => 0,
            Segment::A2 => 1,
            Segment::B => 2,
            Segment::C => 3,
            Segment::D1 => 4,
            Segment::D2 => 5,
            Segment::E => 6,
            Segment::F => 7,
            Segment::G1 => 8,
            Segment::G2 => 9,
            Segment::H => 10,
            Segment::I => 11,
            Segment::J => 12,
            Segment::K => 13,
            Segment::L => 14,
            Segment::M => 15,
            Segment::DP => 16,
        }
    }

    /// The segment with the given ordinal; total in spec, so indices
    /// at or above [`SEGMENT_COUNT`] map arbitrarily to the decimal point.
    pub open spec fn from_ordinal(value: u32) -> Segment {
        if value == 0 {
            Segment::A1
        } else if value == 1 {
            Segment::A2
        } else if value == 2 {
            Segment::B
        } else if value == 3 {
            Segment::C
        } else if value == 4 {
            Segment::D1
        } else if value == 5 {
            Segment::D2
        } else if value == 6 {
            Segment::E
        } else if value == 7 {
            Segment::F
        } else if value == 8 {
            Segment::G1
        } else if value == 9 {
            Segment::G2
        } else if value == 10 {
            Segment::H
        } else if value == 11 {
            Segment::I
        } else if value == 12 {
            Segment::J
        } else if value == 13 {
            Segment::K
        } else if value == 14 {
            Segment::L
        } else if value == 15 {
            Segment::M
        } else {
            Segment::DP
        }
    }

    /// The bit position of this segment, as a value.
    pub fn index(self) -> (r: u32)
        ensures
            r == self.ordinal(),
            r < 17,
    {
        match self {
            Segment::A1 => 0,
            Segment::A2 => 1,
            Segment::B => 2,
            Segment::C => 3,
            Segment::D1 => 4,
            Segment::D2 => 5,
            Segment::E => 6,
            Segment::F => 7,
            Segment::G1 => 8,
            Segment::G2 => 9,
            Segment::H => 10,
            Segment::I => 11,
            Segment::J => 12,
            Segment::K => 13,
            Segment::L => 14,
            Segment::M => 15,
            Segment::DP => 16,
        }
    }

    /// Bounds-checked mapping from a bit position back to the segment.
    pub fn from_index(value: u32) -> (r: Option<Segment>)
        ensures
            value < 17 ==> r == Some(Segment::from_ordinal(value)),
            value >= 17 ==> r is None,
    {
        if value < 17 {
            Some(
                if value == 0 {
                    Segment::A1
                } else if value == 1 {
                    Segment::A2
                } else if value == 2 {
                    Segment::B
                } else if value == 3 {
                    Segment::C
                } else if value == 4 {
                    Segment::D1
                } else if value == 5 {
                    Segment::D2
                } else if value == 6 {
                    Segment::E
                } else if value == 7 {
                    Segment::F
                } else if value == 8 {
                    Segment::G1
                } else if value == 9 {
                    Segment::G2
                } else if value == 10 {
                    Segment::H
                } else if value == 11 {
                    Segment::I
                } else if value == 12 {
                    Segment::J
                } else if value == 13 {
                    Segment::K
                } else if value == 14 {
                    Segment::L
                } else if value == 15 {
                    Segment::M
                } else {
                    Segment::DP
                },
            )
        } else {
            None
        }
    }
}

/// Converting a segment's ordinal back through [`Segment::from_ordinal`]
/// yields the same segment: the numbering has no gaps or collisions.
pub proof fn lemma_ordinal_roundtrip(s: Segment)
    ensures
        Segment::from_ordinal(s.ordinal()) == s,
{
}

/// A mask over the seventeen segments of one character cell: bit `i` set
/// means the segment with ordinal `i` is lit.
///
/// An immutable value type; equality and hashing are by raw bit pattern.
/// Bits at or above [`SEGMENT_COUNT`] are never set by any constructor.
#[derive(Clone, Copy, Debug, PartialEq, Eq, Hash, Structural)]
pub struct SegmentBits {
    bits: u32,
}

impl View for SegmentBits {
    type V = u32;

    closed spec fn view(&self) -> u32 {
        self.bits
    }
}

impl SegmentBits {
    /// Bits at or above the segment count are always zero.
    #[verifier::type_invariant]
    pub closed spec fn inv(self) -> bool {
        self.bits >> 17 == 0
    }

    /// The blank mask: no segment lit.
    pub fn new() -> (r: Self)
        ensures
            r@ == 0u32,
    {
        proof {
            assert(0u32 >> 17 == 0) by (bit_vector);
        }
        Self { bits: 0 }
    }

    /// Whether no segment at all is lit.
    pub fn is_empty(&self) -> (r: bool)
        ensures
            r == (self@ == 0),
    {
        self.bits == 0
    }

    /// Whether the given segment is lit in this mask.
    pub open spec fn spec_contains(self, s: Segment) -> bool {
        self@ & (1u32 << s.ordinal()) != 0
    }

    /// Bit test: is the given segment lit?
    pub fn contains(self, s: Segment) -> (r: bool)
        ensures
            r == self.spec_contains(s),
    {
        let i = s.index();
        self.bits & (1u32 << i) != 0
    }

    /// This mask with the given segment lit as well.
    pub fn with(self, s: Segment) -> (r: Self)
        ensures
            r@ == self@ | (1u32 << s.ordinal()),
    {
        proof {
            use_type_invariant(self);
        }
        let i = s.index();
        proof {
            let b = self.bits;
            assert(b >> 17 == 0 && i < 17 ==> (b | (1u32 << i)) >> 17 == 0) by (bit_vector);
        }
        Self { bits: self.bits | (1u32 << i) }
    }

    /// Bitwise OR of two masks: a segment is lit in the result when it is
    /// lit in either operand.
    pub fn union(self, other: Self) -> (r: Self)
        ensures
            r@ == (self@ | other@),
    {
        proof {
            use_type_invariant(self);
            use_type_invariant(other);
            let a = self.bits;
            let b = other.bits;
            assert(a >> 17 == 0 && b >> 17 == 0 ==> (a | b) >> 17 == 0) by (bit_vector);
        }
        Self { bits: self.bits | other.bits }
    }

    /// Bitwise AND of two masks: a segment is lit in the result when it is
    /// lit in both operands.
    pub fn intersect(self, other: Self) -> (r: Self)
        ensures
            r@ == (self@ & other@),
    {
        proof {
            use_type_invariant(self);
            use_type_invariant(other);
            let a = self.bits;
            let b = other.bits;
            assert(a >> 17 == 0 && b >> 17 == 0 ==> (a & b) >> 17 == 0) by (bit_vector);
        }
        Self { bits: self.bits & other.bits }
    }

    /// The raw bit pattern, for storage or comparison.
    pub fn to_bits(self) -> (r: u32)
        ensures
            r == self@,
    {
        self.bits
    }

    /// A mask from a raw bit pattern already known to be in range, as
    /// font tables store them.
    pub fn from_raw(value: u32) -> (r: Self)
        requires
            value < 0x20000,
        ensures
            r@ == value,
    {
        proof {
            let v = value;
            assert(v < 0x20000 ==> v >> 17 == 0) by (bit_vector);
        }
        Self { bits: value }
    }

    /// A mask from a raw bit pattern; bits at or above the segment count
    /// are discarded, keeping the mask well formed.
    pub fn from_bits(value: u32) -> (r: Self)
        ensures
            r@ == value & 0x1FFFFu32,
    {
        proof {
            assert((value & 0x1FFFFu32) >> 17 == 0) by (bit_vector);
        }
        Self { bits: value & 0x1FFFF }
    }
}

impl Default for SegmentBits {
    /// The default mask is blank.
    fn default() -> (r: Self)
        ensures
            r@ == 0u32,
    {
        Self::new()
    }
}

/// Mask union is commutative.
pub proof fn lemma_union_commutative(a: SegmentBits, b: SegmentBits)
    ensures
        (a@ | b@) == (b@ | a@),
{
    let x = a@;
    let y = b@;
    assert((x | y) == (y | x)) by (bit_vector);
}

/// Mask union is associative.
pub proof fn lemma_union_associative(a: SegmentBits, b: SegmentBits, c: SegmentBits)
    ensures
        ((a@ | b@) | c@) == (a@ | (b@ | c@)),
{
    let x = a@;
    let y = b@;
    let z = c@;
    assert(((x | y) | z) == (x | (y | z))) by (bit_vector);
}

/// The blank mask is the identity of union.
pub proof fn lemma_union_identity(a: SegmentBits)
    ensures
        (a@ | 0u32) == a@,
        (0u32 | a@) == a@,
{
    let x = a@;
    assert((x | 0u32) == x && (0u32 | x) == x) by (bit_vector);
}

/// A segment is lit in a union exactly when it is lit in either operand.
pub proof fn lemma_contains_union(a: SegmentBits, b: SegmentBits, s: Segment)
    ensures
        ((a@ | b@) & (1u32 << s.ordinal()) != 0) == (a.spec_contains(s) || b.spec_contains(s)),
{
    let x = a@;
    let y = b@;
    let i = s.ordinal();
    assert(((x | y) & (1u32 << i) != 0) == ((x & (1u32 << i) != 0) || (y & (1u32 << i) != 0)))
        by (bit_vector);
}

/// Two masks with the same bit pattern are the same mask.
pub proof fn lemma_bits_injective(a: SegmentBits, b: SegmentBits)
    requires
        a@ == b@,
    ensures
        a == b,
{
}

} // verus!
