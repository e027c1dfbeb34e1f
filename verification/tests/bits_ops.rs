use segdisplay::Segment;
use segdisplay::SegmentBits;

fn mask_of(segments: &[Segment]) -> SegmentBits {
    let mut m = SegmentBits::new();
    for s in segments {
        m = m.with(*s);
    }
    m
}

#[test]
fn new_mask_is_blank() {
    let m = SegmentBits::new();
    assert!(m.is_empty());
    assert_eq!(m.to_bits(), 0);
}

#[test]
fn default_mask_is_blank() {
    let m: SegmentBits = Default::default();
    assert!(m.is_empty());
}

#[test]
fn with_sets_exactly_one_bit() {
    let m = SegmentBits::new().with(Segment::G1);
    assert!(m.contains(Segment::G1));
    assert!(!m.contains(Segment::G2));
    assert_eq!(m.to_bits(), 1 << 8);
}

#[test]
fn union_is_commutative() {
    let a = mask_of(&[Segment::A1, Segment::B, Segment::DP]);
    let b = mask_of(&[Segment::B, Segment::K]);
    assert_eq!(a.union(b), b.union(a));
}

#[test]
fn union_is_associative() {
    let a = mask_of(&[Segment::A1, Segment::B]);
    let b = mask_of(&[Segment::C, Segment::M]);
    let c = mask_of(&[Segment::A1, Segment::L]);
    assert_eq!(a.union(b).union(c), a.union(b.union(c)));
}

#[test]
fn blank_is_union_identity() {
    let a = mask_of(&[Segment::E, Segment::F, Segment::I]);
    assert_eq!(a.union(SegmentBits::new()), a);
    assert_eq!(SegmentBits::new().union(a), a);
}

#[test]
fn contains_union_matches_either_operand() {
    let a = mask_of(&[Segment::A1, Segment::B]);
    let b = mask_of(&[Segment::B, Segment::K]);
    let u = a.union(b);
    let all = [
        Segment::A1,
        Segment::A2,
        Segment::B,
        Segment::C,
        Segment::D1,
        Segment::D2,
        Segment::E,
        Segment::F,
        Segment::G1,
        Segment::G2,
        Segment::H,
        Segment::I,
        Segment::J,
        Segment::K,
        Segment::L,
        Segment::M,
        Segment::DP,
    ];
    for s in all {
        assert_eq!(u.contains(s), a.contains(s) || b.contains(s));
    }
}

#[test]
fn intersect_keeps_common_bits() {
    let a = mask_of(&[Segment::A1, Segment::B, Segment::C]);
    let b = mask_of(&[Segment::B, Segment::C, Segment::D1]);
    let i = a.intersect(b);
    assert_eq!(i, mask_of(&[Segment::B, Segment::C]));
}

#[test]
fn from_bits_discards_out_of_range_bits() {
    let m = SegmentBits::from_bits(0xFFFF_FFFF);
    assert_eq!(m.to_bits(), 0x1FFFF);
    let n = SegmentBits::from_bits(0x2_0001);
    assert_eq!(n.to_bits(), 0x1);
}

#[test]
fn raw_roundtrip_keeps_bits() {
    let m = SegmentBits::from_raw(0x1_55AA);
    assert_eq!(m.to_bits(), 0x1_55AA);
    assert_eq!(SegmentBits::from_bits(m.to_bits()), m);
}

#[test]
fn segment_index_roundtrip() {
    for i in 0..17u32 {
        let s = Segment::from_index(i).unwrap();
        assert_eq!(s.index(), i);
    }
    assert!(Segment::from_index(17).is_none());
    assert!(Segment::from_index(255).is_none());
}
