use segdisplay::font::default_font;
use segdisplay::Segment;
use segdisplay::SegmentBits;
use segdisplay::SegmentedFont;

fn mask_of(segments: &[Segment]) -> SegmentBits {
    let mut m = SegmentBits::new();
    for s in segments {
        m = m.with(*s);
    }
    m
}

#[test]
fn encode_uppercase_a() {
    let font = default_font();
    let mask = font.get(&'A').unwrap();
    let expected = mask_of(&[
        Segment::A1,
        Segment::A2,
        Segment::B,
        Segment::C,
        Segment::E,
        Segment::F,
        Segment::G1,
        Segment::G2,
    ]);
    assert_eq!(mask, expected);
    assert_eq!(mask.to_bits(), 0x3CF);
}

#[test]
fn encode_digit_zero() {
    let font = default_font();
    let mask = font.get(&'0').unwrap();
    let expected = mask_of(&[
        Segment::A1,
        Segment::A2,
        Segment::B,
        Segment::C,
        Segment::D1,
        Segment::D2,
        Segment::E,
        Segment::F,
        Segment::J,
        Segment::K,
    ]);
    assert_eq!(mask, expected);
    assert_eq!(mask.to_bits(), 0x30FF);
}

#[test]
fn encode_space_is_blank() {
    let font = default_font();
    let mask = font.get(&' ').unwrap();
    assert!(mask.is_empty());
}

#[test]
fn unmapped_characters_have_no_glyph() {
    let font = default_font();
    assert!(font.get(&'~').is_none());
    assert!(font.get(&'\n').is_none());
    assert!(font.get(&'\u{00e9}').is_none());
}

#[test]
fn decimal_point_glyph() {
    let font = default_font();
    let mask = font.get(&'.').unwrap();
    assert_eq!(mask, mask_of(&[Segment::DP]));
}

#[test]
fn lowercase_forms_are_stylized_not_uppercase() {
    let font = default_font();
    let upper = font.get(&'I').unwrap();
    let lower = font.get(&'i').unwrap();
    assert_ne!(upper, lower);
    assert_eq!(lower, mask_of(&[Segment::A1, Segment::A2, Segment::L]));
}

#[test]
fn custom_font_lookup_first_match_wins() {
    let entries = vec![
        ('x', SegmentBits::from_raw(0x1)),
        ('x', SegmentBits::from_raw(0x2)),
        ('y', SegmentBits::from_raw(0x4)),
    ];
    let font = SegmentedFont::new(entries);
    assert_eq!(font.get(&'x').unwrap().to_bits(), 0x1);
    assert_eq!(font.get(&'y').unwrap().to_bits(), 0x4);
    assert!(font.get(&'z').is_none());
}

#[test]
fn empty_font_maps_nothing() {
    let font = SegmentedFont::new(Vec::new());
    assert!(font.get(&'A').is_none());
}
