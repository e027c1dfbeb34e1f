//! The character font table: an immutable mapping from characters to
//! segment masks.
//!
//! A font is a list of entries looked up by first match; the standard
//! table covers space, common punctuation, the digits, and the upper and
//! lower case letters. Lowercase forms are stylized by design, rendered
//! smaller or stacked by reusing segments asymmetrically, not derived
//! from the uppercase shapes. A character without an entry has no glyph:
//! the lookup returns nothing and the caller supplies its own fallback,
//! usually a blank cell.

use vstd::prelude::*;

use crate::bits::SegmentBits;

verus! {

/// The view of a font entry list: each entry's character paired with the
/// raw bit pattern of its mask.
pub open spec fn entries_view(entries: Seq<(char, SegmentBits)>) -> Seq<(char, u32)> {
    entries.map(|i: int, e: (char, SegmentBits)| (e.0, e.1@))
}

/// First-match lookup of a character in an entry list.
pub open spec fn spec_lookup(entries: Seq<(char, u32)>, ch: char) -> Option<u32>
    decreases entries.len(),
{
    if entries.len() == 0 {
        None
    } else if entries[0].0 == ch {
        Some(entries[0].1)
    } else {
        spec_lookup(entries.drop_first(), ch)
    }
}

/// An immutable mapping from characters to segment masks. Built once
/// from a literal table; there is no mutation API, so adding glyphs
/// means constructing a new font.
pub struct SegmentedFont {
    characters: Vec<(char, SegmentBits)>,
}

impl View for SegmentedFont {
    type V = Seq<(char, u32)>;

    closed spec fn view(&self) -> Seq<(char, u32)> {
        entries_view(self.characters@)
    }
}

impl SegmentedFont {
    /// A font over the given entries.
    pub fn new(characters: Vec<(char, SegmentBits)>) -> (r: Self)
        ensures
            r@ == entries_view(characters@),
    {
        SegmentedFont { characters }
    }

    /// The segment mask of a character, or nothing when the font defines
    /// no glyph for it.
    pub fn get(&self, ch: &char) -> (r: Option<SegmentBits>)
        ensures
            match r {
                Some(b) => spec_lookup(self@, *ch) == Some(b@),
                None => spec_lookup(self@, *ch) is None,
            },
    {
        let mut i: usize = 0;
        proof {
            assert(self@.skip(0) =~= self@);
        }
        while i < self.characters.len()
            invariant
                i <= self.characters@.len(),
                self@ == entries_view(self.characters@),
                spec_lookup(self@, *ch) == spec_lookup(self@.skip(i as int), *ch),
            decreases self.characters@.len() - i,
        {
            if self.characters[i].0 == *ch {
                return Some(self.characters[i].1);
            }
            proof {
                assert(self@.skip(i as int).drop_first() =~= self@.skip(i + 1 as int));
            }
            i = i + 1;
        }
        None
    }
}

/// The standard glyph table: each supported character with the raw bit
/// pattern of its segment mask.
pub open spec fn default_table() -> Seq<(char, u32)> {
    seq![
        (' ', 0x0u32),
        ('!', 0x1C33u32),
        ('"', 0x84u32),
        ('#', 0x4B3Cu32),
        ('$', 0x4BBBu32),
        ('%', 0x3021u32),
        ('&', 0x8BF1u32),
        ('\'', 0x800u32),
        ('(', 0xD1u32),
        (')', 0x2Eu32),
        ('*', 0xFF00u32),
        ('+', 0x4B00u32),
        (',', 0x2000u32),
        ('-', 0x300u32),
        ('.', 0x10000u32),
        ('/', 0x3000u32),
        ('0', 0x30FFu32),
        ('1', 0x100Cu32),
        ('2', 0x377u32),
        ('3', 0x33Fu32),
        ('4', 0x38Cu32),
        ('5', 0x3BBu32),
        ('6', 0x3FBu32),
        ('7', 0xFu32),
        ('8', 0x3FFu32),
        ('9', 0x3BFu32),
        (':', 0x110u32),
        (';', 0x2001u32),
        ('<', 0x9000u32),
        ('=', 0x330u32),
        ('>', 0x2400u32),
        ('?', 0x4207u32),
        ('@', 0x42EFu32),
        ('A', 0x3CFu32),
        ('B', 0x4A3Fu32),
        ('C', 0xF3u32),
        ('D', 0x483Fu32),
        ('E', 0x1F3u32),
        ('F', 0x1C3u32),
        ('G', 0x2FBu32),
        ('H', 0x3CCu32),
        ('I', 0x4833u32),
        ('J', 0x3Cu32),
        ('K', 0x91C0u32),
        ('L', 0xF0u32),
        ('M', 0x14CCu32),
        ('N', 0x84CCu32),
        ('O', 0xFFu32),
        ('P', 0x3C7u32),
        ('Q', 0x80FFu32),
        ('R', 0x83C7u32),
        ('S', 0x3BBu32),
        ('T', 0x4803u32),
        ('U', 0xFCu32),
        ('V', 0x30C0u32),
        ('W', 0xA0CCu32),
        ('X', 0xB400u32),
        ('Y', 0x5400u32),
        ('Z', 0x3033u32),
        ('a', 0x4170u32),
        ('b', 0x3F8u32),
        ('c', 0x370u32),
        ('d', 0x37Cu32),
        ('e', 0x3F7u32),
        ('f', 0x4B02u32),
        ('g', 0x4991u32),
        ('h', 0x3C8u32),
        ('i', 0x4003u32),
        ('j', 0x4013u32),
        ('k', 0x91C0u32),
        ('l', 0xC0u32),
        ('m', 0x4348u32),
        ('n', 0x348u32),
        ('o', 0x378u32),
        ('p', 0x9C1u32),
        ('q', 0xA0Eu32),
        ('r', 0x140u32),
        ('s', 0x8220u32),
        ('t', 0x1D0u32),
        ('u', 0x78u32),
        ('v', 0x2040u32),
        ('w', 0xA048u32),
        ('x', 0xB400u32),
        ('y', 0x5410u32),
        ('z', 0x2110u32),
    ]
}

/// Build the standard font from the glyph table.
#[verifier::rlimit(100)]
pub fn default_font() -> (r: SegmentedFont)
    ensures
        r@ == default_table(),
{
    let mut characters: Vec<(char, SegmentBits)> = Vec::new();
    characters.push((' ', SegmentBits::from_raw(0x0)));
    characters.push(('!', SegmentBits::from_raw(0x1C33)));
    characters.push(('"', SegmentBits::from_raw(0x84)));
    characters.push(('#', SegmentBits::from_raw(0x4B3C)));
    characters.push(('$', SegmentBits::from_raw(0x4BBB)));
    characters.push(('%', SegmentBits::from_raw(0x3021)));
    characters.push(('&', SegmentBits::from_raw(0x8BF1)));
    characters.push(('\'', SegmentBits::from_raw(0x800)));
    characters.push(('(', SegmentBits::from_raw(0xD1)));
    characters.push((')', SegmentBits::from_raw(0x2E)));
    characters.push(('*', SegmentBits::from_raw(0xFF00)));
    characters.push(('+', SegmentBits::from_raw(0x4B00)));
    characters.push((',', SegmentBits::from_raw(0x2000)));
    characters.push(('-', SegmentBits::from_raw(0x300)));
    characters.push(('.', SegmentBits::from_raw(0x10000)));
    characters.push(('/', SegmentBits::from_raw(0x3000)));
    characters.push(('0', SegmentBits::from_raw(0x30FF)));
    characters.push(('1', SegmentBits::from_raw(0x100C)));
    characters.push(('2', SegmentBits::from_raw(0x377)));
    characters.push(('3', SegmentBits::from_raw(0x33F)));
    characters.push(('4', SegmentBits::from_raw(0x38C)));
    characters.push(('5', SegmentBits::from_raw(0x3BB)));
    characters.push(('6', SegmentBits::from_raw(0x3FB)));
    characters.push(('7', SegmentBits::from_raw(0xF)));
    characters.push(('8', SegmentBits::from_raw(0x3FF)));
    characters.push(('9', SegmentBits::from_raw(0x3BF)));
    characters.push((':', SegmentBits::from_raw(0x110)));
    characters.push((';', SegmentBits::from_raw(0x2001)));
    characters.push(('<', SegmentBits::from_raw(0x9000)));
    characters.push(('=', SegmentBits::from_raw(0x330)));
    characters.push(('>', SegmentBits::from_raw(0x2400)));
    characters.push(('?', SegmentBits::from_raw(0x4207)));
    characters.push(('@', SegmentBits::from_raw(0x42EF)));
    characters.push(('A', SegmentBits::from_raw(0x3CF)));
    characters.push(('B', SegmentBits::from_raw(0x4A3F)));
    characters.push(('C', SegmentBits::from_raw(0xF3)));
    characters.push(('D', SegmentBits::from_raw(0x483F)));
    characters.push(('E', SegmentBits::from_raw(0x1F3)));
    characters.push(('F', SegmentBits::from_raw(0x1C3)));
    characters.push(('G', SegmentBits::from_raw(0x2FB)));
    characters.push(('H', SegmentBits::from_raw(0x3CC)));
    characters.push(('I', SegmentBits::from_raw(0x4833)));
    characters.push(('J', SegmentBits::from_raw(0x3C)));
    characters.push(('K', SegmentBits::from_raw(0x91C0)));
    characters.push(('L', SegmentBits::from_raw(0xF0)));
    characters.push(('M', SegmentBits::from_raw(0x14CC)));
    characters.push(('N', SegmentBits::from_raw(0x84CC)));
    characters.push(('O', SegmentBits::from_raw(0xFF)));
    characters.push(('P', SegmentBits::from_raw(0x3C7)));
    characters.push(('Q', SegmentBits::from_raw(0x80FF)));
    characters.push(('R', SegmentBits::from_raw(0x83C7)));
    characters.push(('S', SegmentBits::from_raw(0x3BB)));
    characters.push(('T', SegmentBits::from_raw(0x4803)));
    characters.push(('U', SegmentBits::from_raw(0xFC)));
    characters.push(('V', SegmentBits::from_raw(0x30C0)));
    characters.push(('W', SegmentBits::from_raw(0xA0CC)));
    characters.push(('X', SegmentBits::from_raw(0xB400)));
    characters.push(('Y', SegmentBits::from_raw(0x5400)));
    characters.push(('Z', SegmentBits::from_raw(0x3033)));
    characters.push(('a', SegmentBits::from_raw(0x4170)));
    characters.push(('b', SegmentBits::from_raw(0x3F8)));
    characters.push(('c', SegmentBits::from_raw(0x370)));
    characters.push(('d', SegmentBits::from_raw(0x37C)));
    characters.push(('e', SegmentBits::from_raw(0x3F7)));
    characters.push(('f', SegmentBits::from_raw(0x4B02)));
    characters.push(('g', SegmentBits::from_raw(0x4991)));
    characters.push(('h', SegmentBits::from_raw(0x3C8)));
    characters.push(('i', SegmentBits::from_raw(0x4003)));
    characters.push(('j', SegmentBits::from_raw(0x4013)));
    characters.push(('k', SegmentBits::from_raw(0x91C0)));
    characters.push(('l', SegmentBits::from_raw(0xC0)));
    characters.push(('m', SegmentBits::from_raw(0x4348)));
    characters.push(('n', SegmentBits::from_raw(0x348)));
    characters.push(('o', SegmentBits::from_raw(0x378)));
    characters.push(('p', SegmentBits::from_raw(0x9C1)));
    characters.push(('q', SegmentBits::from_raw(0xA0E)));
    characters.push(('r', SegmentBits::from_raw(0x140)));
    characters.push(('s', SegmentBits::from_raw(0x8220)));
    characters.push(('t', SegmentBits::from_raw(0x1D0)));
    characters.push(('u', SegmentBits::from_raw(0x78)));
    characters.push(('v', SegmentBits::from_raw(0x2040)));
    characters.push(('w', SegmentBits::from_raw(0xA048)));
    characters.push(('x', SegmentBits::from_raw(0xB400)));
    characters.push(('y', SegmentBits::from_raw(0x5410)));
    characters.push(('z', SegmentBits::from_raw(0x2110)));
    proof {
        assert(entries_view(characters@) =~= default_table());
    }
    SegmentedFont::new(characters)
}

} // verus!
