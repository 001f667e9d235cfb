use vstd::prelude::*;

verus! {

/// The all-ones value of the identifier's integer is reserved elsewhere in
/// the system as an "absent" sentinel; no `Highlight` ever holds it.
pub const HIGHLIGHT_SENTINEL: u32 = u32::MAX;

/// The largest integer a `Highlight` may hold: one below the sentinel.
pub const HIGHLIGHT_MAX: u32 = u32::MAX - 1;

/// The boundary between the two regions of the identifier space.
///
/// Values `0 ..= RGB_START` are indices into a theme's style table; the
/// `2^24` values strictly above `RGB_START` (up to `HIGHLIGHT_MAX`) each
/// encode exactly one RGB triple. The boundary is a process-wide constant:
/// it does not vary per theme.
pub const RGB_START: u32 = HIGHLIGHT_MAX - 0x100_0000;

/// A compact identifier that refers either to an entry of a theme's style
/// table (by index) or to an arbitrary true-color RGB triple (inline),
/// distinguished by which region of the integer space the value lies in.
#[derive(Clone, Copy, Debug, PartialEq, Eq, Hash)]
pub struct Highlight {
    value: u32,
}

impl View for Highlight {
    type V = u32;

    closed spec fn view(&self) -> u32 {
        self.value
    }
}

impl Highlight {
    /// The sentinel stays free so that "no highlight" can be represented
    /// elsewhere without an extra tag.
    #[verifier::type_invariant]
    pub closed spec fn inv(self) -> bool {
        self.value != HIGHLIGHT_SENTINEL
    }

    pub fn new(value: u32) -> (h: Highlight)
        requires
            value != HIGHLIGHT_SENTINEL,
        ensures
            h@ == value,
    {
        Highlight { value }
    }

    pub fn get(&self) -> (v: u32)
        ensures
            v == self@,
            v != HIGHLIGHT_SENTINEL,
    {
        proof {
            use_type_invariant(*self);
        }
        self.value
    }

    pub fn idx(&self) -> (i: usize)
        ensures
            i == self@ as usize,
            i == self@,
    {
        proof {
            use_type_invariant(*self);
        }
        self.value as usize
    }
}

/// The packed form of an RGB triple: a leading byte fixed to the maximum
/// byte value, then the red, green and blue bytes.
pub open spec fn rgb_packed(r: u8, g: u8, b: u8) -> u32 {
    0xFF00_0000u32 | ((r as u32) << 16u32) | ((g as u32) << 8u32) | (b as u32)
}

/// The integer of the `Highlight` that encodes `(r, g, b)`: the packed form
/// less one, which keeps every encoding below the sentinel while staying
/// strictly inside the inline-RGB region.
pub open spec fn encode_rgb_spec(r: u8, g: u8, b: u8) -> u32 {
    (rgb_packed(r, g, b) - 1) as u32
}

/// What an identifier's integer decodes to: the RGB triple it encodes if
/// the value lies strictly above `RGB_START`, and nothing otherwise.
pub open spec fn decode_rgb_spec(v: u32) -> Option<(u8, u8, u8)> {
    if v > RGB_START {
        let w = ((v + 1) as u32);
        Some((((w >> 16u32) & 0xFF) as u8, ((w >> 8u32) & 0xFF) as u8, (w & 0xFF) as u8))
    } else {
        None
    }
}

/// Law: decoding the encoding of any RGB triple gives back exactly that
/// triple; in particular every encoding lands inside the inline-RGB region.
pub proof fn lemma_rgb_round_trip(r: u8, g: u8, b: u8)
    ensures
        RGB_START < encode_rgb_spec(r, g, b) <= HIGHLIGHT_MAX,
        decode_rgb_spec(encode_rgb_spec(r, g, b)) == Some((r, g, b)),
{
    assert(RGB_START < encode_rgb_spec(r, g, b) <= HIGHLIGHT_MAX) by (bit_vector);
    assert(((((encode_rgb_spec(r, g, b) + 1) as u32) >> 16u32) & 0xFF) as u8 == r)
        by (bit_vector);
    assert(((((encode_rgb_spec(r, g, b) + 1) as u32) >> 8u32) & 0xFF) as u8 == g) by (bit_vector);
    assert((((encode_rgb_spec(r, g, b) + 1) as u32) & 0xFF) as u8 == b) by (bit_vector);
}

/// Law: no value in the indexed region decodes as an RGB triple, so the
/// indexed and inline-RGB regions are disjoint.
pub proof fn lemma_indexed_decodes_none(v: u32)
    requires
        v <= RGB_START,
    ensures
        decode_rgb_spec(v) is None,
{
}

/// Law (capacity): the inline-RGB region spans exactly `2^24` integers.
pub proof fn lemma_rgb_region_size()
    ensures
        HIGHLIGHT_MAX - RGB_START == 0x100_0000,
{
}

/// Law (capacity, no aliasing): distinct RGB triples never share an
/// encoding.
pub proof fn lemma_rgb_encode_injective(r1: u8, g1: u8, b1: u8, r2: u8, g2: u8, b2: u8)
    requires
        encode_rgb_spec(r1, g1, b1) == encode_rgb_spec(r2, g2, b2),
    ensures
        r1 == r2,
        g1 == g2,
        b1 == b2,
{
    assert(r1 == r2 && g1 == g2 && b1 == b2) by (bit_vector)
        requires
            encode_rgb_spec(r1, g1, b1) == encode_rgb_spec(r2, g2, b2),
    ;
}

/// Law (capacity, no waste): every integer of the inline-RGB region decodes
/// to a triple whose encoding is that integer again, so the region holds one
/// value per distinct triple and nothing else.
pub proof fn lemma_rgb_region_onto(v: u32)
    requires
        RGB_START < v <= HIGHLIGHT_MAX,
    ensures
        decode_rgb_spec(v) matches Some((r, g, b)) && encode_rgb_spec(r, g, b) == v,
{
    let w = ((v + 1) as u32);
    assert(encode_rgb_spec(((w >> 16u32) & 0xFF) as u8, ((w >> 8u32) & 0xFF) as u8, (
    w & 0xFF) as u8) == v) by (bit_vector)
        requires
            RGB_START < v <= HIGHLIGHT_MAX,
            w == ((v + 1) as u32),
    ;
}

} // verus!
