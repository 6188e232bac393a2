use vstd::prelude::*;

verus! {

/// The high byte of a 16-bit word.
pub fn upper(val: u16) -> (r: u8)
    ensures
        r == val / 256,
{
    (val / 256) as u8
}

/// The low byte of a 16-bit word.
pub fn lower(val: u16) -> (r: u8)
    ensures
        r == val % 256,
{
    (val % 256) as u8
}

/// The 16-bit word made of a high and a low byte.
pub open spec fn word(high: u8, low: u8) -> u16 {
    (high * 256 + low) as u16
}

/// Whether bit `bit` of `byte` is one.
pub open spec fn bit_of(byte: u8, bit: u8) -> bool {
    byte & (1u8 << bit) != 0
}

/// Whether bit `bit` (0 to 7) of `byte` is set.
pub fn is_set(byte: u8, bit: u8) -> (r: bool)
    requires
        bit < 8,
    ensures
        r == bit_of(byte, bit),
{
    byte & (1u8 << bit) != 0
}

/// `byte` with bit `bit` (0 to 7) set.
pub fn set_bit(byte: u8, bit: u8) -> (r: u8)
    requires
        bit < 8,
    ensures
        r == byte | (1u8 << bit),
{
    byte | (1u8 << bit)
}

/// `byte` with bit `bit` (0 to 7) cleared.
pub fn unset_bit(byte: u8, bit: u8) -> (r: u8)
    requires
        bit < 8,
    ensures
        r == byte & !(1u8 << bit),
{
    byte & !(1u8 << bit)
}

/// The characters of `bytes` that are not zero, in order, one byte to one character.
pub open spec fn nonzero_chars(bytes: Seq<u8>) -> Seq<char>
    decreases bytes.len(),
{
    if bytes.len() == 0 {
        Seq::empty()
    } else {
        let rest = nonzero_chars(bytes.drop_last());
        if bytes.last() == 0 {
            rest
        } else {
            rest.push(bytes.last() as char)
        }
    }
}

/// Relies on String::push: the character is appended at the end.
#[verifier::external_body]
fn push_char(s: &mut String, c: char)
    ensures
        final(s)@ == old(s)@.push(c),
{
    s.push(c)
}

/// The bytes of `slice` that are not zero, read as characters.
pub fn slice_to_string(slice: &[u8]) -> (r: String)
    ensures
        r@ == nonzero_chars(slice@),
{
    let mut s = String::new();
    let mut i: usize = 0;
    while i < slice.len()
        invariant
            i <= slice@.len(),
            s@ == nonzero_chars(slice@.subrange(0, i as int)),
        decreases slice@.len() - i,
    {
        proof {
            assert(slice@.subrange(0, i + 1).drop_last() == slice@.subrange(0, i as int));
        }
        let b = slice[i];
        if b != 0 {
            push_char(&mut s, b as char);
        }
        i = i + 1;
    }
    proof {
        assert(slice@.subrange(0, slice@.len() as int) == slice@);
    }
    s
}

/// An RGB colour.
#[derive(Clone, Copy, Debug, PartialEq, Eq, Structural)]
pub struct Color {
    pub r: u8,
    pub g: u8,
    pub b: u8,
}

impl Color {
    /// Black: every component zero.
    pub fn black() -> (c: Color)
        ensures
            c.r == 0 && c.g == 0 && c.b == 0,
    {
        Color { r: 0, g: 0, b: 0 }
    }

    /// White: every component at its maximum.
    pub fn white() -> (c: Color)
        ensures
            c.r == 255 && c.g == 255 && c.b == 255,
    {
        Color { r: 255, g: 255, b: 255 }
    }
}

} // verus!
