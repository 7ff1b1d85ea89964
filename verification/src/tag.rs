use vstd::prelude::*;

verus! {

/// A four-character OpenType identifier, packed big-endian into a `u32`
/// (the first character is the most significant byte).
#[derive(Clone, Copy, PartialEq, Eq, Structural, Debug)]
pub struct Tag {
    pub value: u32,
}

/// The `u32` that packs the first four bytes of `b` big-endian.
pub open spec fn tag_value(b: Seq<u8>) -> u32
    recommends
        b.len() == 4,
{
    (b[0] * 0x100_0000 + b[1] * 0x1_0000 + b[2] * 0x100 + b[3]) as u32
}

impl Tag {
    /// Packs the four bytes of an OpenType tag, most significant first.
    pub fn from_bytes(bytes: &[u8; 4]) -> (r: Tag)
        ensures
            r.value == tag_value(bytes@),
    {
        let value = (bytes[0] as u32) * 0x100_0000
            + (bytes[1] as u32) * 0x1_0000
            + (bytes[2] as u32) * 0x100
            + (bytes[3] as u32);
        Tag { value }
    }
}

} // verus!
