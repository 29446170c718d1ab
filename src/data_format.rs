//! The six-byte triplet payload: three big-endian signed 16-bit values.
//!
//! ```text
//!  byte 0: X high   byte 1: X low
//!  byte 2: Y high   byte 3: Y low
//!  byte 4: Z high   byte 5: Z low
//! ```
use vstd::prelude::*;

verus! {

/// Number of bytes in a triplet payload.
pub const PAYLOAD_LEN: usize = 6;

/// The signed value of the big-endian byte pair `hi`, `lo`.
pub open spec fn be_value(hi: u8, lo: u8) -> int {
    if hi < 0x80 {
        hi * 256 + lo
    } else {
        hi * 256 + lo - 0x10000
    }
}

/// Reads the big-endian byte pair `hi`, `lo` as a signed 16-bit value, as
/// `i16::from_be_bytes([hi, lo])` does.
pub fn i16_from_be(hi: u8, lo: u8) -> (r: i16)
    ensures
        r as int == be_value(hi, lo),
{
    let v: u16 = (hi as u16) * 256 + (lo as u16);
    if hi < 0x80 {
        v as i16
    } else {
        ((v as i32) - 0x10000) as i16
    }
}

/// Three signed 16-bit axis values.
#[derive(Clone, Copy, Debug, PartialEq, Eq, Structural)]
pub struct Triplet {
    pub x: i16,
    pub y: i16,
    pub z: i16,
}

/// The triplet that the six wire bytes `b` encode.
pub open spec fn triplet_of(b: Seq<u8>) -> Triplet
    recommends
        b.len() == 6,
{
    Triplet {
        x: be_value(b[0], b[1]) as i16,
        y: be_value(b[2], b[3]) as i16,
        z: be_value(b[4], b[5]) as i16,
    }
}

/// Decodes a six-byte payload into its triplet; every input is valid.
pub fn decode_triplet(buf: &[u8; PAYLOAD_LEN]) -> (t: Triplet)
    ensures
        t == triplet_of(buf@),
        t.x as int == be_value(buf@[0], buf@[1]),
        t.y as int == be_value(buf@[2], buf@[3]),
        t.z as int == be_value(buf@[4], buf@[5]),
{
    Triplet {
        x: i16_from_be(buf[0], buf[1]),
        y: i16_from_be(buf[2], buf[3]),
        z: i16_from_be(buf[4], buf[5]),
    }
}

/// A raw triplet payload, kept as its six wire bytes.
pub struct MyFrame {
    pub x_h: u8,
    pub x_l: u8,
    pub y_h: u8,
    pub y_l: u8,
    pub z_h: u8,
    pub z_l: u8,
}

impl View for MyFrame {
    type V = Seq<u8>;

    /// The frame's bytes in wire order.
    open spec fn view(&self) -> Seq<u8> {
        seq![self.x_h, self.x_l, self.y_h, self.y_l, self.z_h, self.z_l]
    }
}

impl MyFrame {
    /// A frame of six zero bytes.
    pub fn new() -> (r: Self)
        ensures
            r@ == seq![0u8, 0u8, 0u8, 0u8, 0u8, 0u8],
    {
        Self { x_h: 0, x_l: 0, y_h: 0, y_l: 0, z_h: 0, z_l: 0 }
    }

    /// The frame whose wire bytes are `buf`.
    pub fn from_fixed(buf: &[u8; PAYLOAD_LEN]) -> (r: Self)
        ensures
            r@ == buf@,
    {
        let r = Self { x_h: buf[0], x_l: buf[1], y_h: buf[2], y_l: buf[3], z_h: buf[4], z_l: buf[5] };
        assert(r@ =~= buf@);
        r
    }

    pub fn get_x(&self) -> (r: i16)
        ensures
            r as int == be_value(self.x_h, self.x_l),
    {
        i16_from_be(self.x_h, self.x_l)
    }

    pub fn get_y(&self) -> (r: i16)
        ensures
            r as int == be_value(self.y_h, self.y_l),
    {
        i16_from_be(self.y_h, self.y_l)
    }

    pub fn get_z(&self) -> (r: i16)
        ensures
            r as int == be_value(self.z_h, self.z_l),
    {
        i16_from_be(self.z_h, self.z_l)
    }

    /// The frame's six bytes in wire order.
    pub fn as_bytes(&self) -> (r: [u8; PAYLOAD_LEN])
        ensures
            r@ == self@,
    {
        let r = [self.x_h, self.x_l, self.y_h, self.y_l, self.z_h, self.z_l];
        assert(r@ =~= self@);
        r
    }
}

} // verus!
