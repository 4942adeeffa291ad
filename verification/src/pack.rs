//! Bit-exact integer packing.
//!
//! Packing and unpacking between a single unsigned word and a vector of
//! narrower unsigned components, in little-endian component order: the `x`
//! component always occupies the least-significant bits. Packing is the
//! exact inverse of unpacking for every bit pattern — no information is
//! lost and nothing saturates — which the `lemma_pack_roundtrip` proof of
//! each layout states in both directions.

use vstd::prelude::*;

use crate::vec::Vec2;
use crate::vec::Vec4;

verus! {

impl Vec2<u32> {
    /// The unpacked components at the specification level: the low and the
    /// high 32-bit halves of the word.
    pub open spec fn unpack32_spec(v: u64) -> Vec2<u32> {
        Vec2 { x: (v % 0x1_0000_0000) as u32, y: (v / 0x1_0000_0000) as u32 }
    }

    /// The packed word at the specification level: `x + y * 2^32`.
    pub open spec fn pack_spec(v: Vec2<u32>) -> u64 {
        (v.x + v.y * 0x1_0000_0000) as u64
    }

    /// Unpacks a `u64` into two `u32` components.
    pub fn unpack32(v: u64) -> (r: Vec2<u32>)
        ensures
            r == Vec2::<u32>::unpack32_spec(v),
    {
        let r = Vec2 {
            x: (v & 0x0000_0000_FFFF_FFFF) as u32,
            y: ((v & 0xFFFF_FFFF_0000_0000) >> 32u64) as u32,
        };
        proof {
            assert({
                &&& (v & 0x0000_0000_FFFF_FFFF) as u32 == (v % 0x1_0000_0000) as u32
                &&& ((v & 0xFFFF_FFFF_0000_0000) >> 32u64) as u32 == (v / 0x1_0000_0000) as u32
            }) by (bit_vector);
        }
        r
    }

    /// Packs the components into a `u64`.
    pub fn pack(self) -> (r: u64)
        ensures
            r == Vec2::<u32>::pack_spec(self),
    {
        let r = (self.y as u64) << 32u64 | (self.x as u64);
        proof {
            let x = self.x;
            let y = self.y;
            assert((y as u64) << 32u64 | (x as u64) == (x + y * 0x1_0000_0000) as u64)
                by (bit_vector);
        }
        r
    }

    /// Law: packing two 32-bit components is the exact inverse of
    /// unpacking a 64-bit word, in both directions.
    pub proof fn lemma_pack_roundtrip(v: Vec2<u32>, w: u64)
        ensures
            Vec2::<u32>::unpack32_spec(Vec2::<u32>::pack_spec(v)) == v,
            Vec2::<u32>::pack_spec(Vec2::<u32>::unpack32_spec(w)) == w,
    {
        let x = v.x;
        let y = v.y;
        assert({
            &&& (((x + y * 0x1_0000_0000) as u64) % 0x1_0000_0000) as u32 == x
            &&& (((x + y * 0x1_0000_0000) as u64) / 0x1_0000_0000) as u32 == y
            &&& (((w % 0x1_0000_0000) as u32) + ((w / 0x1_0000_0000) as u32) * 0x1_0000_0000)
                as u64 == w
        }) by (bit_vector);
    }
}

impl Vec2<u16> {
    /// The unpacked components at the specification level: the low and the
    /// high 16-bit halves of the word.
    pub open spec fn unpack16_spec(v: u32) -> Vec2<u16> {
        Vec2 { x: (v % 0x1_0000) as u16, y: (v / 0x1_0000) as u16 }
    }

    /// The packed word at the specification level: `x + y * 2^16`.
    pub open spec fn pack_spec(v: Vec2<u16>) -> u32 {
        (v.x + v.y * 0x1_0000) as u32
    }

    /// Unpacks a `u32` into two `u16` components.
    pub fn unpack16(v: u32) -> (r: Vec2<u16>)
        ensures
            r == Vec2::<u16>::unpack16_spec(v),
    {
        let r = Vec2 { x: (v & 0x0000_FFFF) as u16, y: ((v & 0xFFFF_0000) >> 16u32) as u16 };
        proof {
            assert({
                &&& (v & 0x0000_FFFF) as u16 == (v % 0x1_0000) as u16
                &&& ((v & 0xFFFF_0000) >> 16u32) as u16 == (v / 0x1_0000) as u16
            }) by (bit_vector);
        }
        r
    }

    /// Packs the components into a `u32`.
    pub fn pack(self) -> (r: u32)
        ensures
            r == Vec2::<u16>::pack_spec(self),
    {
        let r = (self.y as u32) << 16u32 | (self.x as u32);
        proof {
            let x = self.x;
            let y = self.y;
            assert((y as u32) << 16u32 | (x as u32) == (x + y * 0x1_0000) as u32) by (bit_vector);
        }
        r
    }

    /// Law: packing two 16-bit components is the exact inverse of
    /// unpacking a 32-bit word, in both directions.
    pub proof fn lemma_pack_roundtrip(v: Vec2<u16>, w: u32)
        ensures
            Vec2::<u16>::unpack16_spec(Vec2::<u16>::pack_spec(v)) == v,
            Vec2::<u16>::pack_spec(Vec2::<u16>::unpack16_spec(w)) == w,
    {
        let x = v.x;
        let y = v.y;
        assert({
            &&& (((x + y * 0x1_0000) as u32) % 0x1_0000) as u16 == x
            &&& (((x + y * 0x1_0000) as u32) / 0x1_0000) as u16 == y
            &&& (((w % 0x1_0000) as u16) + ((w / 0x1_0000) as u16) * 0x1_0000) as u32 == w
        }) by (bit_vector);
    }
}

impl Vec2<u8> {
    /// The unpacked components at the specification level: the low and the
    /// high bytes of the word.
    pub open spec fn unpack8_spec(v: u16) -> Vec2<u8> {
        Vec2 { x: (v % 0x100) as u8, y: (v / 0x100) as u8 }
    }

    /// The packed word at the specification level: `x + y * 2^8`.
    pub open spec fn pack_spec(v: Vec2<u8>) -> u16 {
        (v.x + v.y * 0x100) as u16
    }

    /// Unpacks a `u16` into two `u8` components.
    pub fn unpack8(v: u16) -> (r: Vec2<u8>)
        ensures
            r == Vec2::<u8>::unpack8_spec(v),
    {
        let r = Vec2 { x: (v & 0x00FF) as u8, y: ((v & 0xFF00) >> 8u16) as u8 };
        proof {
            assert({
                &&& (v & 0x00FF) as u8 == (v % 0x100) as u8
                &&& ((v & 0xFF00) >> 8u16) as u8 == (v / 0x100) as u8
            }) by (bit_vector);
        }
        r
    }

    /// Packs the components into a `u16`.
    pub fn pack(self) -> (r: u16)
        ensures
            r == Vec2::<u8>::pack_spec(self),
    {
        let r = (self.y as u16) << 8u16 | (self.x as u16);
        proof {
            let x = self.x;
            let y = self.y;
            assert((y as u16) << 8u16 | (x as u16) == (x + y * 0x100) as u16) by (bit_vector);
        }
        r
    }

    /// Law: packing two bytes is the exact inverse of unpacking a 16-bit
    /// word, in both directions.
    pub proof fn lemma_pack_roundtrip(v: Vec2<u8>, w: u16)
        ensures
            Vec2::<u8>::unpack8_spec(Vec2::<u8>::pack_spec(v)) == v,
            Vec2::<u8>::pack_spec(Vec2::<u8>::unpack8_spec(w)) == w,
    {
        let x = v.x;
        let y = v.y;
        assert({
            &&& (((x + y * 0x100) as u16) % 0x100) as u8 == x
            &&& (((x + y * 0x100) as u16) / 0x100) as u8 == y
            &&& (((w % 0x100) as u8) + ((w / 0x100) as u8) * 0x100) as u16 == w
        }) by (bit_vector);
    }
}

impl Vec4<u16> {
    /// The unpacked components at the specification level: the four 16-bit
    /// lanes of the word, least significant first.
    pub open spec fn unpack16_spec(v: u64) -> Vec4<u16> {
        Vec4 {
            x: (v % 0x1_0000) as u16,
            y: ((v / 0x1_0000) % 0x1_0000) as u16,
            z: ((v / 0x1_0000_0000) % 0x1_0000) as u16,
            w: (v / 0x1_0000_0000_0000) as u16,
        }
    }

    /// The packed word at the specification level:
    /// `x + y * 2^16 + z * 2^32 + w * 2^48`.
    pub open spec fn pack_spec(v: Vec4<u16>) -> u64 {
        (v.x + v.y * 0x1_0000 + v.z * 0x1_0000_0000 + v.w * 0x1_0000_0000_0000) as u64
    }

    /// Unpacks a `u64` into four `u16` components.
    pub fn unpack16(v: u64) -> (r: Vec4<u16>)
        ensures
            r == Vec4::<u16>::unpack16_spec(v),
    {
        let r = Vec4 {
            x: (v & 0x0000_0000_0000_FFFF) as u16,
            y: ((v & 0x0000_0000_FFFF_0000) >> 16u64) as u16,
            z: ((v & 0x0000_FFFF_0000_0000) >> 32u64) as u16,
            w: ((v & 0xFFFF_0000_0000_0000) >> 48u64) as u16,
        };
        proof {
            assert({
                &&& (v & 0x0000_0000_0000_FFFF) as u16 == (v % 0x1_0000) as u16
                &&& ((v & 0x0000_0000_FFFF_0000) >> 16u64) as u16 == ((v / 0x1_0000)
                    % 0x1_0000) as u16
                &&& ((v & 0x0000_FFFF_0000_0000) >> 32u64) as u16 == ((v / 0x1_0000_0000)
                    % 0x1_0000) as u16
                &&& ((v & 0xFFFF_0000_0000_0000) >> 48u64) as u16 == (v
                    / 0x1_0000_0000_0000) as u16
            }) by (bit_vector);
        }
        r
    }

    /// Packs the components into a `u64`.
    pub fn pack(self) -> (r: u64)
        ensures
            r == Vec4::<u16>::pack_spec(self),
    {
        let r = (self.w as u64) << 48u64 | (self.z as u64) << 32u64 | (self.y as u64) << 16u64
            | (self.x as u64);
        proof {
            let x = self.x;
            let y = self.y;
            let z = self.z;
            let w = self.w;
            assert((w as u64) << 48u64 | (z as u64) << 32u64 | (y as u64) << 16u64 | (x as u64)
                == (x + y * 0x1_0000 + z * 0x1_0000_0000 + w * 0x1_0000_0000_0000) as u64)
                by (bit_vector);
        }
        r
    }

    /// Law: packing four 16-bit components is the exact inverse of
    /// unpacking a 64-bit word, in both directions.
    pub proof fn lemma_pack_roundtrip(v: Vec4<u16>, w: u64)
        ensures
            Vec4::<u16>::unpack16_spec(Vec4::<u16>::pack_spec(v)) == v,
            Vec4::<u16>::pack_spec(Vec4::<u16>::unpack16_spec(w)) == w,
    {
        let a = v.x;
        let b = v.y;
        let c = v.z;
        let d = v.w;
        assert({
            &&& (((a + b * 0x1_0000 + c * 0x1_0000_0000 + d * 0x1_0000_0000_0000) as u64)
                % 0x1_0000) as u16 == a
            &&& ((((a + b * 0x1_0000 + c * 0x1_0000_0000 + d * 0x1_0000_0000_0000) as u64)
                / 0x1_0000) % 0x1_0000) as u16 == b
            &&& ((((a + b * 0x1_0000 + c * 0x1_0000_0000 + d * 0x1_0000_0000_0000) as u64)
                / 0x1_0000_0000) % 0x1_0000) as u16 == c
            &&& (((a + b * 0x1_0000 + c * 0x1_0000_0000 + d * 0x1_0000_0000_0000) as u64)
                / 0x1_0000_0000_0000) as u16 == d
            &&& (((w % 0x1_0000) as u16) + (((w / 0x1_0000) % 0x1_0000) as u16) * 0x1_0000 + (((
            w / 0x1_0000_0000) % 0x1_0000) as u16) * 0x1_0000_0000 + ((w
                / 0x1_0000_0000_0000) as u16) * 0x1_0000_0000_0000) as u64 == w
        }) by (bit_vector);
    }
}

impl Vec4<u8> {
    /// The unpacked components at the specification level: the four bytes
    /// of the word, least significant first.
    pub open spec fn unpack8_spec(v: u32) -> Vec4<u8> {
        Vec4 {
            x: (v % 0x100) as u8,
            y: ((v / 0x100) % 0x100) as u8,
            z: ((v / 0x1_0000) % 0x100) as u8,
            w: (v / 0x100_0000) as u8,
        }
    }

    /// The packed word at the specification level:
    /// `x + y * 2^8 + z * 2^16 + w * 2^24`.
    pub open spec fn pack_spec(v: Vec4<u8>) -> u32 {
        (v.x + v.y * 0x100 + v.z * 0x1_0000 + v.w * 0x100_0000) as u32
    }

    /// Unpacks a `u32` into four `u8` components.
    pub fn unpack8(v: u32) -> (r: Vec4<u8>)
        ensures
            r == Vec4::<u8>::unpack8_spec(v),
    {
        let r = Vec4 {
            x: (v & 0x0000_00FF) as u8,
            y: ((v & 0x0000_FF00) >> 8u32) as u8,
            z: ((v & 0x00FF_0000) >> 16u32) as u8,
            w: ((v & 0xFF00_0000) >> 24u32) as u8,
        };
        proof {
            assert({
                &&& (v & 0x0000_00FF) as u8 == (v % 0x100) as u8
                &&& ((v & 0x0000_FF00) >> 8u32) as u8 == ((v / 0x100) % 0x100) as u8
                &&& ((v & 0x00FF_0000) >> 16u32) as u8 == ((v / 0x1_0000) % 0x100) as u8
                &&& ((v & 0xFF00_0000) >> 24u32) as u8 == (v / 0x100_0000) as u8
            }) by (bit_vector);
        }
        r
    }

    /// Packs the components into a `u32`.
    pub fn pack(self) -> (r: u32)
        ensures
            r == Vec4::<u8>::pack_spec(self),
    {
        let r = (self.w as u32) << 24u32 | (self.z as u32) << 16u32 | (self.y as u32) << 8u32
            | (self.x as u32);
        proof {
            let x = self.x;
            let y = self.y;
            let z = self.z;
            let w = self.w;
            assert((w as u32) << 24u32 | (z as u32) << 16u32 | (y as u32) << 8u32 | (x as u32)
                == (x + y * 0x100 + z * 0x1_0000 + w * 0x100_0000) as u32) by (bit_vector);
        }
        r
    }

    /// Law: packing four bytes is the exact inverse of unpacking a 32-bit
    /// word, in both directions.
    pub proof fn lemma_pack_roundtrip(v: Vec4<u8>, w: u32)
        ensures
            Vec4::<u8>::unpack8_spec(Vec4::<u8>::pack_spec(v)) == v,
            Vec4::<u8>::pack_spec(Vec4::<u8>::unpack8_spec(w)) == w,
    {
        let a = v.x;
        let b = v.y;
        let c = v.z;
        let d = v.w;
        assert({
            &&& (((a + b * 0x100 + c * 0x1_0000 + d * 0x100_0000) as u32) % 0x100) as u8 == a
            &&& ((((a + b * 0x100 + c * 0x1_0000 + d * 0x100_0000) as u32) / 0x100)
                % 0x100) as u8 == b
            &&& ((((a + b * 0x100 + c * 0x1_0000 + d * 0x100_0000) as u32) / 0x1_0000)
                % 0x100) as u8 == c
            &&& (((a + b * 0x100 + c * 0x1_0000 + d * 0x100_0000) as u32) / 0x100_0000) as u8
                == d
            &&& (((w % 0x100) as u8) + (((w / 0x100) % 0x100) as u8) * 0x100 + (((w / 0x1_0000)
                % 0x100) as u8) * 0x1_0000 + ((w / 0x100_0000) as u8) * 0x100_0000) as u32 == w
        }) by (bit_vector);
    }
}

} // verus!
