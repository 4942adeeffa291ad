use cgm::prelude::{Vec2, Vec4};

#[test]
fn unpack_examples() {
    assert_eq!(Vec2 { x: 1u32, y: 2u32 }, Vec2::unpack32(0x0000_0002_0000_0001));
    assert_eq!(Vec2 { x: 1u16, y: 2u16 }, Vec2::unpack16(0x0002_0001));
    assert_eq!(Vec2 { x: 1u8, y: 2u8 }, Vec2::unpack8(0x02_01));
    assert_eq!(Vec4 { x: 1u16, y: 2u16, z: 3u16, w: 4u16 }, Vec4::unpack16(0x0004_0003_0002_0001));
    assert_eq!(Vec4 { x: 1u8, y: 2u8, z: 3u8, w: 4u8 }, Vec4::unpack8(0x04_03_02_01));
}

#[test]
fn pack_examples() {
    assert_eq!(Vec2::new(1u32, 2u32).pack(), 0x0000_0002_0000_0001u64);
    assert_eq!(Vec2::new(1u16, 2u16).pack(), 0x0002_0001u32);
    assert_eq!(Vec2::new(1u8, 2u8).pack(), 0x02_01u16);
    assert_eq!(Vec4::new(1u16, 2u16, 3u16, 4u16).pack(), 0x0004_0003_0002_0001u64);
    assert_eq!(Vec4::new(1u8, 2u8, 3u8, 4u8).pack(), 0x04_03_02_01u32);
}

#[test]
fn roundtrip_unpack32() {
    for w in [0u64, u64::MAX, 0x0123_4567_89AB_CDEF, 0xFFC0_8040_0000_0001] {
        assert_eq!(Vec2::unpack32(w).pack(), w);
    }
    for v in [
        Vec2::new(0u32, 0u32),
        Vec2::new(u32::MAX, u32::MAX),
        Vec2::new(0x89AB_CDEF, 0x0123_4567),
    ] {
        assert_eq!(Vec2::unpack32(v.pack()), v);
    }
}

#[test]
fn roundtrip_unpack16_two_lanes() {
    for w in [0u32, u32::MAX, 0x89AB_CDEF, 0xFFC0_8040] {
        assert_eq!(Vec2::unpack16(w).pack(), w);
    }
    for v in [Vec2::new(0u16, 0u16), Vec2::new(u16::MAX, u16::MAX), Vec2::new(0xCDEF, 0x89AB)] {
        assert_eq!(Vec2::unpack16(v.pack()), v);
    }
}

#[test]
fn roundtrip_unpack8_two_lanes() {
    for w in [0u16, u16::MAX, 0x8040, 0x01FF] {
        assert_eq!(Vec2::unpack8(w).pack(), w);
    }
    for v in [Vec2::new(0u8, 0u8), Vec2::new(u8::MAX, u8::MAX), Vec2::new(0x40, 0x80)] {
        assert_eq!(Vec2::unpack8(v.pack()), v);
    }
}

#[test]
fn roundtrip_unpack16_four_lanes() {
    for w in [0u64, u64::MAX, 0x0123_4567_89AB_CDEF, 0xFFFF_0000_8040_0001] {
        assert_eq!(Vec4::unpack16(w).pack(), w);
    }
    for v in [
        Vec4::new(0u16, 0u16, 0u16, 0u16),
        Vec4::new(u16::MAX, u16::MAX, u16::MAX, u16::MAX),
        Vec4::new(0xCDEF, 0x89AB, 0x4567, 0x0123),
    ] {
        assert_eq!(Vec4::unpack16(v.pack()), v);
    }
}

#[test]
fn roundtrip_unpack8_four_lanes() {
    for w in [0u32, u32::MAX, 0xFFC0_8040, 0x0102_0304] {
        assert_eq!(Vec4::unpack8(w).pack(), w);
    }
    for v in [
        Vec4::new(0u8, 0u8, 0u8, 0u8),
        Vec4::new(u8::MAX, u8::MAX, u8::MAX, u8::MAX),
        Vec4::new(0x40, 0x80, 0xC0, 0xFF),
    ] {
        assert_eq!(Vec4::unpack8(v.pack()), v);
    }
}

#[test]
fn unpack_is_little_endian_per_lane() {
    let v = Vec4::unpack8(0xFFC0_8040);
    assert_eq!(v, Vec4::new(0x40u8, 0x80u8, 0xC0u8, 0xFFu8));
    // The unpacked lanes, widened and scaled, give the normalized channel
    // values of the color the word encodes.
    let r = v.x as f32 / 255.0;
    let g = v.y as f32 / 255.0;
    let b = v.z as f32 / 255.0;
    let a = v.w as f32 / 255.0;
    assert_eq!(r, 64.0 / 255.0);
    assert_eq!(g, 128.0 / 255.0);
    assert_eq!(b, 192.0 / 255.0);
    assert_eq!(a, 1.0);
}
