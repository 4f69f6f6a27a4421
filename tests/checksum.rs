use janitor_sim::checksum::{
    checksum_attackers, checksum_cakes, checksum_crosshair, fletcher16, push_le_bytes,
    serialize_words, BodyBits, Vec2Bits, Vec3Bits,
};

fn body(t: [f32; 3], v: [f32; 2], p: [f32; 2]) -> BodyBits {
    BodyBits {
        translation: Vec3Bits { x: t[0].to_bits(), y: t[1].to_bits(), z: t[2].to_bits() },
        vel: Vec2Bits { x: v[0].to_bits(), y: v[1].to_bits() },
        pos: Vec2Bits { x: p[0].to_bits(), y: p[1].to_bits() },
    }
}

#[test]
fn fletcher16_known_values() {
    assert_eq!(fletcher16(b"abcde"), 51440);
    assert_eq!(fletcher16(b"abcdef"), 8279);
    assert_eq!(fletcher16(b"abcdefgh"), 1575);
}

#[test]
fn fletcher16_empty_is_zero() {
    assert_eq!(fletcher16(&[]), 0);
}

#[test]
fn fletcher16_sums_wrap_at_255() {
    // 255 reads as 0 in both sums
    assert_eq!(fletcher16(&[255, 255, 255]), 0);
    assert_eq!(fletcher16(&[254, 1]), 254 << 8);
    assert_eq!(fletcher16(&[1, 254]), 1 << 8);
}

#[test]
fn le_bytes_order() {
    let mut out = vec![9u8];
    push_le_bytes(&mut out, 0x0403_0201);
    assert_eq!(out, vec![9, 1, 2, 3, 4]);
    assert_eq!(serialize_words(&[1.0f32.to_bits(), 7]), vec![0, 0, 0x80, 0x3f, 7, 0, 0, 0]);
}

#[test]
fn attacker_checksum_exact() {
    let b = body([1.0, 0.0, 0.0], [0.0, 0.0], [0.0, 0.0]);
    assert_eq!(checksum_attackers(&b).value, 15039);
    let b = body([0.0, -100.0, 2.0], [0.0, -3.5], [0.0, -100.0]);
    assert_eq!(checksum_attackers(&b).value, 24184);
    assert_eq!(checksum_cakes(&b).value, 24184);
}

#[test]
fn crosshair_checksum_exact() {
    let t = Vec3Bits { x: 0.0f32.to_bits(), y: 0.0f32.to_bits(), z: 6.0f32.to_bits() };
    assert_eq!(checksum_crosshair(&t).value, 49409);
}

#[test]
fn checksum_sees_every_field() {
    let base = body([1.0, 2.0, 3.0], [4.0, 5.0], [6.0, 7.0]);
    let c = checksum_attackers(&base).value;
    let mut moved = base;
    moved.pos.y = 7.5f32.to_bits();
    assert_ne!(checksum_attackers(&moved).value, c);
    let mut faster = base;
    faster.vel.x = 4.5f32.to_bits();
    assert_ne!(checksum_attackers(&faster).value, c);
}
