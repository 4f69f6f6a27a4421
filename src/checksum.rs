//! Desynchronisation detection: Fletcher-16 over a fixed little-endian
//! serialisation of each rollback body's numeric state.
use vstd::prelude::*;

verus! {

/// The running sums `(sum1, sum2)` of Fletcher-16 after reading `data`.
pub open spec fn fletcher_sums(data: Seq<u8>) -> (int, int)
    decreases data.len(),
{
    if data.len() == 0 {
        (0, 0)
    } else {
        let prev = fletcher_sums(data.drop_last());
        let s1 = (prev.0 + data.last() as int) % 255;
        let s2 = (prev.1 + s1) % 255;
        (s1, s2)
    }
}

/// Fletcher-16 of `data`: `sum2` in the high byte, `sum1` in the low byte.
pub open spec fn fletcher16_of(data: Seq<u8>) -> u16 {
    (fletcher_sums(data).1 * 256 + fletcher_sums(data).0) as u16
}

/// The four little-endian bytes of `x`.
pub open spec fn le_bytes(x: u32) -> Seq<u8> {
    seq![
        (x % 256) as u8,
        ((x / 256) % 256) as u8,
        ((x / 65536) % 256) as u8,
        (x / 16777216) as u8,
    ]
}

/// The little-endian bytes of each word of `words`, in order.
pub open spec fn le_words(words: Seq<u32>) -> Seq<u8>
    decreases words.len(),
{
    if words.len() == 0 {
        Seq::empty()
    } else {
        le_words(words.drop_last()) + le_bytes(words.last())
    }
}

proof fn lemma_sums_bounded(data: Seq<u8>)
    ensures
        0 <= fletcher_sums(data).0 < 255,
        0 <= fletcher_sums(data).1 < 255,
    decreases data.len(),
{
    if data.len() > 0 {
        lemma_sums_bounded(data.drop_last());
    }
}

/// Fletcher-16 checksum of `data`.
pub fn fletcher16(data: &[u8]) -> (r: u16)
    ensures
        r == fletcher16_of(data@),
{
    let mut sum1: u16 = 0;
    let mut sum2: u16 = 0;
    let mut i: usize = 0;
    while i < data.len()
        invariant
            i <= data@.len(),
            sum1 as int == fletcher_sums(data@.subrange(0, i as int)).0,
            sum2 as int == fletcher_sums(data@.subrange(0, i as int)).1,
            sum1 < 255,
            sum2 < 255,
        decreases data@.len() - i,
    {
        proof {
            assert(data@.subrange(0, i + 1).drop_last() =~= data@.subrange(0, i as int));
        }
        sum1 = (sum1 + data[i] as u16) % 255;
        sum2 = (sum2 + sum1) % 255;
        i += 1;
    }
    proof {
        assert(data@.subrange(0, data@.len() as int) =~= data@);
    }
    sum2 * 256 + sum1
}

/// Appends the four little-endian bytes of `x` to `out`.
pub fn push_le_bytes(out: &mut Vec<u8>, x: u32)
    ensures
        final(out)@ == old(out)@ + le_bytes(x),
{
    out.push((x % 256) as u8);
    out.push(((x / 256) % 256) as u8);
    out.push(((x / 65536) % 256) as u8);
    out.push((x / 16777216) as u8);
    proof {
        assert(final(out)@ =~= old(out)@ + le_bytes(x));
    }
}

/// Serialises `words` as consecutive little-endian 32-bit values.
pub fn serialize_words(words: &[u32]) -> (r: Vec<u8>)
    ensures
        r@ == le_words(words@),
{
    let mut out: Vec<u8> = Vec::new();
    let mut i: usize = 0;
    while i < words.len()
        invariant
            i <= words@.len(),
            out@ == le_words(words@.subrange(0, i as int)),
        decreases words@.len() - i,
    {
        proof {
            assert(words@.subrange(0, i + 1).drop_last() =~= words@.subrange(0, i as int));
        }
        push_le_bytes(&mut out, words[i]);
        i += 1;
    }
    proof {
        assert(words@.subrange(0, words@.len() as int) =~= words@);
    }
    out
}

/// The checksum of one rollback body, recomputed every frame.
#[derive(Clone, Copy, Debug, PartialEq, Eq, Structural, Default)]
pub struct Checksum {
    pub value: u16,
}

/// Raw bit patterns of a three-component float vector (`f32::to_bits`).
#[derive(Clone, Copy, Debug, PartialEq, Eq, Structural, Default)]
pub struct Vec3Bits {
    pub x: u32,
    pub y: u32,
    pub z: u32,
}

/// Raw bit patterns of a two-component float vector (`f32::to_bits`).
#[derive(Clone, Copy, Debug, PartialEq, Eq, Structural, Default)]
pub struct Vec2Bits {
    pub x: u32,
    pub y: u32,
}

/// The numeric state of a moving rollback body, as float bit patterns.
#[derive(Clone, Copy, Debug, PartialEq, Eq, Structural, Default)]
pub struct BodyBits {
    pub translation: Vec3Bits,
    pub vel: Vec2Bits,
    pub pos: Vec2Bits,
}

/// Field order of a body's serialisation: translation x, y, z, then
/// velocity x, y, then position x, y.
pub open spec fn body_words(b: BodyBits) -> Seq<u32> {
    seq![b.translation.x, b.translation.y, b.translation.z, b.vel.x, b.vel.y, b.pos.x, b.pos.y]
}

/// Field order of a transform-only serialisation: translation x, y, z.
pub open spec fn translation_words(t: Vec3Bits) -> Seq<u32> {
    seq![t.x, t.y, t.z]
}

fn body_checksum(b: &BodyBits) -> (r: Checksum)
    ensures
        r.value == fletcher16_of(le_words(body_words(*b))),
{
    let words: Vec<u32> = vec![
        b.translation.x,
        b.translation.y,
        b.translation.z,
        b.vel.x,
        b.vel.y,
        b.pos.x,
        b.pos.y,
    ];
    proof {
        assert(words@ =~= body_words(*b));
    }
    let bytes = serialize_words(words.as_slice());
    Checksum { value: fletcher16(bytes.as_slice()) }
}

/// Checksum of an attacker: its transform, velocity and position.
pub fn checksum_attackers(b: &BodyBits) -> (r: Checksum)
    ensures
        r.value == fletcher16_of(le_words(body_words(*b))),
{
    body_checksum(b)
}

/// Checksum of a cake: its transform, velocity and position.
pub fn checksum_cakes(b: &BodyBits) -> (r: Checksum)
    ensures
        r.value == fletcher16_of(le_words(body_words(*b))),
{
    body_checksum(b)
}

/// Checksum of the crosshair: its transform alone.
pub fn checksum_crosshair(t: &Vec3Bits) -> (r: Checksum)
    ensures
        r.value == fletcher16_of(le_words(translation_words(*t))),
{
    let words: Vec<u32> = vec![t.x, t.y, t.z];
    proof {
        assert(words@ =~= translation_words(*t));
    }
    let bytes = serialize_words(words.as_slice());
    Checksum { value: fletcher16(bytes.as_slice()) }
}

} // verus!
