//! The binary buffer layout shared with the GPU-side consumers.
//!
//! A region record is serialized field by field, little-endian, in this exact
//! order: `min_x`, `max_x`, `min_y`, `max_y` (four 4-byte values), the four
//! border radii as one 16-byte-aligned 4-component vector, then the eleven
//! visual parameters. The bounds occupy the first 16 bytes, so the radii
//! vector is naturally 16-byte aligned; 4 bytes of zero padding bring each
//! record to a stride of 80 bytes, a multiple of the vector alignment, so the
//! alignment survives across the elements of the region array.

use vstd::prelude::*;
use crate::region::{BorderRadii, ComputedBlurRegion};
use crate::settings::BlurRegionSettings;

verus! {

/// The serialized size of one region record, padding included.
pub const REGION_STRIDE: usize = 80;

/// The little-endian bytes of one 32-bit value.
pub open spec fn u32_le_bytes(x: u32) -> Seq<u8> {
    seq![
        (x & 0xff) as u8,
        ((x >> 8) & 0xff) as u8,
        ((x >> 16) & 0xff) as u8,
        ((x >> 24) & 0xff) as u8,
    ]
}

/// The 32-bit value the little-endian bytes `b0..b3` spell.
pub open spec fn u32_of_le_bytes(b0: u8, b1: u8, b2: u8, b3: u8) -> u32 {
    (b0 as u32) | (b1 as u32) << 8 | (b2 as u32) << 16 | (b3 as u32) << 24
}

/// Reading back the little-endian bytes of a value yields the value.
pub proof fn lemma_u32_le_round_trip(x: u32)
    ensures
        u32_of_le_bytes(
            (x & 0xff) as u8,
            ((x >> 8) & 0xff) as u8,
            ((x >> 16) & 0xff) as u8,
            ((x >> 24) & 0xff) as u8,
        ) == x,
{
    assert((((x & 0xff) as u8) as u32) | ((((x >> 8) & 0xff) as u8) as u32) << 8 | ((((x >> 16)
        & 0xff) as u8) as u32) << 16 | ((((x >> 24) & 0xff) as u8) as u32) << 24 == x)
        by (bit_vector);
}

/// The 80 bytes of one region record: bounds, radii vector, the eleven
/// visual parameters, then the alignment padding. Opaque because the term is
/// large; [`lemma_encode_region_len`] and [`lemma_region_round_trip`] state
/// what the rest of the crate needs.
#[verifier::opaque]
pub open spec fn spec_encode_region(r: ComputedBlurRegion) -> Seq<u8> {
    u32_le_bytes(r.min_x) + u32_le_bytes(r.max_x) + u32_le_bytes(r.min_y) + u32_le_bytes(r.max_y)
        + u32_le_bytes(r.border_radii.top_left) + u32_le_bytes(r.border_radii.top_right)
        + u32_le_bytes(r.border_radii.bottom_right) + u32_le_bytes(r.border_radii.bottom_left)
        + u32_le_bytes(r.settings.glass_brightness) + u32_le_bytes(r.settings.shadow_intensity)
        + u32_le_bytes(r.settings.rim_intensity) + u32_le_bytes(r.settings.rim_tightness)
        + u32_le_bytes(r.settings.black_opacity) + u32_le_bytes(r.settings.extra_brightness)
        + u32_le_bytes(r.settings.light_intensity) + u32_le_bytes(
        r.settings.displacement_falloff_start,
    ) + u32_le_bytes(r.settings.displacement_falloff_width) + u32_le_bytes(
        r.settings.specular_intensity,
    ) + u32_le_bytes(r.settings.reflection_shininess) + seq![0u8, 0u8, 0u8, 0u8]
}

/// The serialized region array: the records' bytes, record by record, in
/// sequence order.
pub open spec fn spec_encode_regions(rs: Seq<ComputedBlurRegion>) -> Seq<u8>
    decreases rs.len(),
{
    if rs.len() == 0 {
        Seq::<u8>::empty()
    } else {
        spec_encode_region(rs[0]) + spec_encode_regions(rs.drop_first())
    }
}

/// The value spelled by the four bytes at `off`.
pub open spec fn spec_read_u32(b: Seq<u8>, off: int) -> u32 {
    u32_of_le_bytes(b[off], b[off + 1], b[off + 2], b[off + 3])
}

/// The record the 80 bytes of one serialized region spell. Opaque because
/// the term is large; [`lemma_region_round_trip`] and [`read_region`] carry
/// its content.
#[verifier::opaque]
pub open spec fn spec_decode_region(b: Seq<u8>) -> ComputedBlurRegion {
    ComputedBlurRegion {
        min_x: spec_read_u32(b, 0),
        max_x: spec_read_u32(b, 4),
        min_y: spec_read_u32(b, 8),
        max_y: spec_read_u32(b, 12),
        border_radii: BorderRadii {
            top_left: spec_read_u32(b, 16),
            top_right: spec_read_u32(b, 20),
            bottom_right: spec_read_u32(b, 24),
            bottom_left: spec_read_u32(b, 28),
        },
        settings: BlurRegionSettings {
            glass_brightness: spec_read_u32(b, 32),
            shadow_intensity: spec_read_u32(b, 36),
            rim_intensity: spec_read_u32(b, 40),
            rim_tightness: spec_read_u32(b, 44),
            black_opacity: spec_read_u32(b, 48),
            extra_brightness: spec_read_u32(b, 52),
            light_intensity: spec_read_u32(b, 56),
            displacement_falloff_start: spec_read_u32(b, 60),
            displacement_falloff_width: spec_read_u32(b, 64),
            specular_intensity: spec_read_u32(b, 68),
            reflection_shininess: spec_read_u32(b, 72),
        },
    }
}

/// The records a serialized region array spells, 80 bytes at a time; a
/// trailing fragment shorter than one record spells nothing.
pub open spec fn spec_decode_regions(b: Seq<u8>) -> Seq<ComputedBlurRegion>
    decreases b.len(),
{
    if b.len() < 80 {
        Seq::<ComputedBlurRegion>::empty()
    } else {
        seq![spec_decode_region(b.subrange(0, 80))] + spec_decode_regions(
            b.subrange(80, b.len() as int),
        )
    }
}

/// A serialized record is exactly 80 bytes.
pub proof fn lemma_encode_region_len(r: ComputedBlurRegion)
    ensures
        spec_encode_region(r).len() == 80,
{
    reveal(spec_encode_region);
}

/// Decoding the 80 bytes of a record yields the record, field by field.
#[verifier::rlimit(100)]
pub proof fn lemma_region_round_trip(r: ComputedBlurRegion)
    ensures
        spec_encode_region(r).len() == 80,
        spec_decode_region(spec_encode_region(r)) == r,
{
    reveal(spec_encode_region);
    reveal(spec_decode_region);
    lemma_u32_le_round_trip(r.min_x);
    lemma_u32_le_round_trip(r.max_x);
    lemma_u32_le_round_trip(r.min_y);
    lemma_u32_le_round_trip(r.max_y);
    lemma_u32_le_round_trip(r.border_radii.top_left);
    lemma_u32_le_round_trip(r.border_radii.top_right);
    lemma_u32_le_round_trip(r.border_radii.bottom_right);
    lemma_u32_le_round_trip(r.border_radii.bottom_left);
    lemma_u32_le_round_trip(r.settings.glass_brightness);
    lemma_u32_le_round_trip(r.settings.shadow_intensity);
    lemma_u32_le_round_trip(r.settings.rim_intensity);
    lemma_u32_le_round_trip(r.settings.rim_tightness);
    lemma_u32_le_round_trip(r.settings.black_opacity);
    lemma_u32_le_round_trip(r.settings.extra_brightness);
    lemma_u32_le_round_trip(r.settings.light_intensity);
    lemma_u32_le_round_trip(r.settings.displacement_falloff_start);
    lemma_u32_le_round_trip(r.settings.displacement_falloff_width);
    lemma_u32_le_round_trip(r.settings.specular_intensity);
    lemma_u32_le_round_trip(r.settings.reflection_shininess);
}

/// Serialized region arrays grow by whole records: appending a record to the
/// sequence appends its 80 bytes to the serialization.
pub proof fn lemma_encode_regions_push(rs: Seq<ComputedBlurRegion>, r: ComputedBlurRegion)
    ensures
        spec_encode_regions(rs.push(r)) == spec_encode_regions(rs) + spec_encode_region(r),
    decreases rs.len(),
{
    if rs.len() == 0 {
        assert(rs.push(r).drop_first() =~= Seq::<ComputedBlurRegion>::empty());
        assert(rs.push(r)[0] == r);
        let c = spec_encode_region(r);
        assert(spec_encode_regions(rs.push(r)) == c + spec_encode_regions(
            Seq::<ComputedBlurRegion>::empty(),
        ));
        assert(spec_encode_regions(Seq::<ComputedBlurRegion>::empty()) =~= Seq::<u8>::empty());
        assert(spec_encode_regions(rs) =~= Seq::<u8>::empty());
        assert(c + Seq::<u8>::empty() =~= Seq::<u8>::empty() + c);
    } else {
        assert(rs.push(r).drop_first() =~= rs.drop_first().push(r));
        lemma_encode_regions_push(rs.drop_first(), r);
        let a = spec_encode_region(rs[0]);
        let b = spec_encode_regions(rs.drop_first());
        let c = spec_encode_region(r);
        assert(rs.push(r)[0] == rs[0]);
        assert(spec_encode_regions(rs.push(r)) == a + (b + c));
        assert(a + (b + c) =~= (a + b) + c);
    }
}

/// A serialized region array of `n` records is exactly `80 * n` bytes.
pub proof fn lemma_encode_regions_len(rs: Seq<ComputedBlurRegion>)
    ensures
        spec_encode_regions(rs).len() == 80 * rs.len(),
    decreases rs.len(),
{
    if rs.len() == 0 {
    } else {
        lemma_encode_region_len(rs[0]);
        lemma_encode_regions_len(rs.drop_first());
    }
}

/// Round-trip fidelity: decoding a serialized region array of any length
/// yields the source records, identical field by field.
pub proof fn lemma_regions_round_trip(rs: Seq<ComputedBlurRegion>)
    ensures
        spec_decode_regions(spec_encode_regions(rs)) == rs,
    decreases rs.len(),
{
    if rs.len() == 0 {
        assert(spec_decode_regions(spec_encode_regions(rs)) =~= rs);
    } else {
        let enc = spec_encode_regions(rs);
        let head = spec_encode_region(rs[0]);
        let tail = spec_encode_regions(rs.drop_first());
        lemma_region_round_trip(rs[0]);
        lemma_encode_regions_len(rs.drop_first());
        assert(enc == head + tail);
        assert(enc.subrange(0, 80) =~= head);
        assert(enc.subrange(80, enc.len() as int) =~= tail);
        lemma_regions_round_trip(rs.drop_first());
        assert(spec_decode_regions(enc) == seq![spec_decode_region(head)] + rs.drop_first());
        assert(seq![rs[0]] + rs.drop_first() =~= rs);
    }
}

/// Appends the little-endian bytes of `x`.
pub fn push_u32_le(out: &mut Vec<u8>, x: u32)
    ensures
        final(out)@ == old(out)@ + u32_le_bytes(x),
{
    out.push((x & 0xff) as u8);
    out.push(((x >> 8) & 0xff) as u8);
    out.push(((x >> 16) & 0xff) as u8);
    out.push(((x >> 24) & 0xff) as u8);
    assert(out@ =~= old(out)@ + u32_le_bytes(x));
}

/// Appends the 80 bytes of one region record.
#[verifier::rlimit(50)]
pub fn write_region(out: &mut Vec<u8>, r: &ComputedBlurRegion)
    ensures
        final(out)@ == old(out)@ + spec_encode_region(*r),
{
    proof {
        reveal(spec_encode_region);
    }
    push_u32_le(out, r.min_x);
    push_u32_le(out, r.max_x);
    push_u32_le(out, r.min_y);
    push_u32_le(out, r.max_y);
    push_u32_le(out, r.border_radii.top_left);
    push_u32_le(out, r.border_radii.top_right);
    push_u32_le(out, r.border_radii.bottom_right);
    push_u32_le(out, r.border_radii.bottom_left);
    push_u32_le(out, r.settings.glass_brightness);
    push_u32_le(out, r.settings.shadow_intensity);
    push_u32_le(out, r.settings.rim_intensity);
    push_u32_le(out, r.settings.rim_tightness);
    push_u32_le(out, r.settings.black_opacity);
    push_u32_le(out, r.settings.extra_brightness);
    push_u32_le(out, r.settings.light_intensity);
    push_u32_le(out, r.settings.displacement_falloff_start);
    push_u32_le(out, r.settings.displacement_falloff_width);
    push_u32_le(out, r.settings.specular_intensity);
    push_u32_le(out, r.settings.reflection_shininess);
    out.push(0u8);
    out.push(0u8);
    out.push(0u8);
    out.push(0u8);
    proof {
        reveal(spec_encode_region);
        assert(out@ =~= old(out)@ + spec_encode_region(*r));
    }
}

/// Serializes the region sequence verbatim, record by record, into the layout
/// the GPU-side consumers read.
pub fn serialize_blur_regions(regions: &Vec<ComputedBlurRegion>) -> (out: Vec<u8>)
    ensures
        out@ == spec_encode_regions(regions@),
        out@.len() == 80 * regions@.len(),
{
    let mut out: Vec<u8> = Vec::new();
    let mut i: usize = 0;
    while i < regions.len()
        invariant
            i <= regions.len(),
            out@ == spec_encode_regions(regions@.subrange(0, i as int)),
        decreases regions.len() - i,
    {
        write_region(&mut out, &regions[i]);
        proof {
            assert(regions@.subrange(0, (i + 1) as int) =~= regions@.subrange(0, i as int).push(
                regions@[i as int],
            ));
            lemma_encode_regions_push(regions@.subrange(0, i as int), regions@[i as int]);
        }
        i = i + 1;
    }
    proof {
        assert(regions@.subrange(0, regions@.len() as int) =~= regions@);
        lemma_encode_regions_len(regions@);
    }
    out
}

/// The value spelled by the four bytes at `off`.
pub fn read_u32_le(bytes: &Vec<u8>, off: usize) -> (r: u32)
    requires
        off + 4 <= bytes@.len(),
    ensures
        r == spec_read_u32(bytes@, off as int),
{
    let n = bytes.len();
    let b0 = bytes[off];
    let b1 = bytes[off + 1];
    let b2 = bytes[off + 2];
    let b3 = bytes[off + 3];
    (b0 as u32) | (b1 as u32) << 8 | (b2 as u32) << 16 | (b3 as u32) << 24
}

/// The record spelled by the 80 bytes at `off`.
#[verifier::rlimit(50)]
fn read_region(bytes: &Vec<u8>, off: usize) -> (r: ComputedBlurRegion)
    requires
        off + 80 <= bytes@.len(),
    ensures
        r == spec_decode_region(bytes@.subrange(off as int, off as int + 80)),
{
    let n = bytes.len();
    let r = ComputedBlurRegion {
        min_x: read_u32_le(bytes, off),
        max_x: read_u32_le(bytes, off + 4),
        min_y: read_u32_le(bytes, off + 8),
        max_y: read_u32_le(bytes, off + 12),
        border_radii: BorderRadii {
            top_left: read_u32_le(bytes, off + 16),
            top_right: read_u32_le(bytes, off + 20),
            bottom_right: read_u32_le(bytes, off + 24),
            bottom_left: read_u32_le(bytes, off + 28),
        },
        settings: BlurRegionSettings {
            glass_brightness: read_u32_le(bytes, off + 32),
            shadow_intensity: read_u32_le(bytes, off + 36),
            rim_intensity: read_u32_le(bytes, off + 40),
            rim_tightness: read_u32_le(bytes, off + 44),
            black_opacity: read_u32_le(bytes, off + 48),
            extra_brightness: read_u32_le(bytes, off + 52),
            light_intensity: read_u32_le(bytes, off + 56),
            displacement_falloff_start: read_u32_le(bytes, off + 60),
            displacement_falloff_width: read_u32_le(bytes, off + 64),
            specular_intensity: read_u32_le(bytes, off + 68),
            reflection_shininess: read_u32_le(bytes, off + 72),
        },
    };
    proof {
        reveal(spec_decode_region);
        let chunk = bytes@.subrange(off as int, off as int + 80);
        assert(forall|k: int| 0 <= k < 80 ==> chunk[k] == bytes@[off + k]);
    }
    r
}

/// Whole records append to a decoded sequence: decoding `b + chunk`, where
/// `b` is whole records and `chunk` is one record's bytes, decodes `b` and
/// then the chunk.
proof fn lemma_decode_regions_append_chunk(b: Seq<u8>, chunk: Seq<u8>)
    requires
        b.len() % 80 == 0,
        chunk.len() == 80,
    ensures
        spec_decode_regions(b + chunk) == spec_decode_regions(b).push(spec_decode_region(chunk)),
    decreases b.len(),
{
    if b.len() == 0 {
        let sub0 = (b + chunk).subrange(0, 80);
        let sub1 = (b + chunk).subrange(80, (b + chunk).len() as int);
        assert(sub0 =~= chunk);
        assert(sub1 =~= Seq::<u8>::empty());
        let dc = spec_decode_region(chunk);
        assert((b + chunk).len() == 80);
        assert(spec_decode_regions(b + chunk) == seq![spec_decode_region(sub0)]
            + spec_decode_regions(sub1));
        assert(spec_decode_regions(sub1) =~= Seq::<ComputedBlurRegion>::empty());
        assert(seq![dc] + Seq::<ComputedBlurRegion>::empty() =~= spec_decode_regions(b).push(dc));
    } else {
        assert(b.len() >= 80) by {
            assert(b.len() % 80 == 0 && b.len() > 0 ==> b.len() >= 80) by (nonlinear_arith);
        }
        let rest = b.subrange(80, b.len() as int);
        assert(rest.len() % 80 == 0) by {
            assert(b.len() % 80 == 0 && b.len() >= 80 ==> (b.len() - 80) % 80 == 0)
                by (nonlinear_arith);
        }
        lemma_decode_regions_append_chunk(rest, chunk);
        assert((b + chunk).subrange(0, 80) =~= b.subrange(0, 80));
        assert((b + chunk).subrange(80, (b + chunk).len() as int) =~= rest + chunk);
        let d0 = spec_decode_region(b.subrange(0, 80));
        let dc = spec_decode_region(chunk);
        assert(spec_decode_regions(b + chunk) == seq![d0] + spec_decode_regions(rest).push(dc));
        assert(spec_decode_regions(b) == seq![d0] + spec_decode_regions(rest));
        assert(seq![d0] + spec_decode_regions(rest).push(dc) =~= (seq![d0] + spec_decode_regions(
            rest,
        )).push(dc));
    }
}

/// Reads a serialized region array back into records. The byte length must be
/// a whole number of 80-byte records; anything else is rejected.
pub fn deserialize_blur_regions(bytes: &Vec<u8>) -> (r: Option<Vec<ComputedBlurRegion>>)
    ensures
        r is Some <==> bytes@.len() % 80 == 0,
        r matches Some(v) ==> v@ == spec_decode_regions(bytes@),
{
    let n = bytes.len();
    if n % 80 != 0 {
        return None;
    }
    let mut out: Vec<ComputedBlurRegion> = Vec::new();
    let mut off: usize = 0;
    while off < n
        invariant
            n == bytes@.len(),
            off <= n,
            off % 80 == 0,
            n % 80 == 0,
            out@ == spec_decode_regions(bytes@.subrange(0, off as int)),
        decreases n - off,
    {
        proof {
            assert(off % 80 == 0 && bytes@.len() % 80 == 0 && off < bytes@.len() ==> off + 80
                <= bytes@.len()) by (nonlinear_arith);
        }
        let record = read_region(bytes, off);
        out.push(record);
        proof {
            let prefix = bytes@.subrange(0, off as int);
            let chunk = bytes@.subrange(off as int, off as int + 80);
            assert(bytes@.subrange(0, off as int + 80) =~= prefix + chunk);
            lemma_decode_regions_append_chunk(prefix, chunk);
        }
        off = off + 80;
    }
    proof {
        assert(bytes@.subrange(0, bytes@.len() as int) =~= bytes@);
    }
    Some(out)
}

} // verus!
