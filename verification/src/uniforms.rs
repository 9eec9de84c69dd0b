//! Per-frame uniform payloads and their byte encoding.
//!
//! The staging and device buffers hold the mip-0 uniform payload as twelve
//! little-endian bytes: source width, source height, destination dimension.
//! Encoding and decoding are exact inverses, which is what makes the staged
//! value observable, byte-identical, on the device side after the copy.

use vstd::prelude::*;

verus! {

/// Uniforms for a further downsample stage (dimensions of the destination
/// mip and its index). Defined for later mip stages; the mip-0 pass below
/// does not use it.
#[derive(Clone, Copy, PartialEq, Eq, Debug)]
pub struct DepthPyramidUniforms {
    /// Power-of-two height of the destination mip (the texture is 1.5x wider).
    pub dimensions: u32,
    /// Index of the destination mip level.
    pub mip: u32,
}

/// Uniforms for the mip-0 generation pass.
#[derive(Clone, Copy, PartialEq, Eq, Debug)]
pub struct DepthPyramidMip0Uniforms {
    /// Width and height of the source depth image.
    pub src_dimensions: (u32, u32),
    /// Power-of-two height of mip 0 (the texture is 1.5x wider).
    pub dst_dimensions: u32,
}

/// Byte size of the encoded `DepthPyramidMip0Uniforms` payload.
pub const MIP0_UNIFORM_BYTES: u64 = 12;

/// The four little-endian bytes of `v`.
pub open spec fn u32_le(v: u32) -> Seq<u8> {
    seq![
        (v % 256) as u8,
        ((v / 256) % 256) as u8,
        ((v / 256 / 256) % 256) as u8,
        ((v / 256 / 256 / 256) % 256) as u8,
    ]
}

/// The value encoded by four little-endian bytes.
pub open spec fn u32_from_le(b0: u8, b1: u8, b2: u8, b3: u8) -> u32 {
    (b0 + 256 * (b1 + 256 * (b2 + 256 * (b3 as nat)))) as u32
}

/// Decoding the four little-endian bytes of `v` gives back `v`.
pub proof fn lemma_u32_le_round_trip(v: u32)
    ensures
        u32_from_le(u32_le(v)[0], u32_le(v)[1], u32_le(v)[2], u32_le(v)[3]) == v,
{
    let x0 = v as nat;
    let x1 = x0 / 256;
    let x2 = x1 / 256;
    let x3 = x2 / 256;
    assert(x0 == 256 * x1 + x0 % 256);
    assert(x1 == 256 * x2 + x1 % 256);
    assert(x2 == 256 * x3 + x2 % 256);
    assert(x3 < 256);
    assert(x3 % 256 == x3);
}

/// The encoded mip-0 uniform payload: source width, source height,
/// destination dimension, each as four little-endian bytes.
pub open spec fn mip0_uniform_bytes(u: DepthPyramidMip0Uniforms) -> Seq<u8> {
    u32_le(u.src_dimensions.0) + u32_le(u.src_dimensions.1) + u32_le(u.dst_dimensions)
}

/// The payload decoded from the first `MIP0_UNIFORM_BYTES` bytes of `b`.
pub open spec fn decode_mip0_spec(b: Seq<u8>) -> DepthPyramidMip0Uniforms
    recommends
        b.len() >= MIP0_UNIFORM_BYTES,
{
    DepthPyramidMip0Uniforms {
        src_dimensions: (
            u32_from_le(b[0], b[1], b[2], b[3]),
            u32_from_le(b[4], b[5], b[6], b[7]),
        ),
        dst_dimensions: u32_from_le(b[8], b[9], b[10], b[11]),
    }
}

/// Decoding an encoded payload gives back the payload.
pub proof fn lemma_mip0_round_trip(u: DepthPyramidMip0Uniforms)
    ensures
        decode_mip0_spec(mip0_uniform_bytes(u)) == u,
{
    lemma_u32_le_round_trip(u.src_dimensions.0);
    lemma_u32_le_round_trip(u.src_dimensions.1);
    lemma_u32_le_round_trip(u.dst_dimensions);
}

/// Appends the four little-endian bytes of `v` to `out`.
pub fn encode_u32_le(v: u32, out: &mut Vec<u8>)
    ensures
        final(out)@ == old(out)@ + u32_le(v),
{
    out.push((v % 256) as u8);
    out.push(((v / 256) % 256) as u8);
    out.push(((v / 256 / 256) % 256) as u8);
    out.push(((v / 256 / 256 / 256) % 256) as u8);
    assert(out@ =~= old(out)@ + u32_le(v));
}

/// Encodes the mip-0 uniform payload as `MIP0_UNIFORM_BYTES` bytes.
pub fn encode_mip0_uniforms(u: &DepthPyramidMip0Uniforms) -> (r: Vec<u8>)
    ensures
        r@ == mip0_uniform_bytes(*u),
        r@.len() == MIP0_UNIFORM_BYTES,
{
    let mut out: Vec<u8> = Vec::new();
    encode_u32_le(u.src_dimensions.0, &mut out);
    encode_u32_le(u.src_dimensions.1, &mut out);
    encode_u32_le(u.dst_dimensions, &mut out);
    assert(out@ =~= mip0_uniform_bytes(*u));
    out
}

/// Reads the `u32` encoded at `bytes[offset .. offset + 4]`.
pub fn decode_u32_le(bytes: &Vec<u8>, offset: usize) -> (v: u32)
    requires
        offset + 4 <= bytes@.len(),
    ensures
        v == u32_from_le(
            bytes@[offset as int],
            bytes@[offset + 1],
            bytes@[offset + 2],
            bytes@[offset + 3],
        ),
{
    let n: usize = bytes.len();
    assert(offset + 4 <= n);
    let b0 = bytes[offset] as u32;
    let b1 = bytes[offset + 1] as u32;
    let b2 = bytes[offset + 2] as u32;
    let b3 = bytes[offset + 3] as u32;
    b0 + 256 * b1 + 65536 * b2 + 16777216 * b3
}

/// Decodes the mip-0 uniform payload from the front of `bytes`.
pub fn decode_mip0_uniforms(bytes: &Vec<u8>) -> (u: DepthPyramidMip0Uniforms)
    requires
        bytes@.len() >= MIP0_UNIFORM_BYTES,
    ensures
        u == decode_mip0_spec(bytes@),
{
    let src_w = decode_u32_le(bytes, 0);
    let src_h = decode_u32_le(bytes, 4);
    let dst = decode_u32_le(bytes, 8);
    DepthPyramidMip0Uniforms { src_dimensions: (src_w, src_h), dst_dimensions: dst }
}

} // verus!
