//! Binary glTF (GLB) container parsing.
//!
//! A GLB file is a 12-byte header (magic, version, total length)
//! followed by a sequence of chunks, each with an 8-byte header of its
//! own: a little-endian length and a type tag.  The JSON chunk carries
//! the scene description with its extensions, the BIN chunk the packed
//! buffers.  Truncated or unknown trailing chunks are ignored, as the
//! format asks.

use vstd::prelude::*;

verus! {

/// Chunk type tag of the JSON chunk ("JSON" as a little-endian word).
pub const CHUNK_TYPE_JSON: u32 = 0x4E4F534A;

/// Chunk type tag of the binary buffer chunk ("BIN\0" as a little-endian
/// word).
pub const CHUNK_TYPE_BIN: u32 = 0x004E4942;

/// Why a byte buffer was rejected as a GLB container.
#[derive(Clone, Copy, Debug, PartialEq, Eq, Structural)]
pub enum GlbError {
    /// Shorter than the 12-byte header.
    TooSmall,
    /// The first four bytes are not the "glTF" magic.
    BadMagic,
    /// A container version other than 2.
    UnsupportedVersion(u32),
}

/// The little-endian 32-bit word at `off`.
pub open spec fn le32(b: Seq<u8>, off: int) -> int {
    b[off] + 256 * (b[off + 1] + 256 * (b[off + 2] + 256 * b[off + 3]))
}

/// The first four bytes spell "glTF".
pub open spec fn has_gltf_magic(b: Seq<u8>) -> bool {
    &&& b.len() >= 4
    &&& b[0] == 0x67u8
    &&& b[1] == 0x6Cu8
    &&& b[2] == 0x54u8
    &&& b[3] == 0x46u8
}

/// The chunk walk from `off`: each complete chunk replaces the JSON or
/// BIN payload seen so far according to its type tag; a truncated chunk
/// header or body ends the walk.
pub open spec fn scan_chunks(b: Seq<u8>, off: int, json: Seq<u8>, bin: Seq<u8>) -> (Seq<u8>, Seq<
    u8,
>)
    decreases b.len() - off,
{
    if off < 0 || off >= b.len() || off + 8 > b.len() {
        (json, bin)
    } else {
        let chunk_len = le32(b, off);
        let chunk_type = le32(b, off + 4);
        let body = off + 8;
        if body + chunk_len > b.len() {
            (json, bin)
        } else {
            let payload = b.subrange(body, body + chunk_len);
            scan_chunks(
                b,
                body + chunk_len,
                if chunk_type == CHUNK_TYPE_JSON as int {
                    payload
                } else {
                    json
                },
                if chunk_type == CHUNK_TYPE_BIN as int {
                    payload
                } else {
                    bin
                },
            )
        }
    }
}

/// The JSON and BIN payloads of a well-formed GLB buffer.
pub open spec fn glb_payload_spec(b: Seq<u8>) -> (Seq<u8>, Seq<u8>) {
    scan_chunks(b, 12, Seq::empty(), Seq::empty())
}

/// Read the little-endian 32-bit word at `off`.
fn read_le32(bytes: &Vec<u8>, off: usize) -> (r: u32)
    requires
        off + 4 <= bytes@.len(),
    ensures
        r as int == le32(bytes@, off as int),
{
    let n: usize = bytes.len();
    proof {
        assert(off + 4 <= n);
    }
    let b0 = bytes[off] as u32;
    let b1 = bytes[off + 1] as u32;
    let b2 = bytes[off + 2] as u32;
    let b3 = bytes[off + 3] as u32;
    b0 + 256 * (b1 + 256 * (b2 + 256 * b3))
}

/// Copy the bytes of the half-open range `start..end`.
fn copy_range(bytes: &Vec<u8>, start: usize, end: usize) -> (out: Vec<u8>)
    requires
        start <= end <= bytes@.len(),
    ensures
        out@ == bytes@.subrange(start as int, end as int),
{
    let mut out: Vec<u8> = Vec::new();
    let mut i = start;
    while i < end
        invariant
            start <= i <= end <= bytes@.len(),
            out@ == bytes@.subrange(start as int, i as int),
        decreases end - i,
    {
        out.push(bytes[i]);
        proof {
            assert(bytes@.subrange(start as int, i as int + 1) =~= bytes@.subrange(
                start as int,
                i as int,
            ).push(bytes@[i as int]));
        }
        i = i + 1;
    }
    out
}

/// Parse a GLB container into its JSON and BIN payloads.
///
/// The header must carry the "glTF" magic and version 2; the chunk walk
/// then keeps the last complete JSON and BIN chunks, ignoring unknown
/// chunk types and anything truncated.
pub fn parse_glb(bytes: &Vec<u8>) -> (r: Result<(Vec<u8>, Vec<u8>), GlbError>)
    ensures
        match r {
            Ok(payload) => {
                &&& bytes@.len() >= 12
                &&& has_gltf_magic(bytes@)
                &&& le32(bytes@, 4) == 2
                &&& (payload.0@, payload.1@) == glb_payload_spec(bytes@)
            },
            Err(GlbError::TooSmall) => bytes@.len() < 12,
            Err(GlbError::BadMagic) => bytes@.len() >= 12 && !has_gltf_magic(bytes@),
            Err(GlbError::UnsupportedVersion(v)) => {
                &&& bytes@.len() >= 12
                &&& has_gltf_magic(bytes@)
                &&& le32(bytes@, 4) == v as int
                &&& v != 2
            },
        },
{
    if bytes.len() < 12 {
        return Err(GlbError::TooSmall);
    }
    if !(bytes[0] == 0x67 && bytes[1] == 0x6C && bytes[2] == 0x54 && bytes[3] == 0x46) {
        return Err(GlbError::BadMagic);
    }
    let version = read_le32(bytes, 4);
    if version != 2 {
        return Err(GlbError::UnsupportedVersion(version));
    }

    let mut offset: usize = 12;
    let mut json_data: Vec<u8> = Vec::new();
    let mut bin_data: Vec<u8> = Vec::new();

    while offset < bytes.len()
        invariant
            12 <= offset <= bytes@.len(),
            scan_chunks(bytes@, offset as int, json_data@, bin_data@) == glb_payload_spec(
                bytes@,
            ),
        ensures
            (json_data@, bin_data@) == glb_payload_spec(bytes@),
        decreases bytes@.len() - offset,
    {
        if bytes.len() - offset < 8 {
            break;
        }
        let chunk_length = read_le32(bytes, offset) as usize;
        let chunk_type = read_le32(bytes, offset + 4);
        let body = offset + 8;
        if chunk_length > bytes.len() - body {
            break;
        }
        let payload_end = body + chunk_length;
        if chunk_type == CHUNK_TYPE_JSON {
            json_data = copy_range(bytes, body, payload_end);
        } else if chunk_type == CHUNK_TYPE_BIN {
            bin_data = copy_range(bytes, body, payload_end);
        }
        offset = payload_end;
    }
    Ok((json_data, bin_data))
}

/// Why a byte buffer could not be taken apart as an avatar asset.
#[derive(Clone, Copy, Debug, PartialEq, Eq, Structural)]
pub enum ContainerError {
    /// The buffer announced the GLB magic but broke the GLB format.
    Glb(GlbError),
}

/// What taking a buffer apart yields: a GLB container gives its chunk
/// payloads; anything else is passed through whole as JSON text.
pub open spec fn container_payload_spec(b: Seq<u8>) -> Result<(Seq<u8>, Seq<u8>), ContainerError> {
    if has_gltf_magic(b) {
        if b.len() < 12 {
            Err(ContainerError::Glb(GlbError::TooSmall))
        } else if le32(b, 4) != 2 {
            Err(
                ContainerError::Glb(
                    GlbError::UnsupportedVersion(le32(b, 4) as u32),
                ),
            )
        } else {
            Ok(glb_payload_spec(b))
        }
    } else {
        Ok((b, Seq::empty()))
    }
}

/// Split an avatar asset buffer into JSON and binary payloads: GLB
/// containers are parsed chunk by chunk, anything else is taken to be
/// JSON glTF already.
pub fn container_payload(bytes: &Vec<u8>) -> (r: Result<(Vec<u8>, Vec<u8>), ContainerError>)
    ensures
        match (r, container_payload_spec(bytes@)) {
            (Ok(payload), Ok(expected)) => (payload.0@, payload.1@) == expected,
            (Err(e), Err(expected)) => e == expected,
            _ => false,
        },
{
    let is_glb = bytes.len() >= 4 && bytes[0] == 0x67 && bytes[1] == 0x6C && bytes[2] == 0x54
        && bytes[3] == 0x46;
    if is_glb {
        match parse_glb(bytes) {
            Ok(payload) => Ok(payload),
            Err(e) => Err(ContainerError::Glb(e)),
        }
    } else {
        let json = copy_range(bytes, 0, bytes.len());
        proof {
            assert(bytes@.subrange(0, bytes@.len() as int) =~= bytes@);
        }
        Ok((json, Vec::new()))
    }
}

} // verus!
