//! Locating the render function in the host's loaded image.

use vstd::prelude::*;

use crate::scan::{find_pattern, matches_at};

verus! {

/// A code signature: bytes to look for and, for each, whether it must
/// match exactly (mask byte `0xFF`) or is a wildcard.
pub struct Signature {
    pub pattern: Vec<u8>,
    pub mask: Vec<u8>,
}

impl Signature {
    /// Pattern and mask are parallel and not empty.
    pub open spec fn wf(&self) -> bool {
        &&& self.pattern@.len() == self.mask@.len()
        &&& self.pattern@.len() > 0
    }
}

/// Entry bytes of the level render function.
pub open spec fn render_level_pattern() -> Seq<u8> {
    seq![
        0x48, 0x8B, 0xC4, 0x48, 0x89, 0x58, 0x00, 0x55, 0x56, 0x57, 0x41, 0x54,
        0x41, 0x55, 0x41, 0x56, 0x41, 0x57, 0x48, 0x8D, 0xA8, 0x00, 0x00, 0x00,
        0x00, 0x48, 0x81, 0xEC, 0x00, 0x00, 0x00, 0x00, 0x0F, 0x29, 0x70, 0x00,
        0x0F, 0x29, 0x78, 0x00, 0x44, 0x0F, 0x29, 0x40, 0x00, 0x44, 0x0F, 0x29,
        0x48, 0x00, 0x48, 0x8B, 0x05, 0x00, 0x00, 0x00, 0x00, 0x48, 0x33, 0xC4,
        0x48, 0x89, 0x85, 0x00, 0x00, 0x00, 0x00, 0x4D, 0x8B, 0xE8, 0x4C, 0x8B,
        0xE2, 0x4C, 0x8B, 0xF9,
    ]
}

/// Which entry bytes of the level render function are fixed; the others
/// hold addresses and frame sizes that change between builds.
pub open spec fn render_level_mask() -> Seq<u8> {
    seq![
        0xFF, 0xFF, 0xFF, 0xFF, 0xFF, 0xFF, 0x00, 0xFF, 0xFF, 0xFF, 0xFF, 0xFF,
        0xFF, 0xFF, 0xFF, 0xFF, 0xFF, 0xFF, 0xFF, 0xFF, 0xFF, 0x00, 0x00, 0x00,
        0x00, 0xFF, 0xFF, 0xFF, 0x00, 0x00, 0x00, 0x00, 0xFF, 0xFF, 0xFF, 0x00,
        0xFF, 0xFF, 0xFF, 0x00, 0xFF, 0xFF, 0xFF, 0xFF, 0x00, 0xFF, 0xFF, 0xFF,
        0xFF, 0x00, 0xFF, 0xFF, 0xFF, 0x00, 0x00, 0x00, 0x00, 0xFF, 0xFF, 0xFF,
        0xFF, 0xFF, 0xFF, 0x00, 0x00, 0x00, 0x00, 0xFF, 0xFF, 0xFF, 0xFF, 0xFF,
        0xFF, 0xFF, 0xFF, 0xFF,
    ]
}

/// The signature of the level render function's prologue.
pub fn render_level_signature() -> (r: Signature)
    ensures
        r.wf(),
        r.pattern@ == render_level_pattern(),
        r.mask@ == render_level_mask(),
{
    let pattern: Vec<u8> = vec![
        0x48, 0x8B, 0xC4, 0x48, 0x89, 0x58, 0x00, 0x55, 0x56, 0x57, 0x41, 0x54,
        0x41, 0x55, 0x41, 0x56, 0x41, 0x57, 0x48, 0x8D, 0xA8, 0x00, 0x00, 0x00,
        0x00, 0x48, 0x81, 0xEC, 0x00, 0x00, 0x00, 0x00, 0x0F, 0x29, 0x70, 0x00,
        0x0F, 0x29, 0x78, 0x00, 0x44, 0x0F, 0x29, 0x40, 0x00, 0x44, 0x0F, 0x29,
        0x48, 0x00, 0x48, 0x8B, 0x05, 0x00, 0x00, 0x00, 0x00, 0x48, 0x33, 0xC4,
        0x48, 0x89, 0x85, 0x00, 0x00, 0x00, 0x00, 0x4D, 0x8B, 0xE8, 0x4C, 0x8B,
        0xE2, 0x4C, 0x8B, 0xF9,
    ];
    let mask: Vec<u8> = vec![
        0xFF, 0xFF, 0xFF, 0xFF, 0xFF, 0xFF, 0x00, 0xFF, 0xFF, 0xFF, 0xFF, 0xFF,
        0xFF, 0xFF, 0xFF, 0xFF, 0xFF, 0xFF, 0xFF, 0xFF, 0xFF, 0x00, 0x00, 0x00,
        0x00, 0xFF, 0xFF, 0xFF, 0x00, 0x00, 0x00, 0x00, 0xFF, 0xFF, 0xFF, 0x00,
        0xFF, 0xFF, 0xFF, 0x00, 0xFF, 0xFF, 0xFF, 0xFF, 0x00, 0xFF, 0xFF, 0xFF,
        0xFF, 0x00, 0xFF, 0xFF, 0xFF, 0x00, 0x00, 0x00, 0x00, 0xFF, 0xFF, 0xFF,
        0xFF, 0xFF, 0xFF, 0x00, 0x00, 0x00, 0x00, 0xFF, 0xFF, 0xFF, 0xFF, 0xFF,
        0xFF, 0xFF, 0xFF, 0xFF,
    ];
    assert(pattern@ =~= render_level_pattern());
    assert(mask@ =~= render_level_mask());
    Signature { pattern, mask }
}

/// Offset, in the image's DOS header, of the field that locates the NT headers.
pub const NT_HEADERS_FIELD: usize = 0x3C;

/// Offset, from the NT headers, of the optional header's image-size field.
pub const SIZE_OF_IMAGE_FIELD: usize = 0x50;

/// The little-endian 32-bit number stored at `at`.
pub open spec fn le_u32(b: Seq<u8>, at: int) -> int {
    b[at] + b[at + 1] * 0x100 + b[at + 2] * 0x1_0000 + b[at + 3] * 0x100_0000
}

/// The declared image size that the headers `b` hold, when both fields lie
/// within `b` and the NT-header offset is not negative.
pub open spec fn image_size_spec(b: Seq<u8>) -> Option<int> {
    if b.len() >= NT_HEADERS_FIELD + 4 {
        let nt = le_u32(b, NT_HEADERS_FIELD as int);
        if nt < 0x8000_0000 && nt + SIZE_OF_IMAGE_FIELD + 4 <= b.len() {
            Some(le_u32(b, nt + SIZE_OF_IMAGE_FIELD))
        } else {
            None
        }
    } else {
        None
    }
}

/// Reads the little-endian 32-bit number at `at`.
pub fn read_le_u32(b: &[u8], at: usize) -> (r: u32)
    requires
        at + 4 <= b@.len(),
    ensures
        r == le_u32(b@, at as int),
{
    let v: u64 = b[at] as u64 + b[at + 1] as u64 * 0x100 + b[at + 2] as u64 * 0x1_0000 + b[at + 3] as u64
        * 0x100_0000;
    v as u32
}

/// Reads the declared size of a loaded module image from its first bytes
/// (DOS header, then the NT headers it points to).
pub fn image_size(headers: &[u8]) -> (r: Option<u32>)
    ensures
        match image_size_spec(headers@) {
            Some(n) => r == Some(n as u32),
            None => r is None,
        },
{
    if headers.len() < NT_HEADERS_FIELD + 4 {
        return None;
    }
    let nt = read_le_u32(headers, NT_HEADERS_FIELD);
    if nt >= 0x8000_0000 || nt as u64 + SIZE_OF_IMAGE_FIELD as u64 + 4 > headers.len() as u64 {
        return None;
    }
    Some(read_le_u32(headers, nt as usize + SIZE_OF_IMAGE_FIELD))
}

/// Finds where the signature starts in the image mapped at `base`, as an
/// absolute address: `base` plus the lowest matching offset.
pub fn locate_target(image: &[u8], base: usize, sig: &Signature) -> (r: Option<usize>)
    requires
        sig.wf(),
        base + image@.len() <= usize::MAX,
    ensures
        match r {
            Some(a) => base <= a && matches_at(image@, sig.pattern@, sig.mask@, a - base)
                && forall|k: int| 0 <= k < a - base ==> !matches_at(image@, sig.pattern@, sig.mask@, k),
            None => forall|k: int| !matches_at(image@, sig.pattern@, sig.mask@, k),
        },
{
    match find_pattern(image, sig.pattern.as_slice(), sig.mask.as_slice()) {
        Some(offset) => Some(base + offset),
        None => None,
    }
}

} // verus!
