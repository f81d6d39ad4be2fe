//! The header of an `.hkx` file: which pointer size (Skyrim LE or SE) it was written for.
//!
//! An `.hkx` binary starts with the magic bytes `57 E0 E0 57 10 C0 C0 10`; its byte 16
//! holds the pointer size: 4 for Skyrim LE (Win32), 8 for Skyrim SE (Amd64).
//! Havok tag files (`.hkt`, magic `1E 0D B0 CA CE FA 11 D0`) and XML tag files cannot be
//! converted, and are passed over: they count as already being in the target format. Any
//! other magic is refused.
use vstd::prelude::*;

use crate::config::OutPutTarget;

verus! {

/// Why an `.hkx` header was refused.
#[derive(Debug, Clone, Copy, PartialEq, Eq)]
pub enum HkxHeaderError {
    /// The magic bytes are not those of an `.hkx` file.
    InvalidMagic { target: OutPutTarget, magic_bytes: [u8; 17] },
    /// The header is too short (`actual` is its length) or its pointer size (`actual`) is
    /// neither 4 nor 8.
    InvalidHeader { target: OutPutTarget, actual: u8 },
}

/// The magic bytes of a Havok tag file.
pub open spec fn spec_tag_magic() -> Seq<u8> {
    seq![0x1Eu8, 0x0Du8, 0xB0u8, 0xCAu8, 0xCEu8, 0xFAu8, 0x11u8, 0xD0u8]
}

/// The magic bytes of an `.hkx` file.
pub open spec fn spec_hkx_magic() -> Seq<u8> {
    seq![0x57u8, 0xE0u8, 0xE0u8, 0x57u8, 0x10u8, 0xC0u8, 0xC0u8, 0x10u8]
}

/// The first 16 bytes of an XML tag file: `<?xml version="1`.
pub open spec fn spec_xml_tag_start() -> Seq<u8> {
    seq![
        0x3Cu8, 0x3Fu8, 0x78u8, 0x6Du8, 0x6Cu8, 0x20u8, 0x76u8, 0x65u8, 0x72u8, 0x73u8, 0x69u8,
        0x6Fu8, 0x6Eu8, 0x3Du8, 0x22u8, 0x31u8,
    ]
}

/// `bytes` begins with `prefix`.
pub open spec fn has_prefix(bytes: Seq<u8>, prefix: Seq<u8>) -> bool {
    prefix.len() <= bytes.len() && bytes.subrange(0, prefix.len() as int) == prefix
}

/// The format named by a pointer size byte.
pub open spec fn spec_ptr_size_format(ptr_size: u8) -> Option<OutPutTarget> {
    if ptr_size == 4 {
        Some(OutPutTarget::SkyrimLe)
    } else if ptr_size == 8 {
        Some(OutPutTarget::SkyrimSe)
    } else {
        None
    }
}

/// What [`check_header`] gives for the first 17 bytes of a file: a tag file counts as
/// being in `output_format`; an unknown magic and an unknown pointer size are refused.
pub open spec fn spec_check_header(header: [u8; 17], output_format: OutPutTarget) -> Result<
    OutPutTarget,
    HkxHeaderError,
> {
    let h = header@;
    if has_prefix(h, spec_tag_magic()) || has_prefix(h, spec_xml_tag_start()) {
        Ok(output_format)
    } else if !has_prefix(h, spec_hkx_magic()) {
        Err(HkxHeaderError::InvalidMagic { target: output_format, magic_bytes: header })
    } else {
        match spec_ptr_size_format(h[16]) {
            Some(f) => Ok(f),
            None => Err(HkxHeaderError::InvalidHeader { target: output_format, actual: h[16] }),
        }
    }
}

fn starts_with_bytes(bytes: &[u8], prefix: &[u8]) -> (r: bool)
    ensures
        r == has_prefix(bytes@, prefix@),
{
    if prefix.len() > bytes.len() {
        return false;
    }
    let mut i: usize = 0;
    while i < prefix.len()
        invariant
            prefix@.len() <= bytes@.len(),
            i <= prefix@.len(),
            forall|k: int| 0 <= k < i ==> #[trigger] bytes@[k] == prefix@[k],
        decreases prefix@.len() - i,
    {
        if bytes[i] != prefix[i] {
            return false;
        }
        i = i + 1;
    }
    assert(bytes@.subrange(0, prefix@.len() as int) =~= prefix@);
    true
}

fn tag_magic() -> (r: [u8; 8])
    ensures
        r@ == spec_tag_magic(),
{
    let r = [0x1Eu8, 0x0Du8, 0xB0u8, 0xCAu8, 0xCEu8, 0xFAu8, 0x11u8, 0xD0u8];
    assert(r@ =~= spec_tag_magic());
    r
}

fn hkx_magic() -> (r: [u8; 8])
    ensures
        r@ == spec_hkx_magic(),
{
    let r = [0x57u8, 0xE0u8, 0xE0u8, 0x57u8, 0x10u8, 0xC0u8, 0xC0u8, 0x10u8];
    assert(r@ =~= spec_hkx_magic());
    r
}

fn xml_tag_start() -> (r: [u8; 16])
    ensures
        r@ == spec_xml_tag_start(),
{
    let r = [
        0x3Cu8, 0x3Fu8, 0x78u8, 0x6Du8, 0x6Cu8, 0x20u8, 0x76u8, 0x65u8, 0x72u8, 0x73u8, 0x69u8,
        0x6Fu8, 0x6Eu8, 0x3Du8, 0x22u8, 0x31u8,
    ];
    assert(r@ =~= spec_xml_tag_start());
    r
}

fn ptr_size_format(ptr_size: u8) -> (r: Option<OutPutTarget>)
    ensures
        r == spec_ptr_size_format(ptr_size),
{
    if ptr_size == 4 {
        Some(OutPutTarget::SkyrimLe)
    } else if ptr_size == 8 {
        Some(OutPutTarget::SkyrimSe)
    } else {
        None
    }
}

/// Check the header of an `.hkx` file to determine the format it was written for.
///
/// A tag file is passed over: it gives `output_format`. An unknown magic and an unknown
/// pointer size are refused.
pub fn check_header(header: [u8; 17], output_format: OutPutTarget) -> (r: Result<
    OutPutTarget,
    HkxHeaderError,
>)
    ensures
        r == spec_check_header(header, output_format),
{
    let tag = tag_magic();
    let xml = xml_tag_start();
    let hkx = hkx_magic();
    if starts_with_bytes(&header, &tag) || starts_with_bytes(&header, &xml) {
        return Ok(output_format);
    }
    if !starts_with_bytes(&header, &hkx) {
        return Err(HkxHeaderError::InvalidMagic { target: output_format, magic_bytes: header });
    }
    match ptr_size_format(header[16]) {
        Some(f) => Ok(f),
        None => Err(HkxHeaderError::InvalidHeader { target: output_format, actual: header[16] }),
    }
}

/// Check the header of `.hkx` file bytes to determine the format they were written for.
///
/// A tag file is passed over: it gives `output_format`. Bytes shorter than a header, an
/// unknown magic and an unknown pointer size are refused.
pub fn check_hkx_header(bytes: &[u8], output_format: OutPutTarget) -> (r: Result<
    OutPutTarget,
    HkxHeaderError,
>)
    ensures
        bytes@.len() < 17 ==> r == Err::<OutPutTarget, HkxHeaderError>(
            HkxHeaderError::InvalidHeader { target: output_format, actual: bytes@.len() as u8 },
        ),
        bytes@.len() >= 17 && has_prefix(bytes@, spec_tag_magic()) ==> r == Ok::<
            OutPutTarget,
            HkxHeaderError,
        >(output_format),
        bytes@.len() >= 17 && !has_prefix(bytes@, spec_tag_magic()) && !has_prefix(
            bytes@,
            spec_hkx_magic(),
        ) ==> (r matches Err(HkxHeaderError::InvalidMagic { target, magic_bytes }) && target
            == output_format && magic_bytes@ == bytes@.subrange(0, 17)),
        bytes@.len() >= 17 && !has_prefix(bytes@, spec_tag_magic()) && has_prefix(
            bytes@,
            spec_hkx_magic(),
        ) ==> r == match spec_ptr_size_format(bytes@[16]) {
            Some(f) => Ok(f),
            None => Err(
                HkxHeaderError::InvalidHeader { target: output_format, actual: bytes@[16] },
            ),
        },
{
    if bytes.len() < 17 {
        return Err(
            HkxHeaderError::InvalidHeader { target: output_format, actual: bytes.len() as u8 },
        );
    }
    let mut header = [0u8; 17];
    let mut i: usize = 0;
    while i < 17
        invariant
            bytes@.len() >= 17,
            i <= 17,
            forall|k: int| 0 <= k < i ==> #[trigger] header@[k] == bytes@[k],
        decreases 17 - i,
    {
        header[i] = bytes[i];
        i = i + 1;
    }
    assert(header@ =~= bytes@.subrange(0, 17));
    let tag = tag_magic();
    let hkx = hkx_magic();
    if starts_with_bytes(bytes, &tag) {
        return Ok(output_format);
    }
    if !starts_with_bytes(bytes, &hkx) {
        return Err(HkxHeaderError::InvalidMagic { target: output_format, magic_bytes: header });
    }
    match ptr_size_format(bytes[16]) {
        Some(f) => Ok(f),
        None => Err(HkxHeaderError::InvalidHeader { target: output_format, actual: bytes[16] }),
    }
}

} // verus!
