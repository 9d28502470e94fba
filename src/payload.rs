//! The publish wire payload:
//! `u32_le descriptor_len | descriptor | u32_le archive_len | archive`.
//! The descriptor part is read first, so that it can be parsed before the
//! archive part is read. Bytes after the archive are not read.

use vstd::prelude::*;
use vstd::slice::{slice_subrange, slice_to_vec};

verus! {

/// The part of the payload that was being read when the data ran out.
#[derive(Clone, Copy, Debug, PartialEq, Eq, Structural)]
pub enum FramePart {
    DescriptorSize,
    Descriptor,
    ArchiveSize,
    Archive,
}

/// Why a payload could not be framed.
#[derive(Clone, Copy, Debug, PartialEq, Eq, Structural)]
pub enum PayloadError {
    /// The request carried no body at all.
    NoData,
    /// The body ended before the part named here was complete.
    Truncated(FramePart),
}

/// The little-endian 32-bit number held by the four bytes at `at`.
pub open spec fn le_u32_at(b: Seq<u8>, at: int) -> int {
    b[at] + 256 * b[at + 1] + 65536 * b[at + 2] + 16777216 * b[at + 3]
}

/// Length of the descriptor section, as the payload declares it.
pub open spec fn descriptor_len(b: Seq<u8>) -> int {
    le_u32_at(b, 0)
}

/// Where the descriptor section of a body ends and the archive part begins.
pub open spec fn descriptor_end(b: Seq<u8>) -> int {
    4 + descriptor_len(b)
}

/// The framing error of the descriptor part of a body, if any.
pub open spec fn descriptor_error(b: Seq<u8>) -> Option<FramePart> {
    if b.len() < 4 {
        Some(FramePart::DescriptorSize)
    } else if b.len() < descriptor_end(b) {
        Some(FramePart::Descriptor)
    } else {
        None
    }
}

/// The descriptor section of a body whose descriptor part is complete.
pub open spec fn descriptor_of(b: Seq<u8>) -> Seq<u8> {
    b.subrange(4, descriptor_end(b))
}

/// Length of the archive section whose length prefix starts at `at`.
pub open spec fn archive_len_at(b: Seq<u8>, at: int) -> int {
    le_u32_at(b, at)
}

/// The framing error of the archive part of a body that starts at `at`,
/// if any.
pub open spec fn archive_error_at(b: Seq<u8>, at: int) -> Option<FramePart> {
    if b.len() < at + 4 {
        Some(FramePart::ArchiveSize)
    } else if b.len() < at + 4 + archive_len_at(b, at) {
        Some(FramePart::Archive)
    } else {
        None
    }
}

/// The archive section of a body whose archive part starts at `at` and is
/// complete.
pub open spec fn archive_at(b: Seq<u8>, at: int) -> Seq<u8> {
    b.subrange(at + 4, at + 4 + archive_len_at(b, at))
}

fn read_le_u32(b: &[u8], at: usize) -> (r: usize)
    requires
        at + 4 <= b@.len(),
    ensures
        r == le_u32_at(b@, at as int),
{
    let v: u64 = b[at] as u64 + 256 * (b[at + 1] as u64) + 65536 * (b[at + 2] as u64)
        + 16777216 * (b[at + 3] as u64);
    v as usize
}

/// Reads the descriptor section of a request body: its bytes, and where the
/// archive part begins. The descriptor can then be parsed before the archive
/// part is looked at.
pub fn decode_descriptor(body: Option<&[u8]>) -> (r: Result<(Vec<u8>, usize), PayloadError>)
    ensures
        body.is_none() ==> r == Err::<(Vec<u8>, usize), PayloadError>(PayloadError::NoData),
        body.is_some() ==> match descriptor_error(body.unwrap()@) {
            Some(part) => r == Err::<(Vec<u8>, usize), PayloadError>(PayloadError::Truncated(part)),
            None => r.is_ok() && r.unwrap().0@ == descriptor_of(body.unwrap()@)
                && r.unwrap().1 == descriptor_end(body.unwrap()@),
        },
{
    let b = match body {
        None => return Err(PayloadError::NoData),
        Some(b) => b,
    };
    if b.len() < 4 {
        return Err(PayloadError::Truncated(FramePart::DescriptorSize));
    }
    let n = read_le_u32(b, 0);
    if b.len() - 4 < n {
        return Err(PayloadError::Truncated(FramePart::Descriptor));
    }
    let end = 4 + n;
    Ok((slice_to_vec(slice_subrange(b, 4, end)), end))
}

/// Reads the archive section of a request body, whose length prefix starts
/// at `at`.
pub fn decode_archive(body: &[u8], at: usize) -> (r: Result<Vec<u8>, PayloadError>)
    requires
        at <= body@.len(),
    ensures
        match archive_error_at(body@, at as int) {
            Some(part) => r == Err::<Vec<u8>, PayloadError>(PayloadError::Truncated(part)),
            None => r.is_ok() && r.unwrap()@ == archive_at(body@, at as int),
        },
{
    if body.len() - at < 4 {
        return Err(PayloadError::Truncated(FramePart::ArchiveSize));
    }
    let n = read_le_u32(body, at);
    let start = at + 4;
    if body.len() - start < n {
        return Err(PayloadError::Truncated(FramePart::Archive));
    }
    Ok(slice_to_vec(slice_subrange(body, start, start + n)))
}

} // verus!
