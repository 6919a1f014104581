//! Disk values and the qcow2 header.
//!
//! A qcow2 file opens with a fixed big-endian header; the runtime interprets
//! exactly four of its fields — magic, version, `backing_file_offset` and
//! `backing_file_size` — plus the virtual size, and leaves every other
//! qcow2 operation to the external tool.  This module parses those fields
//! from bytes and recovers the optional backing-file path.

use vstd::prelude::*;
use vstd::utf8::*;

use crate::errors::{BoxliteError, BoxliteResult};

verus! {

/// The on-disk format of a disk image.
#[derive(Debug, Clone, Copy, PartialEq, Eq, Structural)]
pub enum DiskFormat {
    /// A raw ext4 filesystem image.
    Ext4,
    /// A qcow2 image, possibly with a backing file.
    Qcow2,
}

/// A disk image at a path.
#[derive(Debug, Clone)]
pub struct Disk {
    /// Where the image lies on disk.
    pub path: String,
    /// The on-disk format.
    pub format: DiskFormat,
    /// Whether the image outlives this handle.
    pub persistent: bool,
}

impl Disk {
    /// Make a handle for the disk image at `path`.
    pub fn new(path: String, format: DiskFormat, persistent: bool) -> (r: Disk)
        ensures
            r.path@ == path@,
            r.format == format,
            r.persistent == persistent,
    {
        Disk { path, format, persistent }
    }

    /// The path of the image.
    pub fn path(&self) -> (r: &String)
        ensures
            r@ == self.path@,
    {
        &self.path
    }

    /// The format of the image.
    pub fn format(&self) -> (r: DiskFormat)
        ensures
            r == self.format,
    {
        self.format
    }

    /// Whether the image outlives this handle.
    pub fn is_persistent(&self) -> (r: bool)
        ensures
            r == self.persistent,
    {
        self.persistent
    }

    /// Give up the handle without touching the file; the path remains.
    pub fn leak(self) -> (r: String)
        ensures
            r@ == self.path@,
    {
        self.path
    }
}

/// The value of eight big-endian bytes starting at `off`.
pub open spec fn spec_be_u64(b: Seq<u8>, off: int) -> int {
    b[off] * 0x100000000000000 + b[off + 1] * 0x1000000000000 + b[off + 2] * 0x10000000000 + b[off
        + 3] * 0x100000000 + b[off + 4] * 0x1000000 + b[off + 5] * 0x10000 + b[off + 6] * 0x100
        + b[off + 7]
}

/// The value of four big-endian bytes starting at `off`.
pub open spec fn spec_be_u32(b: Seq<u8>, off: int) -> int {
    b[off] * 0x1000000 + b[off + 1] * 0x10000 + b[off + 2] * 0x100 + b[off + 3]
}

/// The first four bytes are the qcow2 magic `Q F I 0xfb`.
pub open spec fn spec_qcow2_magic(b: Seq<u8>) -> bool {
    b.len() >= 4 && b[0] == 0x51u8 && b[1] == 0x46u8 && b[2] == 0x49u8 && b[3] == 0xfbu8
}

/// The byte sequence opens with a full, well-marked qcow2 header.
pub open spec fn spec_qcow2_header_ok(b: Seq<u8>) -> bool {
    b.len() >= 32 && spec_qcow2_magic(b)
}

/// The header fields the runtime interprets.
#[derive(Debug, Clone, Copy, PartialEq, Eq, Structural)]
pub struct Qcow2Header {
    /// Offset of the backing-file path inside the file; zero when none.
    pub backing_offset: u64,
    /// Length in bytes of the backing-file path; zero when none.
    pub backing_size: u32,
    /// The virtual size of the disk in bytes.
    pub virtual_size: u64,
}

/// Read eight big-endian bytes starting at `off`.
fn read_be_u64(b: &Vec<u8>, off: usize) -> (r: u64)
    requires
        off + 8 <= b@.len(),
    ensures
        r == spec_be_u64(b@, off as int),
{
    let n = b.len();
    (b[off] as u64) * 0x100000000000000 + (b[off + 1] as u64) * 0x1000000000000 + (b[off
        + 2] as u64) * 0x10000000000 + (b[off + 3] as u64) * 0x100000000 + (b[off + 4] as u64)
        * 0x1000000 + (b[off + 5] as u64) * 0x10000 + (b[off + 6] as u64) * 0x100 + (b[off
        + 7] as u64)
}

/// Read four big-endian bytes starting at `off`.
fn read_be_u32(b: &Vec<u8>, off: usize) -> (r: u32)
    requires
        off + 4 <= b@.len(),
    ensures
        r == spec_be_u32(b@, off as int),
{
    let n = b.len();
    (b[off] as u32) * 0x1000000 + (b[off + 1] as u32) * 0x10000 + (b[off + 2] as u32) * 0x100 + (
    b[off + 3] as u32)
}

/// Parse the fixed 32-byte prefix of a qcow2 file.
///
/// Succeeds exactly when at least 32 bytes are present and the magic
/// matches; the fields are then the big-endian values at their documented
/// offsets.
pub fn parse_qcow2_header(bytes: &Vec<u8>) -> (r: BoxliteResult<Qcow2Header>)
    ensures
        r is Ok <==> spec_qcow2_header_ok(bytes@),
        match r {
            Ok(h) => h.backing_offset == spec_be_u64(bytes@, 8) && h.backing_size == spec_be_u32(
                bytes@,
                16,
            ) && h.virtual_size == spec_be_u64(bytes@, 24),
            Err(e) => e is Storage,
        },
{
    if bytes.len() < 32 {
        return Err(BoxliteError::Storage(String::from_str("qcow2 header is truncated")));
    }
    if !(bytes[0] == 0x51 && bytes[1] == 0x46 && bytes[2] == 0x49 && bytes[3] == 0xfb) {
        return Err(BoxliteError::Storage(String::from_str("not a qcow2 image")));
    }
    let backing_offset = read_be_u64(bytes, 8);
    let backing_size = read_be_u32(bytes, 16);
    let virtual_size = read_be_u64(bytes, 24);
    Ok(Qcow2Header { backing_offset, backing_size, virtual_size })
}

/// Copy `v[from..to]` into a fresh vector.
fn bytes_slice(v: &Vec<u8>, from: usize, to: usize) -> (r: Vec<u8>)
    requires
        from <= to <= v@.len(),
    ensures
        r@ == v@.subrange(from as int, to as int),
{
    let mut out: Vec<u8> = Vec::new();
    let mut i: usize = from;
    while i < to
        invariant
            from <= i <= to <= v@.len(),
            out@ == v@.subrange(from as int, i as int),
        decreases to - i,
    {
        out.push(v[i]);
        proof {
            assert(out@ =~= v@.subrange(from as int, i + 1 as int));
        }
        i += 1;
    }
    out
}

/// The backing reference of a well-formed header is absent.
pub open spec fn spec_no_backing(b: Seq<u8>) -> bool {
    spec_be_u64(b, 8) == 0 || spec_be_u32(b, 16) == 0
}

/// The backing-path bytes lie inside the file.
pub open spec fn spec_backing_in_bounds(b: Seq<u8>) -> bool {
    spec_be_u64(b, 8) + spec_be_u32(b, 16) <= b.len()
}

/// The byte range holding the backing path of a qcow2 file.
pub open spec fn spec_backing_bytes(b: Seq<u8>) -> Seq<u8> {
    b.subrange(spec_be_u64(b, 8), spec_be_u64(b, 8) + spec_be_u32(b, 16))
}

/// Recover the backing-file path recorded in a qcow2 file, if any.
///
/// `bytes` is the contents of the file (a 32-byte prefix is enough when the
/// backing fields are zero).  Returns `Ok(None)` when the header records no
/// backing file; `Ok(Some(path))` when the recorded range lies inside
/// `bytes` and holds valid UTF-8; an error names what went wrong.
pub fn read_backing_path(bytes: &Vec<u8>) -> (r: BoxliteResult<Option<String>>)
    ensures
        match r {
            Ok(Some(p)) => spec_qcow2_header_ok(bytes@) && !spec_no_backing(bytes@)
                && spec_backing_in_bounds(bytes@) && encode_utf8(p@) == spec_backing_bytes(bytes@),
            Ok(None) => spec_qcow2_header_ok(bytes@) && spec_no_backing(bytes@),
            Err(e) => e is Storage && (!spec_qcow2_header_ok(bytes@) || (!spec_no_backing(bytes@)
                && (!spec_backing_in_bounds(bytes@) || !valid_utf8(spec_backing_bytes(bytes@))))),
        },
{
    let header = parse_qcow2_header(bytes)?;
    if header.backing_offset == 0 || header.backing_size == 0 {
        return Ok(None);
    }
    let len64 = bytes.len() as u64;
    if header.backing_offset > len64 || (header.backing_size as u64) > len64
        - header.backing_offset {
        return Err(BoxliteError::Storage(String::from_str("backing path is out of bounds")));
    }
    let from = header.backing_offset as usize;
    let to = from + header.backing_size as usize;
    let raw = bytes_slice(bytes, from, to);
    match crate::host::bytes_to_string(&raw) {
        Some(path) => Ok(Some(path)),
        None => Err(BoxliteError::Storage(String::from_str("backing path is not valid UTF-8"))),
    }
}

} // verus!
