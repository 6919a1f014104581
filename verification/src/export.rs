//! Portable box archives: export, import, and the manifest.
//!
//! An archive holds a manifest and the flattened, standalone disk images
//! of a stopped box.  The manifest records a SHA-256 checksum of each disk;
//! import re-verifies them and refuses archives newer than this runtime
//! understands.  The manifest is rendered to JSON here, character by
//! character, so its exact shape is part of the contracts.

use vstd::prelude::*;
use vstd::string::*;

use crate::errors::{BoxliteError, BoxliteResult};
use crate::host::{sha256_bytes, sha256_of};
use crate::strutil::{spec_dec, u64_to_dec};

verus! {

/// The newest archive version this runtime reads.
pub const MAX_SUPPORTED_VERSION: u32 = 2;

/// The version this runtime writes.
pub const ARCHIVE_VERSION: u32 = 2;

/// One lower-case hexadecimal digit.
pub open spec fn spec_hex_digit(d: int) -> char {
    if d == 0 {
        '0'
    } else if d == 1 {
        '1'
    } else if d == 2 {
        '2'
    } else if d == 3 {
        '3'
    } else if d == 4 {
        '4'
    } else if d == 5 {
        '5'
    } else if d == 6 {
        '6'
    } else if d == 7 {
        '7'
    } else if d == 8 {
        '8'
    } else if d == 9 {
        '9'
    } else if d == 10 {
        'a'
    } else if d == 11 {
        'b'
    } else if d == 12 {
        'c'
    } else if d == 13 {
        'd'
    } else if d == 14 {
        'e'
    } else {
        'f'
    }
}

/// The lower-case hexadecimal rendering of a byte sequence.
pub open spec fn spec_hex(bytes: Seq<u8>) -> Seq<char>
    decreases bytes.len(),
{
    if bytes.len() == 0 {
        Seq::empty()
    } else {
        spec_hex(bytes.drop_last()) + seq![
            spec_hex_digit((bytes.last() / 16) as int),
            spec_hex_digit((bytes.last() % 16) as int),
        ]
    }
}

/// One hexadecimal digit as an executable character.
fn hex_digit(d: u8) -> (r: char)
    requires
        d < 16,
    ensures
        r == spec_hex_digit(d as int),
{
    if d == 0 {
        '0'
    } else if d == 1 {
        '1'
    } else if d == 2 {
        '2'
    } else if d == 3 {
        '3'
    } else if d == 4 {
        '4'
    } else if d == 5 {
        '5'
    } else if d == 6 {
        '6'
    } else if d == 7 {
        '7'
    } else if d == 8 {
        '8'
    } else if d == 9 {
        '9'
    } else if d == 10 {
        'a'
    } else if d == 11 {
        'b'
    } else if d == 12 {
        'c'
    } else if d == 13 {
        'd'
    } else if d == 14 {
        'e'
    } else {
        'f'
    }
}

/// Render bytes in lower-case hexadecimal.
pub fn hex_lower(bytes: &Vec<u8>) -> (r: String)
    ensures
        r@ == spec_hex(bytes@),
{
    let n = bytes.len();
    let mut out = String::new();
    let mut i: usize = 0;
    while i < n
        invariant
            i <= n,
            n == bytes@.len(),
            out@ == spec_hex(bytes@.take(i as int)),
        decreases n - i,
    {
        let b = bytes[i];
        out.push(hex_digit(b / 16));
        out.push(hex_digit(b % 16));
        proof {
            assert(bytes@.take(i + 1 as int).drop_last() =~= bytes@.take(i as int));
            assert(bytes@.take(i + 1 as int).last() == bytes@[i as int]);
            assert(out@ =~= spec_hex(bytes@.take(i + 1 as int)));
        }
        i += 1;
    }
    proof {
        assert(bytes@.take(n as int) =~= bytes@);
    }
    out
}

/// The SHA-256 digest of a byte sequence, in lower-case hexadecimal.
pub fn sha256_hex(bytes: &Vec<u8>) -> (r: String)
    ensures
        r@ == spec_hex(sha256_of(bytes@)),
{
    hex_lower(&sha256_bytes(bytes))
}

/// The moment of an export, rendered for the manifest: RFC 3339 text of
/// at least 25 characters.
pub fn export_timestamp() -> (r: String)
    ensures
        r@.len() >= 25,
{
    crate::host::now_rfc3339()
}

/// The checksum string recorded for a disk: a marker and the digest in
/// hexadecimal.
pub open spec fn spec_disk_checksum(bytes: Seq<u8>) -> Seq<char> {
    "sha256:"@ + spec_hex(sha256_of(bytes))
}

/// Compute the checksum string of a disk image.
pub fn disk_checksum(bytes: &Vec<u8>) -> (r: String)
    ensures
        r@ == spec_disk_checksum(bytes@),
{
    let digest = sha256_bytes(bytes);
    String::from_str("sha256:").concat(hex_lower(&digest).as_str())
}

/// The manifest of one archive.
#[derive(Debug, Clone)]
pub struct ArchiveManifest {
    /// Archive format version.
    pub version: u32,
    /// The original box name, if any.
    pub box_name: Option<String>,
    /// The image reference behind the box.
    pub image: String,
    /// Checksum of the guest rootfs disk; empty when absent.
    pub guest_disk_checksum: String,
    /// Checksum of the container disk.
    pub container_disk_checksum: String,
    /// The export time, as RFC 3339 text.
    pub exported_at: String,
}

/// The escape of one character inside a JSON string.
pub open spec fn spec_json_escape_char(c: char) -> Seq<char> {
    if c == '"' {
        seq!['\\', '"']
    } else if c == '\\' {
        seq!['\\', '\\']
    } else if c == '\n' {
        seq!['\\', 'n']
    } else if c == '\r' {
        seq!['\\', 'r']
    } else if c == '\t' {
        seq!['\\', 't']
    } else if (c as int) < 32 {
        seq!['\\', 'u', '0', '0', spec_hex_digit(c as int / 16), spec_hex_digit(c as int % 16)]
    } else {
        seq![c]
    }
}

/// The escaped body of a JSON string.
pub open spec fn spec_json_escape(s: Seq<char>) -> Seq<char>
    decreases s.len(),
{
    if s.len() == 0 {
        Seq::empty()
    } else {
        spec_json_escape(s.drop_last()) + spec_json_escape_char(s.last())
    }
}

/// A JSON string literal for `s`.
pub open spec fn spec_json_string(s: Seq<char>) -> Seq<char> {
    seq!['"'] + spec_json_escape(s) + seq!['"']
}

/// Escape and quote a string for JSON.
pub fn json_string(s: &str) -> (r: String)
    ensures
        r@ == spec_json_string(s@),
{
    let n = s.unicode_len();
    let mut out = String::new();
    out.push('"');
    let mut i: usize = 0;
    while i < n
        invariant
            i <= n,
            n == s@.len(),
            out@ == seq!['"'] + spec_json_escape(s@.take(i as int)),
        decreases n - i,
    {
        let c = s.get_char(i);
        if c == '"' {
            out.push('\\');
            out.push('"');
        } else if c == '\\' {
            out.push('\\');
            out.push('\\');
        } else if c == '\n' {
            out.push('\\');
            out.push('n');
        } else if c == '\r' {
            out.push('\\');
            out.push('r');
        } else if c == '\t' {
            out.push('\\');
            out.push('t');
        } else if (c as u32) < 32 {
            out.push('\\');
            out.push('u');
            out.push('0');
            out.push('0');
            let code = c as u8;
            out.push(hex_digit(code / 16));
            out.push(hex_digit(code % 16));
        } else {
            out.push(c);
        }
        proof {
            assert(s@.take(i + 1 as int).drop_last() =~= s@.take(i as int));
            assert(s@.take(i + 1 as int).last() == s@[i as int]);
            assert(out@ =~= seq!['"'] + spec_json_escape(s@.take(i + 1 as int)));
        }
        i += 1;
    }
    proof {
        assert(s@.take(n as int) =~= s@);
    }
    out.push('"');
    proof {
        assert(out@ =~= spec_json_string(s@));
    }
    out
}

/// The manifest rendered as one JSON object, fields in a fixed order.
pub open spec fn spec_manifest_json(m: &ArchiveManifest) -> Seq<char> {
    "{\"version\":"@ + spec_dec(m.version as nat) + ",\"box_name\":"@ + (match m.box_name {
        Some(n) => spec_json_string(n@),
        None => "null"@,
    }) + ",\"image\":"@ + spec_json_string(m.image@) + ",\"guest_disk_checksum\":"@
        + spec_json_string(m.guest_disk_checksum@) + ",\"container_disk_checksum\":"@
        + spec_json_string(m.container_disk_checksum@) + ",\"exported_at\":"@ + spec_json_string(
        m.exported_at@,
    ) + "}"@
}

/// Render the manifest as JSON.
pub fn manifest_to_json(m: &ArchiveManifest) -> (r: String)
    ensures
        r@ == spec_manifest_json(m),
{
    let mut out = String::from_str("{\"version\":");
    out.append(u64_to_dec(m.version as u64).as_str());
    out.append(",\"box_name\":");
    match &m.box_name {
        Some(n) => out.append(json_string(n.as_str()).as_str()),
        None => out.append("null"),
    }
    out.append(",\"image\":");
    out.append(json_string(m.image.as_str()).as_str());
    out.append(",\"guest_disk_checksum\":");
    out.append(json_string(m.guest_disk_checksum.as_str()).as_str());
    out.append(",\"container_disk_checksum\":");
    out.append(json_string(m.container_disk_checksum.as_str()).as_str());
    out.append(",\"exported_at\":");
    out.append(json_string(m.exported_at.as_str()).as_str());
    out.append("}");
    proof {
        assert(out@ =~= spec_manifest_json(m));
    }
    out
}

/// Refuse an archive newer than this runtime reads.
pub fn check_archive_version(version: u32) -> (r: BoxliteResult<()>)
    ensures
        r is Ok <==> version <= MAX_SUPPORTED_VERSION,
        r matches Err(e) ==> e is Storage,
{
    if version > MAX_SUPPORTED_VERSION {
        Err(
            BoxliteError::Storage(
                String::from_str("unsupported archive version ").concat(
                    u64_to_dec(version as u64).as_str(),
                ).concat("; upgrade this runtime to read it"),
            ),
        )
    } else {
        Ok(())
    }
}

/// The output path of an export: `dest` itself when it names a file, or
/// `{dest}/{name}.boxsnap` when `dest` is a directory, with `box`
/// standing in for an unnamed box.
pub fn export_output_path(dest: &str, dest_is_dir: bool, box_name: &Option<String>) -> (r: String)
    ensures
        !dest_is_dir ==> r@ == dest@,
        dest_is_dir ==> r@ == dest@ + "/"@ + (match box_name {
            Some(n) => n@,
            None => "box"@,
        }) + ".boxsnap"@,
{
    if !dest_is_dir {
        return dest.to_owned();
    }
    let name: String = match box_name {
        Some(n) => n.clone(),
        None => String::from_str("box"),
    };
    dest.to_owned().concat("/").concat(name.as_str()).concat(".boxsnap")
}

/// A portable archive: the manifest and the flattened disk bytes.
#[derive(Debug, Clone)]
pub struct BoxArchive {
    /// The manifest.
    pub manifest: ArchiveManifest,
    /// The flattened, standalone container disk.
    pub container_disk: Vec<u8>,
    /// The flattened guest rootfs disk, when the box had one.
    pub guest_disk: Option<Vec<u8>>,
}

/// Build the archive of a stopped box from its flattened disks.
///
/// The manifest records the current archive version, the box's name and
/// image reference, a checksum of each disk — empty for an absent guest
/// disk — and the export time; the disk bytes go in unchanged.
pub fn export_archive(
    container_disk: Vec<u8>,
    guest_disk: Option<Vec<u8>>,
    box_name: Option<String>,
    image: String,
    exported_at: String,
) -> (r: BoxArchive)
    ensures
        r.manifest.version == ARCHIVE_VERSION,
        r.manifest.box_name == box_name,
        r.manifest.image == image,
        r.manifest.exported_at == exported_at,
        r.manifest.container_disk_checksum@ == spec_disk_checksum(container_disk@),
        match guest_disk {
            Some(g) => r.manifest.guest_disk_checksum@ == spec_disk_checksum(g@),
            None => r.manifest.guest_disk_checksum@.len() == 0,
        },
        r.container_disk == container_disk,
        r.guest_disk == guest_disk,
{
    let container_disk_checksum = disk_checksum(&container_disk);
    let guest_disk_checksum = match &guest_disk {
        Some(g) => disk_checksum(g),
        None => String::new(),
    };
    let manifest = ArchiveManifest {
        version: ARCHIVE_VERSION,
        box_name,
        image,
        guest_disk_checksum,
        container_disk_checksum,
        exported_at,
    };
    BoxArchive { manifest, container_disk, guest_disk }
}

/// What an import hands back: the disks to place in the new box's home
/// and the image reference to configure it with.
#[derive(Debug, Clone)]
pub struct ImportedBox {
    /// The container disk bytes, to stand at the new box's overlay path.
    pub container_disk: Vec<u8>,
    /// The guest rootfs disk bytes, when the archive held one.
    pub guest_disk: Option<Vec<u8>>,
    /// The image reference for the new box's configuration.
    pub image: String,
}

/// Import an archive: refuse unsupported versions, re-verify every
/// checksum, and hand the disks over byte for byte.
pub fn import_archive(archive: BoxArchive) -> (r: BoxliteResult<ImportedBox>)
    ensures
        r is Ok <==> archive.manifest.version <= MAX_SUPPORTED_VERSION
            && archive.manifest.container_disk_checksum@ == spec_disk_checksum(
            archive.container_disk@,
        ) && (match archive.guest_disk {
            Some(g) => archive.manifest.guest_disk_checksum@ == spec_disk_checksum(g@),
            None => true,
        }),
        match r {
            Ok(imported) => imported.container_disk == archive.container_disk
                && imported.guest_disk == archive.guest_disk && imported.image
                == archive.manifest.image,
            Err(e) => e is Storage,
        },
{
    check_archive_version(archive.manifest.version)?;
    let expected = disk_checksum(&archive.container_disk);
    if !crate::strutil::str_eq(
        expected.as_str(),
        archive.manifest.container_disk_checksum.as_str(),
    ) {
        return Err(
            BoxliteError::Storage(
                String::from_str("container disk checksum does not match the manifest"),
            ),
        );
    }
    if let Some(g) = &archive.guest_disk {
        let expected_guest = disk_checksum(g);
        if !crate::strutil::str_eq(
            expected_guest.as_str(),
            archive.manifest.guest_disk_checksum.as_str(),
        ) {
            return Err(
                BoxliteError::Storage(
                    String::from_str("guest disk checksum does not match the manifest"),
                ),
            );
        }
    }
    Ok(
        ImportedBox {
            container_disk: archive.container_disk,
            guest_disk: archive.guest_disk,
            image: archive.manifest.image,
        },
    )
}

/// The export/import round trip: importing the archive of a stopped box
/// yields byte-identical container and guest disks, the manifest's
/// checksums re-verify, and the image reference carries over.
pub proof fn lemma_export_import_round_trip(
    container_disk: Seq<u8>,
    guest_disk: Option<Seq<u8>>,
    archive: &BoxArchive,
    imported: &ImportedBox,
)
    requires
        archive.manifest.version == ARCHIVE_VERSION,
        archive.manifest.container_disk_checksum@ == spec_disk_checksum(container_disk),
        archive.container_disk@ == container_disk,
        match guest_disk {
            Some(g) => (archive.guest_disk matches Some(ag) && ag@ == g)
                && archive.manifest.guest_disk_checksum@ == spec_disk_checksum(g),
            None => archive.guest_disk is None,
        },
        imported.container_disk == archive.container_disk,
        imported.guest_disk == archive.guest_disk,
        imported.image == archive.manifest.image,
    ensures
        imported.container_disk@ == container_disk,
        match guest_disk {
            Some(g) => imported.guest_disk matches Some(ig) && ig@ == g,
            None => imported.guest_disk is None,
        },
        archive.manifest.version <= MAX_SUPPORTED_VERSION,
        archive.manifest.container_disk_checksum@ == spec_disk_checksum(
            imported.container_disk@,
        ),
{
}

} // verus!
