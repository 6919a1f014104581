//! Content-addressed disk caches.
//!
//! Two caches live under the runtime home: pure image disks, keyed by the
//! image digest, and guest rootfs disks, keyed by a version key that pairs
//! the image digest with the hash of the guest agent binary.  Entries are
//! immutable once installed; a build is staged in the temp directory and
//! published by a single rename, and garbage collection removes exactly the
//! entries that no box references and that no future box of the current
//! guest version will want.

use vstd::prelude::*;
use vstd::string::*;

use crate::disk::{Disk, DiskFormat};
use crate::errors::{BoxliteError, BoxliteResult};
use crate::host::path_exists;
use crate::strutil::{
    ends_with, skip_chars, spec_has_prefix, spec_has_suffix, starts_with, str_eq, take_chars,
    replace_char, vec_contains_str,
};

verus! {

/// The first twelve characters of `s`, or all of it when shorter.
pub open spec fn spec_short12(s: Seq<char>) -> Seq<char> {
    s.take(
        if s.len() < 12 {
            s.len() as int
        } else {
            12
        },
    )
}

/// `d` without a leading `sha256:` marker.
pub open spec fn spec_strip_sha256(d: Seq<char>) -> Seq<char> {
    if spec_has_prefix(d, "sha256:"@) {
        d.skip("sha256:"@.len() as int)
    } else {
        d
    }
}

/// The version key of a guest rootfs: twelve characters of the image digest
/// and twelve of the guest binary hash, joined by a dash.
pub open spec fn spec_version_key(digest: Seq<char>, guest_hash: Seq<char>) -> Seq<char> {
    spec_short12(spec_strip_sha256(digest)) + "-"@ + spec_short12(guest_hash)
}

/// The path of a guest rootfs cache entry.
pub open spec fn spec_rootfs_cache_path(cache_dir: Seq<char>, version_key: Seq<char>) -> Seq<
    char,
> {
    cache_dir + "/"@ + version_key + ".ext4"@
}

/// The file name of an image-disk cache entry: the digest with each `:`
/// replaced by `-`, then `.ext4`.
pub open spec fn spec_image_disk_path(cache_dir: Seq<char>, digest: Seq<char>) -> Seq<char> {
    cache_dir + "/"@ + digest.map_values(
        |c: char|
            if c == ':' {
                '-'
            } else {
                c
            },
    ) + ".ext4"@
}

/// Builds and caches versioned guest rootfs disks: a pure image disk plus
/// the injected guest agent binary.
pub struct GuestRootfsManager {
    /// The cache directory for guest rootfs entries.
    pub cache_dir: String,
    /// The staging directory, on the same filesystem as the cache.
    pub temp_dir: String,
}

/// Builds and caches pure ext4 image disks keyed by image digest.
pub struct ImageDiskManager {
    /// The cache directory for image disks.
    pub cache_dir: String,
    /// The staging directory, on the same filesystem as the cache.
    pub temp_dir: String,
}

impl GuestRootfsManager {
    /// Make a manager over the given directories.
    pub fn new(cache_dir: String, temp_dir: String) -> (r: GuestRootfsManager)
        ensures
            r.cache_dir@ == cache_dir@,
            r.temp_dir@ == temp_dir@,
    {
        GuestRootfsManager { cache_dir, temp_dir }
    }

    /// Compute the version key from an image digest and a guest binary hash.
    pub fn version_key(digest: &str, guest_hash: &str) -> (r: String)
        ensures
            r@ == spec_version_key(digest@, guest_hash@),
    {
        proof {
            reveal_strlit("sha256:");
        }
        let stripped: String = if starts_with(digest, "sha256:") {
            skip_chars(digest, 7)
        } else {
            digest.to_owned()
        };
        let d12 = take_chars(stripped.as_str(), 12);
        let g12 = take_chars(guest_hash, 12);
        let r = d12.concat("-").concat(g12.as_str());
        proof {
            assert(r@ =~= spec_version_key(digest@, guest_hash@));
        }
        r
    }

    /// The cache path of a version key.
    pub fn cache_path(&self, version_key: &str) -> (r: String)
        ensures
            r@ == spec_rootfs_cache_path(self.cache_dir@, version_key@),
    {
        self.cache_dir.clone().concat("/").concat(version_key).concat(".ext4")
    }

    /// Look up a cached guest rootfs by version key; the answer depends on
    /// what is on disk, but any hit lies at the entry's cache path.
    pub fn find(&self, version_key: &str) -> (r: Option<Disk>)
        ensures
            match r {
                Some(d) => d.path@ == spec_rootfs_cache_path(self.cache_dir@, version_key@)
                    && d.format == DiskFormat::Ext4 && d.persistent,
                None => true,
            },
    {
        let path = self.cache_path(version_key);
        if path_exists(path.as_str()) {
            Some(Disk::new(path, DiskFormat::Ext4, true))
        } else {
            None
        }
    }
}

impl ImageDiskManager {
    /// Make a manager over the given directories.
    pub fn new(cache_dir: String, temp_dir: String) -> (r: ImageDiskManager)
        ensures
            r.cache_dir@ == cache_dir@,
            r.temp_dir@ == temp_dir@,
    {
        ImageDiskManager { cache_dir, temp_dir }
    }

    /// The cache path of an image digest.
    pub fn disk_path(&self, digest: &str) -> (r: String)
        ensures
            r@ == spec_image_disk_path(self.cache_dir@, digest@),
    {
        let mangled = replace_char(digest, ':', '-');
        self.cache_dir.clone().concat("/").concat(mangled.as_str()).concat(".ext4")
    }

    /// Look up a cached image disk by digest; any hit lies at the digest's
    /// cache path.
    pub fn find(&self, digest: &str) -> (r: Option<Disk>)
        ensures
            match r {
                Some(d) => d.path@ == spec_image_disk_path(self.cache_dir@, digest@) && d.format
                    == DiskFormat::Ext4 && d.persistent,
                None => true,
            },
    {
        let path = self.disk_path(digest);
        if path_exists(path.as_str()) {
            Some(Disk::new(path, DiskFormat::Ext4, true))
        } else {
            None
        }
    }
}

/// The suffix that marks a cache entry as current: a dash, the first twelve
/// characters of the guest hash, and the extension.
pub open spec fn spec_current_suffix(guest_hash: Seq<char>) -> Seq<char> {
    "-"@ + spec_short12(guest_hash) + ".ext4"@
}

/// Compute the file-name suffix of current-version cache entries.
pub fn current_guest_suffix(guest_hash: &str) -> (r: String)
    ensures
        r@ == spec_current_suffix(guest_hash@),
{
    let g12 = take_chars(guest_hash, 12);
    let r = String::from_str("-").concat(g12.as_str()).concat(".ext4");
    proof {
        assert(r@ =~= spec_current_suffix(guest_hash@));
    }
    r
}

/// A cache entry may be deleted when no box references it and it does not
/// carry the current guest suffix.
pub open spec fn spec_gc_removable(
    entry: Seq<char>,
    referenced: Seq<Seq<char>>,
    suffix: Seq<char>,
) -> bool {
    !referenced.contains(entry) && !spec_has_suffix(entry, suffix)
}

/// Choose which cache entries garbage collection deletes.
///
/// `entries` are the paths in the cache directory, `referenced` the backing
/// paths read from the boxes' overlays, `current_suffix` the marker of the
/// current guest version.  The result holds exactly the removable entries.
pub fn gc_plan(entries: &Vec<String>, referenced: &Vec<String>, current_suffix: &str) -> (r: Vec<
    String,
>)
    ensures
        forall|i: int|
            0 <= i < r.deep_view().len() ==> entries.deep_view().contains(#[trigger] r.deep_view()[i])
                && spec_gc_removable(r.deep_view()[i], referenced.deep_view(), current_suffix@),
        forall|j: int|
            0 <= j < entries.deep_view().len() ==> (spec_gc_removable(
                #[trigger] entries.deep_view()[j],
                referenced.deep_view(),
                current_suffix@,
            ) ==> r.deep_view().contains(entries.deep_view()[j])),
{
    let n = entries.len();
    let mut out: Vec<String> = Vec::new();
    let mut k: usize = 0;
    while k < n
        invariant
            k <= n,
            n == entries@.len(),
            forall|i: int|
                0 <= i < out.deep_view().len() ==> entries.deep_view().contains(
                    #[trigger] out.deep_view()[i],
                ) && spec_gc_removable(
                    out.deep_view()[i],
                    referenced.deep_view(),
                    current_suffix@,
                ),
            forall|j: int|
                0 <= j < k ==> (spec_gc_removable(
                    #[trigger] entries.deep_view()[j],
                    referenced.deep_view(),
                    current_suffix@,
                ) ==> out.deep_view().contains(entries.deep_view()[j])),
        decreases n - k,
    {
        let entry = &entries[k];
        proof {
            assert(entries.deep_view()[k as int] == entries@[k as int]@);
        }
        let is_referenced = vec_contains_str(referenced, entry.as_str());
        let is_current = ends_with(entry.as_str(), current_suffix);
        if !is_referenced && !is_current {
            let ghost old_dv = out.deep_view();
            out.push(entry.clone());
            proof {
                assert(out.deep_view() =~= old_dv.push(entries.deep_view()[k as int]));
                assert(entries.deep_view().contains(entries.deep_view()[k as int]));
                assert forall|j: int|
                    0 <= j < k + 1 && spec_gc_removable(
                        entries.deep_view()[j],
                        referenced.deep_view(),
                        current_suffix@,
                    ) implies out.deep_view().contains(entries.deep_view()[j]) by {
                    if j == k {
                        assert(out.deep_view()[old_dv.len() as int] == entries.deep_view()[k as int]);
                    } else {
                        assert(old_dv.contains(entries.deep_view()[j]));
                        let w = choose|w: int|
                            0 <= w < old_dv.len() && old_dv[w] == entries.deep_view()[j];
                        assert(out.deep_view()[w] == entries.deep_view()[j]);
                    }
                }
            }
        } else {
            proof {
                assert(!spec_gc_removable(
                    entries.deep_view()[k as int],
                    referenced.deep_view(),
                    current_suffix@,
                ));
            }
        }
        k += 1;
    }
    out
}

/// The garbage-collection safety law: every cache entry that the plan
/// keeps is either referenced by some box or carries the current guest
/// suffix.
pub proof fn lemma_gc_keeps_only_live(
    entries: Seq<Seq<char>>,
    referenced: Seq<Seq<char>>,
    suffix: Seq<char>,
    removed: Seq<Seq<char>>,
)
    requires
        forall|j: int|
            0 <= j < entries.len() ==> (spec_gc_removable(#[trigger] entries[j], referenced, suffix)
                ==> removed.contains(entries[j])),
    ensures
        forall|j: int|
            0 <= j < entries.len() && !removed.contains(#[trigger] entries[j]) ==> (
            referenced.contains(entries[j]) || spec_has_suffix(entries[j], suffix)),
{
}

/// What to do after the guest binary found at run time has been hashed.
pub enum GuestInstallDecision {
    /// Build and install under this version key.
    Install(String),
    /// Another process already installed the entry for the actual key.
    UseExisting(String),
}

/// Decide how a guest rootfs build proceeds once the actual guest binary
/// hash is known.
///
/// When the actual key matches the expected one, the build proceeds under
/// it.  When they differ and a compile-time hash was embedded, the build
/// was made against a different guest binary and the runtime refuses with
/// an internal error.  Without an embedded hash the actual key wins: an
/// existing cache entry for it is reused, otherwise the build proceeds
/// under the actual key.
pub fn decide_guest_install(
    expected_key: &str,
    actual_key: &str,
    compile_time_hash_present: bool,
    actual_key_cached: bool,
) -> (r: BoxliteResult<GuestInstallDecision>)
    ensures
        match r {
            Ok(GuestInstallDecision::Install(k)) => k@ == actual_key@ && (actual_key@
                == expected_key@ || (!compile_time_hash_present && !actual_key_cached)),
            Ok(GuestInstallDecision::UseExisting(k)) => k@ == actual_key@ && actual_key@
                != expected_key@ && !compile_time_hash_present && actual_key_cached,
            Err(e) => e is Internal && actual_key@ != expected_key@ && compile_time_hash_present,
        },
{
    if str_eq(actual_key, expected_key) {
        return Ok(GuestInstallDecision::Install(actual_key.to_owned()));
    }
    if compile_time_hash_present {
        return Err(
            BoxliteError::Internal(
                String::from_str("guest binary hash mismatch: expected key ").concat(
                    expected_key,
                ).concat(" but actual key ").concat(actual_key).concat(
                    "; rebuild to fix the inconsistent build",
                ),
            ),
        );
    }
    if actual_key_cached {
        Ok(GuestInstallDecision::UseExisting(actual_key.to_owned()))
    } else {
        Ok(GuestInstallDecision::Install(actual_key.to_owned()))
    }
}

/// The path of a staged build inside the temp directory.
pub open spec fn spec_temp_file_path(temp_dir: Seq<char>, name: Seq<char>) -> Seq<char> {
    temp_dir + "/"@ + name
}

/// The install-atomicity law at the level of paths: when neither the cache
/// directory nor the temp directory lies inside the other, a staged build
/// writes only to a path outside the cache directory.  A reader of the
/// cache directory therefore never observes a partial entry; entries appear
/// only through the one rename that publishes a complete file.
pub proof fn lemma_staged_file_outside_cache(
    cache_dir: Seq<char>,
    temp_dir: Seq<char>,
    name: Seq<char>,
)
    requires
        !spec_has_prefix(temp_dir + "/"@, cache_dir + "/"@),
        !spec_has_prefix(cache_dir + "/"@, temp_dir + "/"@),
    ensures
        !spec_has_prefix(spec_temp_file_path(temp_dir, name), cache_dir + "/"@),
{
    let t = temp_dir + "/"@;
    let c = cache_dir + "/"@;
    let p = spec_temp_file_path(temp_dir, name);
    assert(p == t + name);
    if spec_has_prefix(p, c) {
        if c.len() <= t.len() {
            assert(t.subrange(0, c.len() as int) =~= p.subrange(0, c.len() as int));
            assert(spec_has_prefix(t, c));
        } else {
            assert(c.subrange(0, t.len() as int) =~= p.subrange(0, t.len() as int));
            assert(p.subrange(0, t.len() as int) =~= t);
            assert(spec_has_prefix(c, t));
        }
    }
}

/// A staged file is never a cache entry: its path differs from the cache
/// path of every version key.
pub proof fn lemma_staged_is_no_entry(
    cache_dir: Seq<char>,
    temp_dir: Seq<char>,
    name: Seq<char>,
    version_key: Seq<char>,
)
    requires
        !spec_has_prefix(temp_dir + "/"@, cache_dir + "/"@),
        !spec_has_prefix(cache_dir + "/"@, temp_dir + "/"@),
    ensures
        spec_temp_file_path(temp_dir, name) != spec_rootfs_cache_path(cache_dir, version_key),
{
    lemma_staged_file_outside_cache(cache_dir, temp_dir, name);
    let c = cache_dir + "/"@;
    let entry = spec_rootfs_cache_path(cache_dir, version_key);
    assert(entry.subrange(0, c.len() as int) =~= c);
    assert(spec_has_prefix(entry, c));
}

} // verus!
