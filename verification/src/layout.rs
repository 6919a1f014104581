//! Canonical path computation for every on-disk artifact.
//!
//! The layout is the single source of truth for paths: every component
//! asks it where an artifact lies instead of concatenating strings itself.
//! All artifacts live under one runtime home:
//! boxes under `boxes/{box_id}/`, image disks under `images/disk-images/`,
//! guest rootfs entries under `rootfs/`, staging under `tmp/`, and the
//! state store under `db/`.

use vstd::prelude::*;
use vstd::string::*;

use crate::errors::{BoxliteError, BoxliteResult};

verus! {

/// The longest unix-socket path accepted on every supported platform:
/// `sun_path` holds 104 bytes on macOS, including the terminating NUL.
pub const MAX_SOCKET_PATH: usize = 103;

/// The per-box directory under a runtime home.
pub open spec fn spec_box_home(home_dir: Seq<char>, box_id: Seq<char>) -> Seq<char> {
    home_dir + "/boxes/"@ + box_id
}

/// The RPC socket of a box.
pub open spec fn spec_unix_socket_path(home_dir: Seq<char>, box_id: Seq<char>) -> Seq<char> {
    spec_box_home(home_dir, box_id) + "/sockets/box.sock"@
}

/// The per-box directory under a runtime home.
pub fn box_home(home_dir: &str, box_id: &str) -> (r: String)
    ensures
        r@ == spec_box_home(home_dir@, box_id@),
{
    home_dir.to_owned().concat("/boxes/").concat(box_id)
}

/// The RPC socket of a box.
pub fn unix_socket_path(home_dir: &str, box_id: &str) -> (r: String)
    ensures
        r@ == spec_unix_socket_path(home_dir@, box_id@),
{
    box_home(home_dir, box_id).concat("/sockets/box.sock")
}

/// Reject a socket path that would not fit `sun_path` on every supported
/// platform.  The kernel bound is in bytes, so the path's UTF-8 encoding
/// is what must fit: accepts exactly the paths of at most
/// [`MAX_SOCKET_PATH`] bytes; longer ones fail with a configuration error
/// instead of being silently truncated.
pub fn check_socket_path(path: &str) -> (r: BoxliteResult<()>)
    ensures
        r is Ok <==> vstd::utf8::encode_utf8(path@).len() <= MAX_SOCKET_PATH,
        r matches Err(e) ==> e is Config,
{
    let encoded = path.as_bytes();
    proof {
        assert(encoded@ == vstd::utf8::encode_utf8(path@));
    }
    if encoded.len() <= MAX_SOCKET_PATH {
        Ok(())
    } else {
        Err(
            BoxliteError::Config(
                String::from_str("socket path is too long for sun_path: ").concat(path).concat(
                    "; use a shorter runtime home",
                ),
            ),
        )
    }
}

/// Path computation rooted at a runtime home.
#[derive(Debug, Clone)]
pub struct FilesystemLayout {
    /// The runtime home directory.
    pub home_dir: String,
}

impl FilesystemLayout {
    /// A layout rooted at `home_dir`.
    pub fn new(home_dir: String) -> (r: FilesystemLayout)
        ensures
            r.home_dir@ == home_dir@,
    {
        FilesystemLayout { home_dir }
    }

    /// The directory holding every box.
    pub fn boxes_dir(&self) -> (r: String)
        ensures
            r@ == self.home_dir@ + "/boxes"@,
    {
        self.home_dir.clone().concat("/boxes")
    }

    /// The image-disk cache directory.
    pub fn images_dir(&self) -> (r: String)
        ensures
            r@ == self.home_dir@ + "/images/disk-images"@,
    {
        self.home_dir.clone().concat("/images/disk-images")
    }

    /// The guest-rootfs cache directory.
    pub fn rootfs_dir(&self) -> (r: String)
        ensures
            r@ == self.home_dir@ + "/rootfs"@,
    {
        self.home_dir.clone().concat("/rootfs")
    }

    /// The state-store directory.
    pub fn db_dir(&self) -> (r: String)
        ensures
            r@ == self.home_dir@ + "/db"@,
    {
        self.home_dir.clone().concat("/db")
    }

    /// The staging directory, on the same filesystem as the caches.
    pub fn temp_dir(&self) -> (r: String)
        ensures
            r@ == self.home_dir@ + "/tmp"@,
    {
        self.home_dir.clone().concat("/tmp")
    }

    /// The shim log file.
    pub fn shim_log_path(&self) -> (r: String)
        ensures
            r@ == self.home_dir@ + "/logs/boxlite-shim.log"@,
    {
        self.home_dir.clone().concat("/logs/boxlite-shim.log")
    }

    /// The layout of one box's directory.
    pub fn box_layout(&self, box_id: &str) -> (r: BoxFilesystemLayout)
        ensures
            r.box_dir@ == spec_box_home(self.home_dir@, box_id@),
    {
        BoxFilesystemLayout { box_dir: box_home(self.home_dir.as_str(), box_id) }
    }
}

/// Path computation inside one box's directory.
#[derive(Debug, Clone)]
pub struct BoxFilesystemLayout {
    /// The box's directory.
    pub box_dir: String,
}

impl BoxFilesystemLayout {
    /// A layout rooted at a box directory.
    pub fn new(box_dir: String) -> (r: BoxFilesystemLayout)
        ensures
            r.box_dir@ == box_dir@,
    {
        BoxFilesystemLayout { box_dir }
    }

    /// The container overlay disk.
    pub fn container_disk_path(&self) -> (r: String)
        ensures
            r@ == self.box_dir@ + "/container.qcow2"@,
    {
        self.box_dir.clone().concat("/container.qcow2")
    }

    /// The guest-rootfs overlay disk.
    pub fn guest_rootfs_disk_path(&self) -> (r: String)
        ensures
            r@ == self.box_dir@ + "/guest-rootfs.qcow2"@,
    {
        self.box_dir.clone().concat("/guest-rootfs.qcow2")
    }

    /// The directory holding the box's sockets.
    pub fn sockets_dir(&self) -> (r: String)
        ensures
            r@ == self.box_dir@ + "/sockets"@,
    {
        self.box_dir.clone().concat("/sockets")
    }

    /// The RPC socket.
    pub fn box_socket_path(&self) -> (r: String)
        ensures
            r@ == self.box_dir@ + "/sockets/box.sock"@,
    {
        self.box_dir.clone().concat("/sockets/box.sock")
    }

    /// The ready-handshake socket.
    pub fn ready_socket_path(&self) -> (r: String)
        ensures
            r@ == self.box_dir@ + "/sockets/ready.sock"@,
    {
        self.box_dir.clone().concat("/sockets/ready.sock")
    }

    /// The directory holding the box's logs.
    pub fn logs_dir(&self) -> (r: String)
        ensures
            r@ == self.box_dir@ + "/logs"@,
    {
        self.box_dir.clone().concat("/logs")
    }

    /// The guest console log.
    pub fn console_output_path(&self) -> (r: String)
        ensures
            r@ == self.box_dir@ + "/logs/console.log"@,
    {
        self.box_dir.clone().concat("/logs/console.log")
    }

    /// The exit file the shim reports through.
    pub fn exit_file_path(&self) -> (r: String)
        ensures
            r@ == self.box_dir@ + "/logs/exit.json"@,
    {
        self.box_dir.clone().concat("/logs/exit.json")
    }

    /// The directory holding the box's snapshots.
    pub fn snapshots_dir(&self) -> (r: String)
        ensures
            r@ == self.box_dir@ + "/snapshots"@,
    {
        self.box_dir.clone().concat("/snapshots")
    }

    /// The directory of one named snapshot.
    pub fn snapshot_dir(&self, name: &str) -> (r: String)
        ensures
            r@ == self.box_dir@ + "/snapshots/"@ + name@,
    {
        self.box_dir.clone().concat("/snapshots/").concat(name)
    }
}

} // verus!
