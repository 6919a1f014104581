//! The container runtime specification, as plain data.
//!
//! The guest builds an OCI runtime specification for the container it
//! runs: the standard mounts, the user's bind mounts, the process record,
//! and the user-namespace id mappings.  Everything the specification says
//! is decided here as plain values; turning the plan into the runtime's
//! own document types is the caller's business.

use vstd::prelude::*;
use vstd::string::*;

verus! {

/// A user-requested bind mount.
#[derive(Debug, Clone)]
pub struct UserMount {
    /// Source path in the guest.
    pub source: String,
    /// Destination path in the container.
    pub destination: String,
    /// Whether the container sees it read-only.
    pub read_only: bool,
}

/// One mount of the container's filesystem tree.
#[derive(Debug, Clone)]
pub struct MountSpec {
    /// Where it appears in the container.
    pub destination: String,
    /// The filesystem type.
    pub typ: String,
    /// What is mounted.
    pub source: String,
    /// Mount options, in order.
    pub options: Vec<String>,
}

/// The container's process record.
#[derive(Debug, Clone)]
pub struct ProcessPlan {
    /// No terminal is allocated by the specification itself.
    pub terminal: bool,
    /// The resolved numeric user id.
    pub uid: u32,
    /// The resolved numeric group id.
    pub gid: u32,
    /// The entrypoint and its arguments.
    pub args: Vec<String>,
    /// Environment entries, each `KEY=value`.
    pub env: Vec<String>,
    /// The working directory.
    pub cwd: String,
    /// The open-files ceiling, matching the common engine default.
    pub rlimit_nofile: u64,
    /// Privilege escalation stays possible, so `sudo` works.
    pub no_new_privileges: bool,
}

/// One identity mapping of the container's user namespace.
#[derive(Debug, Clone, Copy, PartialEq, Eq, Structural)]
pub struct IdMapping {
    /// First id on the host side.
    pub host_id: u32,
    /// First id inside the container.
    pub container_id: u32,
    /// How many ids the range covers.
    pub size: u32,
}

/// The whole specification as plain data.
#[derive(Debug, Clone)]
pub struct OciSpecPlan {
    /// The specification version written out.
    pub version: String,
    /// The container's hostname.
    pub hostname: String,
    /// The root filesystem path.
    pub root_path: String,
    /// The root stays writable.
    pub root_readonly: bool,
    /// The mounts, standard ones first, user mounts after.
    pub mounts: Vec<MountSpec>,
    /// The process record.
    pub process: ProcessPlan,
    /// The uid mapping.
    pub uid_mapping: IdMapping,
    /// The gid mapping.
    pub gid_mapping: IdMapping,
}

/// Build an options list of two entries.
fn opts2(a: &str, b: &str) -> (r: Vec<String>)
    ensures
        r.deep_view() == seq![a@, b@],
{
    let mut v: Vec<String> = Vec::new();
    v.push(a.to_owned());
    v.push(b.to_owned());
    proof {
        assert(v.deep_view() =~= seq![a@, b@]);
    }
    v
}

/// Build an options list of three entries.
fn opts3(a: &str, b: &str, c: &str) -> (r: Vec<String>)
    ensures
        r.deep_view() == seq![a@, b@, c@],
{
    let mut v: Vec<String> = Vec::new();
    v.push(a.to_owned());
    v.push(b.to_owned());
    v.push(c.to_owned());
    proof {
        assert(v.deep_view() =~= seq![a@, b@, c@]);
    }
    v
}

/// Build an options list of four entries.
fn opts4(a: &str, b: &str, c: &str, d: &str) -> (r: Vec<String>)
    ensures
        r.deep_view() == seq![a@, b@, c@, d@],
{
    let mut v: Vec<String> = Vec::new();
    v.push(a.to_owned());
    v.push(b.to_owned());
    v.push(c.to_owned());
    v.push(d.to_owned());
    proof {
        assert(v.deep_view() =~= seq![a@, b@, c@, d@]);
    }
    v
}

/// Build an options list of five entries.
fn opts5(a: &str, b: &str, c: &str, d: &str, e: &str) -> (r: Vec<String>)
    ensures
        r.deep_view() == seq![a@, b@, c@, d@, e@],
{
    let mut v: Vec<String> = Vec::new();
    v.push(a.to_owned());
    v.push(b.to_owned());
    v.push(c.to_owned());
    v.push(d.to_owned());
    v.push(e.to_owned());
    proof {
        assert(v.deep_view() =~= seq![a@, b@, c@, d@, e@]);
    }
    v
}

/// The options of a user bind mount: `bind`, then `ro` or `rw`.
pub fn user_mount_options(read_only: bool) -> (r: Vec<String>)
    ensures
        r.deep_view() == seq!["bind"@, if read_only {
            "ro"@
        } else {
            "rw"@
        }],
{
    if read_only {
        opts2("bind", "ro")
    } else {
        opts2("bind", "rw")
    }
}

/// The standard mounts of every container: proc, the device tree,
/// pseudo-terminals, shared memory, a read-only sysfs, a tmpfs `/tmp`,
/// and the three bundle-provided identity files bound read-only.
pub fn build_standard_mounts(bundle_path: &str) -> (r: Vec<MountSpec>)
    ensures
        r@.len() == 9,
        r@[0].destination@ == "/proc"@ && r@[0].typ@ == "proc"@ && r@[0].source@ == "proc"@,
        r@[1].destination@ == "/dev"@ && r@[1].typ@ == "tmpfs"@ && r@[1].source@ == "tmpfs"@,
        r@[2].destination@ == "/dev/pts"@ && r@[2].typ@ == "devpts"@ && r@[2].source@
            == "devpts"@,
        r@[3].destination@ == "/dev/shm"@ && r@[3].typ@ == "tmpfs"@ && r@[3].source@ == "shm"@,
        r@[4].destination@ == "/sys"@ && r@[4].typ@ == "none"@ && r@[4].source@ == "/sys"@
            && r@[4].options.deep_view() == seq!["rbind"@, "nosuid"@, "noexec"@, "nodev"@, "ro"@],
        r@[5].destination@ == "/tmp"@ && r@[5].typ@ == "tmpfs"@ && r@[5].source@ == "tmpfs"@,
        r@[6].destination@ == "/etc/hostname"@ && r@[6].typ@ == "bind"@ && r@[6].source@
            == bundle_path@ + "/hostname"@ && r@[6].options.deep_view() == seq!["bind"@, "ro"@],
        r@[7].destination@ == "/etc/hosts"@ && r@[7].typ@ == "bind"@ && r@[7].source@
            == bundle_path@ + "/hosts"@ && r@[7].options.deep_view() == seq!["bind"@, "ro"@],
        r@[8].destination@ == "/etc/resolv.conf"@ && r@[8].typ@ == "bind"@ && r@[8].source@
            == bundle_path@ + "/resolv.conf"@ && r@[8].options.deep_view() == seq![
            "bind"@,
            "ro"@,
        ],
{
    let mut mounts: Vec<MountSpec> = Vec::new();
    mounts.push(
        MountSpec {
            destination: String::from_str("/proc"),
            typ: String::from_str("proc"),
            source: String::from_str("proc"),
            options: Vec::new(),
        },
    );
    mounts.push(
        MountSpec {
            destination: String::from_str("/dev"),
            typ: String::from_str("tmpfs"),
            source: String::from_str("tmpfs"),
            options: opts4("nosuid", "strictatime", "mode=755", "size=65536k"),
        },
    );
    mounts.push(
        MountSpec {
            destination: String::from_str("/dev/pts"),
            typ: String::from_str("devpts"),
            source: String::from_str("devpts"),
            options: opts5("nosuid", "noexec", "newinstance", "ptmxmode=0666", "mode=0620"),
        },
    );
    mounts.push(
        MountSpec {
            destination: String::from_str("/dev/shm"),
            typ: String::from_str("tmpfs"),
            source: String::from_str("shm"),
            options: opts5("nosuid", "noexec", "nodev", "mode=1777", "size=65536k"),
        },
    );
    mounts.push(
        MountSpec {
            destination: String::from_str("/sys"),
            typ: String::from_str("none"),
            source: String::from_str("/sys"),
            options: opts5("rbind", "nosuid", "noexec", "nodev", "ro"),
        },
    );
    mounts.push(
        MountSpec {
            destination: String::from_str("/tmp"),
            typ: String::from_str("tmpfs"),
            source: String::from_str("tmpfs"),
            options: opts3("nosuid", "nodev", "mode=1777"),
        },
    );
    mounts.push(
        MountSpec {
            destination: String::from_str("/etc/hostname"),
            typ: String::from_str("bind"),
            source: bundle_path.to_owned().concat("/hostname"),
            options: opts2("bind", "ro"),
        },
    );
    mounts.push(
        MountSpec {
            destination: String::from_str("/etc/hosts"),
            typ: String::from_str("bind"),
            source: bundle_path.to_owned().concat("/hosts"),
            options: opts2("bind", "ro"),
        },
    );
    mounts.push(
        MountSpec {
            destination: String::from_str("/etc/resolv.conf"),
            typ: String::from_str("bind"),
            source: bundle_path.to_owned().concat("/resolv.conf"),
            options: opts2("bind", "ro"),
        },
    );
    mounts
}

/// Build the whole container specification.
///
/// The mounts are the standard nine followed by one bind per user mount;
/// the process runs the entrypoint as the resolved user with the common
/// open-files ceiling; both id mappings cover the first 65536 ids
/// one-to-one.
pub fn create_oci_spec(
    rootfs: &str,
    entrypoint: Vec<String>,
    env: Vec<String>,
    workdir: &str,
    uid: u32,
    gid: u32,
    bundle_path: &str,
    user_mounts: &Vec<UserMount>,
) -> (r: OciSpecPlan)
    ensures
        r.version@ == "1.0.2"@,
        r.hostname@ == "boxlite"@,
        r.root_path@ == rootfs@,
        !r.root_readonly,
        r.mounts@.len() == 9 + user_mounts@.len(),
        forall|i: int|
            0 <= i < user_mounts@.len() ==> (#[trigger] r.mounts@[9 + i]).destination@
                == user_mounts@[i].destination@ && r.mounts@[9 + i].source@ == user_mounts@[
                i
            ].source@ && r.mounts@[9 + i].typ@ == "bind"@ && r.mounts@[9 + i].options.deep_view()
                == seq!["bind"@, if user_mounts@[i].read_only {
                "ro"@
            } else {
                "rw"@
            }],
        !r.process.terminal,
        r.process.uid == uid,
        r.process.gid == gid,
        r.process.args == entrypoint,
        r.process.env == env,
        r.process.cwd@ == workdir@,
        r.process.rlimit_nofile == 1048576,
        !r.process.no_new_privileges,
        r.uid_mapping == (IdMapping { host_id: 0, container_id: 0, size: 65536 }),
        r.gid_mapping == (IdMapping { host_id: 0, container_id: 0, size: 65536 }),
{
    let mut mounts = build_standard_mounts(bundle_path);
    let n = user_mounts.len();
    let mut i: usize = 0;
    while i < n
        invariant
            i <= n,
            n == user_mounts@.len(),
            mounts@.len() == 9 + i,
            forall|j: int|
                0 <= j < i ==> (#[trigger] mounts@[9 + j]).destination@ == user_mounts@[
                    j
                ].destination@ && mounts@[9 + j].source@ == user_mounts@[j].source@ && mounts@[9
                    + j].typ@ == "bind"@ && mounts@[9 + j].options.deep_view() == seq!["bind"@,
                    if user_mounts@[j].read_only {
                        "ro"@
                    } else {
                        "rw"@
                    }],
        decreases n - i,
    {
        mounts.push(
            MountSpec {
                destination: user_mounts[i].destination.clone(),
                typ: String::from_str("bind"),
                source: user_mounts[i].source.clone(),
                options: user_mount_options(user_mounts[i].read_only),
            },
        );
        i += 1;
    }
    OciSpecPlan {
        version: String::from_str("1.0.2"),
        hostname: String::from_str("boxlite"),
        root_path: rootfs.to_owned(),
        root_readonly: false,
        mounts,
        process: ProcessPlan {
            terminal: false,
            uid,
            gid,
            args: entrypoint,
            env,
            cwd: workdir.to_owned(),
            rlimit_nofile: 1048576,
            no_new_privileges: false,
        },
        uid_mapping: IdMapping { host_id: 0, container_id: 0, size: 65536 },
        gid_mapping: IdMapping { host_id: 0, container_id: 0, size: 65536 },
    }
}

} // verus!
