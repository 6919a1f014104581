//! Box configuration and its validation.
//!
//! A box is created from a `BoxOptions` value; `sanitize` decides exactly
//! which option values the runtime accepts.  Security options describe how
//! the shim process is confined on the host.

use vstd::prelude::*;
use vstd::string::*;

use crate::errors::{BoxliteError, BoxliteResult};
use crate::strutil::contains_char;

verus! {

/// Virtual CPUs given to a box that asks for none.
pub const DEFAULT_CPUS: u8 = 1;

/// Guest memory in MiB given to a box that asks for none.
pub const DEFAULT_MEMORY_MIB: u32 = 2048;

/// Container disk size in GB given to a box that asks for none; the disk
/// is sparse and grows as needed.
pub const DEFAULT_DISK_SIZE_GB: u64 = 10;

/// Where a box's root filesystem comes from.
#[derive(Debug, Clone)]
pub enum RootfsSpec {
    /// An OCI image reference such as `alpine:latest`.
    Image(String),
    /// A directory on the host holding a prepared root filesystem.
    RootfsPath(String),
}

/// A host directory mounted into the box.
#[derive(Debug, Clone)]
pub struct VolumeSpec {
    /// The path on the host.
    pub host_path: String,
    /// The path inside the guest.
    pub guest_path: String,
    /// Whether the guest sees it read-only.
    pub read_only: bool,
}

/// Resource ceilings applied to the shim process.
#[derive(Debug, Clone)]
pub struct ResourceLimits {
    /// Maximum number of open file descriptors.
    pub max_open_files: Option<u64>,
    /// Maximum file size in bytes.
    pub max_file_size: Option<u64>,
    /// Maximum number of processes.
    pub max_processes: Option<u64>,
    /// Maximum virtual memory in bytes.
    pub max_memory: Option<u64>,
    /// Maximum CPU time in seconds.
    pub max_cpu_time: Option<u64>,
}

impl ResourceLimits {
    /// No ceilings at all.
    pub fn none() -> (r: ResourceLimits)
        ensures
            r.max_open_files is None,
            r.max_file_size is None,
            r.max_processes is None,
            r.max_memory is None,
            r.max_cpu_time is None,
    {
        ResourceLimits {
            max_open_files: None,
            max_file_size: None,
            max_processes: None,
            max_memory: None,
            max_cpu_time: None,
        }
    }
}

impl Default for ResourceLimits {
    /// The default leaves every ceiling unset.
    fn default() -> (r: ResourceLimits)
        ensures
            r.max_open_files is None,
            r.max_file_size is None,
            r.max_processes is None,
            r.max_memory is None,
            r.max_cpu_time is None,
    {
        ResourceLimits::none()
    }
}

/// How the shim process is isolated on the host.
#[derive(Debug, Clone)]
pub struct SecurityOptions {
    /// Whether the jailer wraps the shim at all.
    pub jailer_enabled: bool,
    /// Whether seccomp filtering is applied (Linux only).
    pub seccomp_enabled: bool,
    /// Whether the sandbox allows network access.
    pub network_enabled: bool,
    /// Whether inherited file descriptors are closed before exec.
    pub close_fds: bool,
    /// Resource ceilings for the shim.
    pub resource_limits: ResourceLimits,
    /// A custom sandbox profile path (macOS only).
    pub sandbox_profile: Option<String>,
}

impl SecurityOptions {
    /// The standard profile: jailer and seccomp on, network allowed.
    pub fn standard() -> (r: SecurityOptions)
        ensures
            r.jailer_enabled,
            r.seccomp_enabled,
            r.network_enabled,
            r.close_fds,
            r.sandbox_profile is None,
    {
        SecurityOptions {
            jailer_enabled: true,
            seccomp_enabled: true,
            network_enabled: true,
            close_fds: true,
            resource_limits: ResourceLimits::none(),
            sandbox_profile: None,
        }
    }

    /// The development profile: no isolation at all.
    pub fn development() -> (r: SecurityOptions)
        ensures
            !r.jailer_enabled,
            !r.seccomp_enabled,
            r.network_enabled,
            !r.close_fds,
            r.sandbox_profile is None,
    {
        SecurityOptions {
            jailer_enabled: false,
            seccomp_enabled: false,
            network_enabled: true,
            close_fds: false,
            resource_limits: ResourceLimits::none(),
            sandbox_profile: None,
        }
    }

    /// The maximum profile: everything on, network denied to the sandbox.
    pub fn maximum() -> (r: SecurityOptions)
        ensures
            r.jailer_enabled,
            r.seccomp_enabled,
            !r.network_enabled,
            r.close_fds,
            r.sandbox_profile is None,
    {
        SecurityOptions {
            jailer_enabled: true,
            seccomp_enabled: true,
            network_enabled: false,
            close_fds: true,
            resource_limits: ResourceLimits::none(),
            sandbox_profile: None,
        }
    }
}

impl Default for SecurityOptions {
    /// The default profile is the standard one.
    fn default() -> (r: SecurityOptions)
        ensures
            r.jailer_enabled,
            r.seccomp_enabled,
            r.network_enabled,
            r.close_fds,
            r.sandbox_profile is None,
    {
        SecurityOptions::standard()
    }
}

/// Everything a box is created with.
#[derive(Debug, Clone)]
pub struct BoxOptions {
    /// Where the root filesystem comes from.
    pub rootfs: RootfsSpec,
    /// Number of virtual CPUs; the runtime default when unset.
    pub cpus: Option<u8>,
    /// Guest memory in MiB; the runtime default when unset.
    pub memory_mib: Option<u32>,
    /// Container disk size in GB; the runtime default when unset.
    pub disk_size_gb: Option<u64>,
    /// Working directory inside the guest.
    pub working_dir: Option<String>,
    /// Environment variables handed to the guest entrypoint.
    pub env: Vec<(String, String)>,
    /// Remove the box when it reaches the stopped state.
    pub auto_remove: bool,
    /// Let the shim outlive the runtime process.
    pub detach: bool,
    /// Override of the image's entrypoint.
    pub entrypoint: Option<Vec<String>>,
    /// Override of the image's command.
    pub cmd: Option<Vec<String>>,
    /// User specification, as `uid`, `uid:gid`, `name` or `name:group`.
    pub user: Option<String>,
    /// Security profile for the shim.
    pub security: SecurityOptions,
    /// Volumes mounted into the guest.
    pub volumes: Vec<VolumeSpec>,
}

impl Default for BoxOptions {
    /// The default box: the default image, default resources, not
    /// auto-removed, not detached, standard security.
    fn default() -> (r: BoxOptions)
        ensures
            r.rootfs matches RootfsSpec::Image(img) && img@ == "alpine:latest"@,
            r.cpus is None,
            r.memory_mib is None,
            r.disk_size_gb is None,
            r.working_dir is None,
            r.env@.len() == 0,
            !r.auto_remove,
            !r.detach,
            r.entrypoint is None,
            r.cmd is None,
            r.user is None,
            r.volumes@.len() == 0,
    {
        BoxOptions {
            rootfs: RootfsSpec::Image(String::from_str("alpine:latest")),
            cpus: None,
            memory_mib: None,
            disk_size_gb: None,
            working_dir: None,
            env: Vec::new(),
            auto_remove: false,
            detach: false,
            entrypoint: None,
            cmd: None,
            user: None,
            security: SecurityOptions::standard(),
            volumes: Vec::new(),
        }
    }
}

/// The option values the runtime accepts: a CPU count of zero, a memory
/// size of zero, or an empty entrypoint or command list are malformed.
pub open spec fn spec_options_valid(o: &BoxOptions) -> bool {
    &&& o.cpus != Some(0u8)
    &&& o.memory_mib != Some(0u32)
    &&& match o.entrypoint {
        Some(v) => v@.len() > 0,
        None => true,
    }
    &&& match o.cmd {
        Some(v) => v@.len() > 0,
        None => true,
    }
}

impl BoxOptions {
    /// Validate the options.
    ///
    /// Accepts exactly the values of [`spec_options_valid`]; anything else
    /// is rejected with `InvalidArgument`.
    pub fn sanitize(&self) -> (r: BoxliteResult<()>)
        ensures
            r is Ok <==> spec_options_valid(self),
            r matches Err(e) ==> e is InvalidArgument,
    {
        if let Some(c) = self.cpus {
            if c == 0 {
                return Err(
                    BoxliteError::InvalidArgument(String::from_str("cpus must be at least 1")),
                );
            }
        }
        if let Some(m) = self.memory_mib {
            if m == 0 {
                return Err(
                    BoxliteError::InvalidArgument(
                        String::from_str("memory_mib must be at least 1"),
                    ),
                );
            }
        }
        if let Some(e) = &self.entrypoint {
            if e.len() == 0 {
                return Err(
                    BoxliteError::InvalidArgument(
                        String::from_str("entrypoint must not be empty"),
                    ),
                );
            }
        }
        if let Some(c) = &self.cmd {
            if c.len() == 0 {
                return Err(
                    BoxliteError::InvalidArgument(String::from_str("cmd must not be empty")),
                );
            }
        }
        Ok(())
    }
}

/// The box names the runtime accepts: non-empty and without `/`.
pub open spec fn spec_box_name_valid(name: Seq<char>) -> bool {
    name.len() > 0 && !name.contains('/')
}

/// Validate a user-chosen box name.
///
/// Accepts exactly the non-empty names without a path separator; anything
/// else is rejected with `InvalidArgument`.
pub fn sanitize_box_name(name: &str) -> (r: BoxliteResult<()>)
    ensures
        r is Ok <==> spec_box_name_valid(name@),
        r matches Err(e) ==> e is InvalidArgument,
{
    if name.unicode_len() == 0 {
        return Err(BoxliteError::InvalidArgument(String::from_str("box name must not be empty")));
    }
    if contains_char(name, '/') {
        return Err(
            BoxliteError::InvalidArgument(String::from_str("box name must not contain '/'")),
        );
    }
    proof {
        assert(!name@.contains('/')) by {
            if name@.contains('/') {
                let j = choose|j: int| 0 <= j < name@.len() && name@[j] == '/';
            }
        }
    }
    Ok(())
}

/// A command to run inside a box.
#[derive(Debug, Clone)]
pub struct BoxCommand {
    /// The executable.
    pub command: String,
    /// Its arguments.
    pub args: Vec<String>,
    /// Extra environment variables for this execution.
    pub env: Vec<(String, String)>,
    /// Whether a TTY is allocated.
    pub tty: bool,
    /// A bound on the execution, in milliseconds.
    pub timeout_millis: Option<u64>,
    /// Working directory for this execution.
    pub working_dir: Option<String>,
}

impl BoxCommand {
    /// A command with no arguments and no overrides.
    pub fn new(command: String) -> (r: BoxCommand)
        ensures
            r.command@ == command@,
            r.args@.len() == 0,
            r.env@.len() == 0,
            !r.tty,
            r.timeout_millis is None,
            r.working_dir is None,
    {
        BoxCommand {
            command,
            args: Vec::new(),
            env: Vec::new(),
            tty: false,
            timeout_millis: None,
            working_dir: None,
        }
    }

    /// Replace the argument list.
    pub fn args(self, args: Vec<String>) -> (r: BoxCommand)
        ensures
            r == (BoxCommand { args, ..self }),
    {
        BoxCommand { args, ..self }
    }

    /// Add one environment variable.
    pub fn env(self, key: String, value: String) -> (r: BoxCommand)
        ensures
            r.env@ == self.env@.push((key, value)),
            r.command == self.command,
            r.args == self.args,
            r.tty == self.tty,
            r.timeout_millis == self.timeout_millis,
            r.working_dir == self.working_dir,
    {
        let mut env = self.env;
        env.push((key, value));
        BoxCommand {
            command: self.command,
            args: self.args,
            env,
            tty: self.tty,
            timeout_millis: self.timeout_millis,
            working_dir: self.working_dir,
        }
    }

    /// Set TTY allocation.
    pub fn tty(self, tty: bool) -> (r: BoxCommand)
        ensures
            r == (BoxCommand { tty, ..self }),
    {
        BoxCommand { tty, ..self }
    }

    /// Bound the execution in milliseconds.
    pub fn timeout_millis(self, millis: u64) -> (r: BoxCommand)
        ensures
            r == (BoxCommand { timeout_millis: Some(millis), ..self }),
    {
        BoxCommand { timeout_millis: Some(millis), ..self }
    }

    /// Set the working directory for this execution.
    pub fn working_dir(self, dir: String) -> (r: BoxCommand)
        ensures
            r == (BoxCommand { working_dir: Some(dir), ..self }),
    {
        BoxCommand { working_dir: Some(dir), ..self }
    }
}

} // verus!
