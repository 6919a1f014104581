//! Conversion of foreign-binding option records into native options.
//!
//! Language bindings hand the runtime loosely-filled records: optional
//! fields may be blank strings, and list fields may arrive empty where the
//! caller meant "not set".  These conversions decide exactly what such a
//! record means, so that an empty entrypoint or command list never
//! overrides the image's own defaults.

use vstd::prelude::*;
use vstd::string::*;

use crate::errors::{BoxliteError, BoxliteResult};
use crate::options::{BoxCommand, BoxOptions, RootfsSpec};
use crate::strutil::{is_blank, spec_blank};

verus! {

/// Box options as a language binding hands them over.
#[derive(Debug, Clone)]
pub struct BindingBoxOptions {
    /// OCI image reference; blank means unset.
    pub image: Option<String>,
    /// Prepared rootfs directory; blank means unset.
    pub rootfs_path: Option<String>,
    /// Number of virtual CPUs.
    pub cpus: Option<u8>,
    /// Guest memory in MiB.
    pub memory_mib: Option<u32>,
    /// Container disk size in GB.
    pub disk_size_gb: Option<u64>,
    /// Working directory inside the guest.
    pub working_dir: Option<String>,
    /// Environment variables.
    pub env: Vec<(String, String)>,
    /// Remove the box once stopped.
    pub auto_remove: Option<bool>,
    /// Let the shim outlive the runtime.
    pub detach: Option<bool>,
    /// Entrypoint override; an empty list means unset.
    pub entrypoint: Option<Vec<String>>,
    /// Command override; an empty list means unset.
    pub cmd: Option<Vec<String>>,
    /// User specification.
    pub user: Option<String>,
}

/// An exec request as a language binding hands it over.
#[derive(Debug, Clone)]
pub struct BindingExecCommand {
    /// The executable; must not be blank.
    pub command: String,
    /// Its arguments.
    pub args: Vec<String>,
    /// Extra environment variables.
    pub env: Vec<(String, String)>,
    /// A bound on the execution in milliseconds; must be positive when set.
    pub timeout_millis: Option<u64>,
    /// Working directory; blank means unset.
    pub working_dir: Option<String>,
    /// Whether a TTY is allocated.
    pub tty: bool,
}

/// An optional string field is set when it is present and not blank.
pub open spec fn spec_field_set(o: Option<String>) -> bool {
    match o {
        Some(s) => !spec_blank(s@),
        None => false,
    }
}

/// An optional list field is set when it is present and non-empty.
pub open spec fn spec_list_set(o: Option<Vec<String>>) -> bool {
    match o {
        Some(v) => v@.len() > 0,
        None => false,
    }
}

/// Convert binding box options to native options.
///
/// Exactly one of `image` and `rootfs_path` may be set; both set is a
/// configuration error.  An empty entrypoint or command list maps to
/// "unset" instead of overriding the image's defaults.  A CPU count or
/// memory size of zero is rejected as a malformed argument.
pub fn binding_box_options_to_native(dto: BindingBoxOptions) -> (r: BoxliteResult<BoxOptions>)
    ensures
        r is Ok <==> !(spec_field_set(dto.image) && spec_field_set(dto.rootfs_path)) && dto.cpus
            != Some(0u8) && dto.memory_mib != Some(0u32),
        match r {
            Ok(o) => {
                &&& !(spec_field_set(dto.image) && spec_field_set(dto.rootfs_path))
                &&& dto.cpus != Some(0u8)
                &&& dto.memory_mib != Some(0u32)
                &&& (spec_field_set(dto.image) ==> (o.rootfs matches RootfsSpec::Image(img)
                    && img@ == dto.image.unwrap()@))
                &&& (!spec_field_set(dto.image) && spec_field_set(dto.rootfs_path) ==> (
                o.rootfs matches RootfsSpec::RootfsPath(p) && p@ == dto.rootfs_path.unwrap()@))
                &&& o.cpus == dto.cpus
                &&& o.memory_mib == dto.memory_mib
                &&& o.disk_size_gb == dto.disk_size_gb
                &&& o.working_dir == dto.working_dir
                &&& o.env == dto.env
                &&& o.auto_remove == (dto.auto_remove matches Some(true))
                &&& o.detach == (dto.detach matches Some(true))
                &&& (spec_list_set(dto.entrypoint) ==> o.entrypoint == Some(
                    dto.entrypoint.unwrap(),
                ))
                &&& (!spec_list_set(dto.entrypoint) ==> o.entrypoint is None)
                &&& (spec_list_set(dto.cmd) ==> o.cmd == Some(dto.cmd.unwrap()))
                &&& (!spec_list_set(dto.cmd) ==> o.cmd is None)
                &&& o.user == dto.user
            },
            Err(e) => {
                &&& (e is Config <==> spec_field_set(dto.image) && spec_field_set(
                    dto.rootfs_path,
                ))
                &&& (e is InvalidArgument <==> !(spec_field_set(dto.image) && spec_field_set(
                    dto.rootfs_path,
                )) && (dto.cpus == Some(0u8) || dto.memory_mib == Some(0u32)))
            },
        },
{
    let image_set = match &dto.image {
        Some(s) => !is_blank(s.as_str()),
        None => false,
    };
    let path_set = match &dto.rootfs_path {
        Some(s) => !is_blank(s.as_str()),
        None => false,
    };
    if image_set && path_set {
        return Err(
            BoxliteError::Config(
                String::from_str("box options require exactly one of image or rootfs path"),
            ),
        );
    }

    let mut options = BoxOptions::default();
    if image_set {
        if let Some(img) = dto.image {
            options.rootfs = RootfsSpec::Image(img);
        }
    } else if path_set {
        if let Some(p) = dto.rootfs_path {
            options.rootfs = RootfsSpec::RootfsPath(p);
        }
    }
    options.cpus = dto.cpus;
    options.memory_mib = dto.memory_mib;
    options.disk_size_gb = dto.disk_size_gb;
    options.working_dir = dto.working_dir;
    options.env = dto.env;
    options.auto_remove = match dto.auto_remove {
        Some(b) => b,
        None => false,
    };
    options.detach = match dto.detach {
        Some(b) => b,
        None => false,
    };
    options.entrypoint = match dto.entrypoint {
        Some(v) => if v.len() > 0 {
            Some(v)
        } else {
            None
        },
        None => None,
    };
    options.cmd = match dto.cmd {
        Some(v) => if v.len() > 0 {
            Some(v)
        } else {
            None
        },
        None => None,
    };
    options.user = dto.user;
    options.sanitize()?;
    Ok(options)
}

/// Convert a binding exec request to a native command.
///
/// A blank executable and a zero timeout are rejected as malformed
/// arguments; everything else is passed through, with a blank working
/// directory meaning "unset".
pub fn binding_exec_command_to_native(dto: BindingExecCommand) -> (r: BoxliteResult<BoxCommand>)
    ensures
        match r {
            Ok(c) => {
                &&& !spec_blank(dto.command@)
                &&& dto.timeout_millis != Some(0u64)
                &&& c.command@ == dto.command@
                &&& c.args == dto.args
                &&& c.env@ == dto.env@
                &&& c.tty == dto.tty
                &&& c.timeout_millis == dto.timeout_millis
                &&& (spec_field_set(dto.working_dir) ==> c.working_dir == Some(
                    dto.working_dir.unwrap(),
                ))
                &&& (!spec_field_set(dto.working_dir) ==> c.working_dir is None)
            },
            Err(e) => e is InvalidArgument && (spec_blank(dto.command@) || dto.timeout_millis
                == Some(0u64)),
        },
{
    if is_blank(dto.command.as_str()) {
        return Err(
            BoxliteError::InvalidArgument(String::from_str("command must not be null or blank")),
        );
    }
    if let Some(t) = dto.timeout_millis {
        if t == 0 {
            return Err(
                BoxliteError::InvalidArgument(
                    String::from_str("timeout must be positive when provided"),
                ),
            );
        }
    }

    let mut command = BoxCommand::new(dto.command).args(dto.args).tty(dto.tty);
    let n = dto.env.len();
    let mut i: usize = 0;
    while i < n
        invariant
            i <= n,
            n == dto.env@.len(),
            command.env@ == dto.env@.take(i as int),
            command.command@ == dto.command@,
            command.args == dto.args,
            command.tty == dto.tty,
            command.timeout_millis is None,
            command.working_dir is None,
        decreases n - i,
    {
        let key = dto.env[i].0.clone();
        let value = dto.env[i].1.clone();
        command = command.env(key, value);
        proof {
            assert(command.env@ =~= dto.env@.take(i + 1 as int));
        }
        i += 1;
    }
    proof {
        assert(dto.env@.take(n as int) =~= dto.env@);
    }
    if let Some(t) = dto.timeout_millis {
        command = command.timeout_millis(t);
    }
    let dir_set = match &dto.working_dir {
        Some(d) => !is_blank(d.as_str()),
        None => false,
    };
    if dir_set {
        if let Some(d) = dto.working_dir {
            command = command.working_dir(d);
        }
    }
    Ok(command)
}

} // verus!
