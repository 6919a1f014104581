//! Host-side confinement of the shim process.
//!
//! A `Jailer` wraps the shim's command with platform isolation at spawn
//! time.  The user-facing `SecurityOptions` are turned into a
//! `SandboxContext` of pre-computed path-access rules; sandboxes never see
//! the raw options.  Every sandbox states what its wrapped command holds
//! and when its setup succeeds; when the jailer is disabled, or no sandbox
//! tool is available, the command runs directly.

use vstd::prelude::*;
use vstd::string::*;

use crate::bwrap::{
    spec_bind_args, spec_dev_bind_args, spec_ro_bind_args, spec_setenv_args, BwrapCommand,
    CommandSpec,
};
use crate::errors::{BoxliteError, BoxliteResult};
use crate::layout::BoxFilesystemLayout;
use crate::options::{SecurityOptions, VolumeSpec};

verus! {

broadcast use vstd::std_specs::vec::vec_clone_deep_view_proof;

/// A filesystem path with the access the sandbox grants it.
#[derive(Debug, Clone)]
pub struct PathAccess {
    /// The host path.
    pub path: String,
    /// Whether write access is granted.
    pub writable: bool,
}

/// The writable entries of a path list, in their original order.
pub open spec fn spec_writable_of(ps: Seq<PathAccess>) -> Seq<PathAccess> {
    ps.filter(|pa: PathAccess| pa.writable)
}

/// The read-only entries of a path list, in their original order.
pub open spec fn spec_readonly_of(ps: Seq<PathAccess>) -> Seq<PathAccess> {
    ps.filter(|pa: PathAccess| !pa.writable)
}

/// The paths of a path-access list.
pub open spec fn spec_path_names(ps: Seq<PathAccess>) -> Seq<Seq<char>> {
    ps.map_values(|pa: PathAccess| pa.path@)
}

/// What a sandbox needs to do its job; the jailer derives it from the
/// security options, and it holds nothing box-specific beyond the
/// identifier.
#[derive(Debug, Clone)]
pub struct SandboxContext {
    /// Identifier used for resource naming.
    pub id: String,
    /// Pre-computed path-access rules.
    pub paths: Vec<PathAccess>,
    /// Whether the sandbox allows network access.
    pub network_enabled: bool,
    /// A custom sandbox profile path, where the platform takes one.
    pub sandbox_profile: Option<String>,
}

impl SandboxContext {
    /// The paths that need write access, exactly and in order.
    pub fn writable_paths(&self) -> (r: Vec<PathAccess>)
        ensures
            r@ == spec_writable_of(self.paths@),
    {
        let n = self.paths.len();
        let mut out: Vec<PathAccess> = Vec::new();
        proof {
            reveal_with_fuel(Seq::filter, 2);
            assert(self.paths@.take(0) =~= Seq::<PathAccess>::empty());
            assert(out@ =~= spec_writable_of(self.paths@.take(0)));
        }
        let mut k: usize = 0;
        while k < n
            invariant
                k <= n,
                n == self.paths@.len(),
                out@ == spec_writable_of(self.paths@.take(k as int)),
            decreases n - k,
        {
            proof {
                assert(self.paths@.take(k + 1 as int).drop_last() =~= self.paths@.take(k as int));
                assert(self.paths@.take(k + 1 as int).last() == self.paths@[k as int]);
            }
            if self.paths[k].writable {
                let item = PathAccess {
                    path: self.paths[k].path.clone(),
                    writable: self.paths[k].writable,
                };
                proof {
                    assert(item == self.paths@[k as int]);
                }
                out.push(item);
            }
            proof {
                reveal_with_fuel(Seq::filter, 2);
                assert(out@ =~= spec_writable_of(self.paths@.take(k + 1 as int)));
            }
            k += 1;
        }
        proof {
            assert(self.paths@.take(n as int) =~= self.paths@);
        }
        out
    }

    /// The paths that stay read-only, exactly and in order.
    pub fn readonly_paths(&self) -> (r: Vec<PathAccess>)
        ensures
            r@ == spec_readonly_of(self.paths@),
    {
        let n = self.paths.len();
        let mut out: Vec<PathAccess> = Vec::new();
        proof {
            reveal_with_fuel(Seq::filter, 2);
            assert(self.paths@.take(0) =~= Seq::<PathAccess>::empty());
            assert(out@ =~= spec_readonly_of(self.paths@.take(0)));
        }
        let mut k: usize = 0;
        while k < n
            invariant
                k <= n,
                n == self.paths@.len(),
                out@ == spec_readonly_of(self.paths@.take(k as int)),
            decreases n - k,
        {
            proof {
                assert(self.paths@.take(k + 1 as int).drop_last() =~= self.paths@.take(k as int));
                assert(self.paths@.take(k + 1 as int).last() == self.paths@[k as int]);
            }
            if !self.paths[k].writable {
                let item = PathAccess {
                    path: self.paths[k].path.clone(),
                    writable: self.paths[k].writable,
                };
                proof {
                    assert(item == self.paths@[k as int]);
                }
                out.push(item);
            }
            proof {
                reveal_with_fuel(Seq::filter, 2);
                assert(out@ =~= spec_readonly_of(self.paths@.take(k + 1 as int)));
            }
            k += 1;
        }
        proof {
            assert(self.paths@.take(n as int) =~= self.paths@);
        }
        out
    }
}

/// Platform-specific sandbox wrapping, applied by the jailer at spawn
/// time.  Each implementation states when its tool is usable, when its
/// setup succeeds, and what the wrapped command holds.
pub trait Sandbox: Sized {
    /// Whether the sandbox tool is usable.
    spec fn spec_available(&self) -> bool;

    /// When pre-spawn setup succeeds.
    spec fn spec_setup_ok(&self) -> bool;

    /// What the wrapped command must be, given the access rules.
    spec fn spec_wrap_ok(
        &self,
        paths: Seq<PathAccess>,
        binary: Seq<char>,
        args: Seq<Seq<char>>,
        r: &CommandSpec,
    ) -> bool;

    /// The cgroup procs path of this platform, if it has cgroups.
    spec fn spec_cgroup_path(&self, id: Seq<char>) -> Option<Seq<char>>;

    /// The sandbox's name for logging.
    spec fn spec_name(&self) -> Seq<char>;

    /// Whether the sandbox tool is installed and usable.
    fn is_available(&self) -> (r: bool)
        ensures
            r == self.spec_available(),
    ;

    /// Pre-spawn setup, run in the parent before spawning.
    fn setup(&self, ctx: &SandboxContext) -> (r: BoxliteResult<()>)
        ensures
            r is Ok <==> self.spec_setup_ok(),
    ;

    /// Wrap the binary with sandbox isolation.
    fn wrap(&self, ctx: &SandboxContext, binary: &str, args: &Vec<String>) -> (r: CommandSpec)
        ensures
            self.spec_wrap_ok(ctx.paths@, binary@, args.deep_view(), &r),
    ;

    /// The cgroup procs path for the pre-exec hook, where the platform has
    /// cgroups.
    fn cgroup_procs_path(&self, ctx: &SandboxContext) -> (r: Option<String>)
        ensures
            r is Some <==> self.spec_cgroup_path(ctx.id@) is Some,
            r matches Some(s) ==> self.spec_cgroup_path(ctx.id@) == Some(s@),
    ;

    /// Name for logging.
    fn name(&self) -> (r: &'static str)
        ensures
            r@ == self.spec_name(),
    ;
}

/// Passthrough sandbox: no isolation at all.
#[derive(Debug)]
pub struct NoopSandbox {
}

impl NoopSandbox {
    /// Make the passthrough sandbox.
    pub fn new() -> NoopSandbox {
        NoopSandbox {  }
    }
}

impl Sandbox for NoopSandbox {
    open spec fn spec_available(&self) -> bool {
        false
    }

    open spec fn spec_setup_ok(&self) -> bool {
        true
    }

    open spec fn spec_wrap_ok(
        &self,
        paths: Seq<PathAccess>,
        binary: Seq<char>,
        args: Seq<Seq<char>>,
        r: &CommandSpec,
    ) -> bool {
        r.program@ == binary && r.args.deep_view() == args
    }

    open spec fn spec_cgroup_path(&self, id: Seq<char>) -> Option<Seq<char>> {
        None
    }

    open spec fn spec_name(&self) -> Seq<char> {
        "noop"@
    }

    fn is_available(&self) -> bool {
        false
    }

    fn setup(&self, _ctx: &SandboxContext) -> BoxliteResult<()> {
        Ok(())
    }

    fn wrap(&self, _ctx: &SandboxContext, binary: &str, args: &Vec<String>) -> CommandSpec {
        let cloned = args.clone();
        proof {
            assert(cloned.deep_view() == args.deep_view());
        }
        CommandSpec::direct(binary.to_owned(), cloned)
    }

    fn cgroup_procs_path(&self, _ctx: &SandboxContext) -> Option<String> {
        None
    }

    fn name(&self) -> &'static str {
        "noop"
    }
}

/// Linux sandbox using bubblewrap for namespace isolation.
///
/// The fields below come from discovery, which spawns processes and reads
/// the disk and so lives outside the library: the chosen bwrap binary,
/// the diagnostic of a failed user-namespace preflight, the environment
/// values to re-instate, and which system directories and device nodes
/// exist on this host.
#[derive(Debug)]
pub struct BwrapSandbox {
    /// The bwrap binary found on this host, if any.
    pub bwrap_path: Option<String>,
    /// The user-namespace preflight diagnostic, when the probe failed.
    pub userns_error: Option<String>,
    /// Environment variables re-instated inside the cleared sandbox
    /// environment, such as the library path the shim's libraries need.
    pub preserved_env: Vec<(String, String)>,
    /// The system directories found on this host, mounted read-only.
    pub system_mounts: Vec<String>,
    /// The device nodes found on this host, device-bound.
    pub device_mounts: Vec<String>,
}

/// The exact argument list bubblewrap confines the shim with: namespace
/// isolation without the network, die-with-parent and a new session, the
/// discovered system and device mounts, `/proc` and a tmpfs `/tmp`, the
/// context's writable and read-only paths, a cleared environment with the
/// minimal set re-instated, and the wrapped binary after the separator.
pub open spec fn spec_bwrap_wrap_args(
    s: &BwrapSandbox,
    paths: Seq<PathAccess>,
    binary: Seq<char>,
    args: Seq<Seq<char>>,
) -> Seq<Seq<char>> {
    seq![
        "--unshare-user"@,
        "--unshare-pid"@,
        "--unshare-ipc"@,
        "--unshare-uts"@,
        "--die-with-parent"@,
        "--new-session"@,
    ] + spec_ro_bind_args(s.system_mounts.deep_view()) + seq!["--dev"@, "/dev"@]
        + spec_dev_bind_args(s.device_mounts.deep_view()) + seq![
        "--proc"@,
        "/proc"@,
        "--tmpfs"@,
        "/tmp"@,
    ] + spec_bind_args(spec_path_names(spec_writable_of(paths))) + spec_ro_bind_args(
        spec_path_names(spec_readonly_of(paths)),
    ) + seq![
        "--clearenv"@,
        "--setenv"@,
        "PATH"@,
        "/usr/bin:/bin:/usr/sbin:/sbin"@,
        "--setenv"@,
        "HOME"@,
        "/root"@,
    ] + spec_setenv_args(s.preserved_env@) + seq!["--chdir"@, "/"@] + seq!["--"@, binary] + args
}

/// Bind every path of the list read-write at itself.
fn bind_paths(cmd: &mut BwrapCommand, paths: &Vec<PathAccess>)
    ensures
        final(cmd).args.deep_view() == old(cmd).args.deep_view() + spec_bind_args(
            spec_path_names(paths@),
        ),
{
    let ghost base = cmd.args.deep_view();
    let n = paths.len();
    proof {
        assert(spec_path_names(paths@.take(0)) =~= Seq::<Seq<char>>::empty());
        assert(cmd.args.deep_view() =~= base + spec_bind_args(spec_path_names(paths@.take(0))));
    }
    let mut i: usize = 0;
    while i < n
        invariant
            i <= n,
            n == paths@.len(),
            cmd.args.deep_view() == base + spec_bind_args(spec_path_names(paths@.take(i as int))),
        decreases n - i,
    {
        cmd.bind(paths[i].path.as_str(), paths[i].path.as_str());
        proof {
            assert(spec_path_names(paths@.take(i + 1 as int)).drop_last() =~= spec_path_names(
                paths@.take(i as int),
            ));
            assert(spec_path_names(paths@.take(i + 1 as int)).last() == paths@[i as int].path@);
            assert(cmd.args.deep_view() =~= base + spec_bind_args(
                spec_path_names(paths@.take(i + 1 as int)),
            ));
        }
        i += 1;
    }
    proof {
        assert(paths@.take(n as int) =~= paths@);
    }
}

/// Bind every path of the list read-only at itself.
fn ro_bind_paths(cmd: &mut BwrapCommand, paths: &Vec<PathAccess>)
    ensures
        final(cmd).args.deep_view() == old(cmd).args.deep_view() + spec_ro_bind_args(
            spec_path_names(paths@),
        ),
{
    let ghost base = cmd.args.deep_view();
    let n = paths.len();
    proof {
        assert(spec_path_names(paths@.take(0)) =~= Seq::<Seq<char>>::empty());
        assert(cmd.args.deep_view() =~= base + spec_ro_bind_args(
            spec_path_names(paths@.take(0)),
        ));
    }
    let mut i: usize = 0;
    while i < n
        invariant
            i <= n,
            n == paths@.len(),
            cmd.args.deep_view() == base + spec_ro_bind_args(
                spec_path_names(paths@.take(i as int)),
            ),
        decreases n - i,
    {
        cmd.ro_bind(paths[i].path.as_str(), paths[i].path.as_str());
        proof {
            assert(spec_path_names(paths@.take(i + 1 as int)).drop_last() =~= spec_path_names(
                paths@.take(i as int),
            ));
            assert(spec_path_names(paths@.take(i + 1 as int)).last() == paths@[i as int].path@);
            assert(cmd.args.deep_view() =~= base + spec_ro_bind_args(
                spec_path_names(paths@.take(i + 1 as int)),
            ));
        }
        i += 1;
    }
    proof {
        assert(paths@.take(n as int) =~= paths@);
    }
}

impl BwrapSandbox {
    /// A sandbox that has not discovered any bwrap binary.
    pub fn new() -> (r: BwrapSandbox)
        ensures
            r.bwrap_path is None,
            r.userns_error is None,
            r.preserved_env@.len() == 0,
            r.system_mounts@.len() == 0,
            r.device_mounts@.len() == 0,
    {
        BwrapSandbox {
            bwrap_path: None,
            userns_error: None,
            preserved_env: Vec::new(),
            system_mounts: Vec::new(),
            device_mounts: Vec::new(),
        }
    }

    /// A sandbox holding the results of host discovery.
    pub fn with_discovery(
        bwrap_path: Option<String>,
        userns_error: Option<String>,
        preserved_env: Vec<(String, String)>,
        system_mounts: Vec<String>,
        device_mounts: Vec<String>,
    ) -> (r: BwrapSandbox)
        ensures
            r.bwrap_path == bwrap_path,
            r.userns_error == userns_error,
            r.preserved_env == preserved_env,
            r.system_mounts == system_mounts,
            r.device_mounts == device_mounts,
    {
        BwrapSandbox { bwrap_path, userns_error, preserved_env, system_mounts, device_mounts }
    }

    /// Whether bubblewrap was found; the trait's `is_available` answers
    /// the same.
    pub fn bwrap_found(&self) -> (r: bool)
        ensures
            r == (self.bwrap_path is Some),
    {
        match &self.bwrap_path {
            Some(_) => true,
            None => false,
        }
    }
}

impl Sandbox for BwrapSandbox {
    open spec fn spec_available(&self) -> bool {
        self.bwrap_path is Some
    }

    open spec fn spec_setup_ok(&self) -> bool {
        !(self.bwrap_path is Some && self.userns_error is Some)
    }

    open spec fn spec_wrap_ok(
        &self,
        paths: Seq<PathAccess>,
        binary: Seq<char>,
        args: Seq<Seq<char>>,
        r: &CommandSpec,
    ) -> bool {
        match self.bwrap_path {
            Some(p) => r.program@ == p@ && r.args.deep_view() == spec_bwrap_wrap_args(
                self,
                paths,
                binary,
                args,
            ),
            None => r.program@ == binary && r.args.deep_view() == args,
        }
    }

    open spec fn spec_cgroup_path(&self, id: Seq<char>) -> Option<Seq<char>> {
        Some("/sys/fs/cgroup/boxlite-"@ + id + "/cgroup.procs"@)
    }

    open spec fn spec_name(&self) -> Seq<char> {
        "bwrap"@
    }

    fn is_available(&self) -> bool {
        self.bwrap_found()
    }

    fn setup(&self, _ctx: &SandboxContext) -> BoxliteResult<()> {
        if self.bwrap_found() {
            if let Some(diag) = &self.userns_error {
                return Err(
                    BoxliteError::Config(
                        String::from_str(
                            "sandbox preflight failed: bwrap cannot create user namespaces\n",
                        ).concat(diag.as_str()).concat(
                            "\nTo skip the sandbox in development, disable the jailer",
                        ),
                    ),
                );
            }
        }
        Ok(())
    }

    #[verifier::rlimit(30)]
    fn wrap(&self, ctx: &SandboxContext, binary: &str, args: &Vec<String>) -> CommandSpec {
        let bwrap_path = match &self.bwrap_path {
            Some(p) => p.clone(),
            None => {
                let cloned = args.clone();
                proof {
                    assert(cloned.deep_view() == args.deep_view());
                }
                return CommandSpec::direct(binary.to_owned(), cloned);
            },
        };
        let mut cmd = BwrapCommand::new();
        cmd.with_default_namespaces();
        cmd.with_die_with_parent();
        cmd.with_new_session();
        let ghost seg1 = cmd.args.deep_view();
        cmd.ro_bind_each(&self.system_mounts);
        cmd.with_dev();
        cmd.dev_bind_each(&self.device_mounts);
        cmd.with_proc();
        cmd.tmpfs("/tmp");
        let ghost seg2 = cmd.args.deep_view();
        proof {
            assert(seg2 =~= seg1 + spec_ro_bind_args(self.system_mounts.deep_view()) + seq![
                "--dev"@,
                "/dev"@,
            ] + spec_dev_bind_args(self.device_mounts.deep_view()) + seq![
                "--proc"@,
                "/proc"@,
                "--tmpfs"@,
                "/tmp"@,
            ]);
        }

        let writable = ctx.writable_paths();
        bind_paths(&mut cmd, &writable);
        let readonly = ctx.readonly_paths();
        ro_bind_paths(&mut cmd, &readonly);
        let ghost seg3 = cmd.args.deep_view();
        proof {
            assert(seg3 =~= seg2 + spec_bind_args(spec_path_names(spec_writable_of(ctx.paths@)))
                + spec_ro_bind_args(spec_path_names(spec_readonly_of(ctx.paths@))));
        }

        cmd.with_clearenv();
        cmd.setenv("PATH", "/usr/bin:/bin:/usr/sbin:/sbin");
        cmd.setenv("HOME", "/root");
        cmd.setenv_each(&self.preserved_env);
        cmd.chdir("/");
        let ghost seg4 = cmd.args.deep_view();
        proof {
            assert(seg4 =~= seg3 + seq![
                "--clearenv"@,
                "--setenv"@,
                "PATH"@,
                "/usr/bin:/bin:/usr/sbin:/sbin"@,
                "--setenv"@,
                "HOME"@,
                "/root"@,
            ] + spec_setenv_args(self.preserved_env@) + seq!["--chdir"@, "/"@]);
        }
        let r = cmd.build(bwrap_path.as_str(), binary, args);
        proof {
            assert(r.args.deep_view() =~= spec_bwrap_wrap_args(
                self,
                ctx.paths@,
                binary@,
                args.deep_view(),
            ));
        }
        r
    }

    fn cgroup_procs_path(&self, ctx: &SandboxContext) -> Option<String> {
        Some(
            String::from_str("/sys/fs/cgroup/boxlite-").concat(ctx.id.as_str()).concat(
                "/cgroup.procs",
            ),
        )
    }

    fn name(&self) -> &'static str {
        "bwrap"
    }
}

/// The sandbox used when none is chosen explicitly.
pub type PlatformSandbox = BwrapSandbox;

/// Confines one box's shim process.
#[derive(Debug)]
pub struct Jailer<S: Sandbox> {
    /// The platform sandbox.
    pub sandbox: S,
    /// The security profile in force.
    pub security: SecurityOptions,
    /// Volumes granted to the box.
    pub volumes: Vec<VolumeSpec>,
    /// The box this jailer confines.
    pub box_id: String,
    /// The box's directory layout.
    pub layout: BoxFilesystemLayout,
}

impl<S: Sandbox> Jailer<S> {
    /// The access rules this jailer grants: the box directory writable,
    /// then each volume, writable exactly when it is not read-only.
    pub open spec fn spec_sandbox_paths(&self) -> Seq<PathAccess> {
        seq![PathAccess { path: self.layout.box_dir, writable: true }]
            + self.volumes@.map_values(
            |v: VolumeSpec| PathAccess { path: v.host_path, writable: !v.read_only },
        )
    }

    /// The box identifier.
    pub fn box_id(&self) -> (r: &String)
        ensures
            r@ == self.box_id@,
    {
        &self.box_id
    }

    /// The box directory.
    pub fn box_dir(&self) -> (r: &String)
        ensures
            r@ == self.layout.box_dir@,
    {
        &self.layout.box_dir
    }

    /// The security profile.
    pub fn security(&self) -> (r: &SecurityOptions)
        ensures
            r == &self.security,
    {
        &self.security
    }

    /// The volumes granted to the box.
    pub fn volumes(&self) -> (r: &Vec<VolumeSpec>)
        ensures
            r == &self.volumes,
    {
        &self.volumes
    }

    /// Turn the security options and volumes into the sandbox context:
    /// exactly the access rules of [`Jailer::spec_sandbox_paths`], the
    /// box identifier, and the profile's network and custom-profile
    /// choices.
    pub fn context(&self) -> (r: SandboxContext)
        ensures
            r.id@ == self.box_id@,
            r.network_enabled == self.security.network_enabled,
            r.paths@ == self.spec_sandbox_paths(),
            r.sandbox_profile == self.security.sandbox_profile,
    {
        let mut paths: Vec<PathAccess> = Vec::new();
        paths.push(PathAccess { path: self.layout.box_dir.clone(), writable: true });
        proof {
            assert(paths@[0] == (PathAccess { path: self.layout.box_dir, writable: true }));
        }
        let n = self.volumes.len();
        let mut i: usize = 0;
        while i < n
            invariant
                i <= n,
                n == self.volumes@.len(),
                paths@.len() == 1 + i,
                paths@[0] == (PathAccess { path: self.layout.box_dir, writable: true }),
                forall|j: int|
                    0 <= j < i ==> paths@[j + 1] == (PathAccess {
                        path: self.volumes@[j].host_path,
                        writable: !self.volumes@[j].read_only,
                    }),
            decreases n - i,
        {
            let item = PathAccess {
                path: self.volumes[i].host_path.clone(),
                writable: !self.volumes[i].read_only,
            };
            proof {
                assert(item == (PathAccess {
                    path: self.volumes@[i as int].host_path,
                    writable: !self.volumes@[i as int].read_only,
                }));
            }
            paths.push(item);
            i += 1;
        }
        proof {
            assert(paths@ =~= self.spec_sandbox_paths());
        }
        let profile = match &self.security.sandbox_profile {
            Some(p) => Some(p.clone()),
            None => None,
        };
        SandboxContext {
            id: self.box_id.clone(),
            paths,
            network_enabled: self.security.network_enabled,
            sandbox_profile: profile,
        }
    }

    /// The command that spawns `binary`: wrapped by the sandbox, with the
    /// sandbox's own wrapped-command guarantee over this jailer's access
    /// rules, when the jailer is enabled and the tool is available; run
    /// directly otherwise.
    pub fn command(&self, binary: &str, args: &Vec<String>) -> (r: CommandSpec)
        ensures
            !(self.security.jailer_enabled && self.sandbox.spec_available()) ==> r.program@
                == binary@ && r.args.deep_view() == args.deep_view(),
            self.security.jailer_enabled && self.sandbox.spec_available()
                ==> self.sandbox.spec_wrap_ok(
                self.spec_sandbox_paths(),
                binary@,
                args.deep_view(),
                &r,
            ),
    {
        if self.security.jailer_enabled && self.sandbox.is_available() {
            let ctx = self.context();
            self.sandbox.wrap(&ctx, binary, args)
        } else {
            let cloned = args.clone();
            proof {
                assert(cloned.deep_view() == args.deep_view());
            }
            CommandSpec::direct(binary.to_owned(), cloned)
        }
    }

    /// Pre-spawn preparation: nothing when the jailer is disabled,
    /// otherwise the sandbox's own setup, which succeeds exactly when the
    /// sandbox says it does.
    pub fn prepare(&self) -> (r: BoxliteResult<()>)
        ensures
            r is Ok <==> !self.security.jailer_enabled || self.sandbox.spec_setup_ok(),
    {
        if !self.security.jailer_enabled {
            return Ok(());
        }
        let ctx = self.context();
        self.sandbox.setup(&ctx)
    }
}

/// The first file descriptor the pre-exec hook closes.
///
/// Each preserved pair `(source, target)` survives the cleanup at its
/// target; everything above the highest target goes.  With nothing
/// preserved, everything from three upward goes, keeping only the three
/// standard streams.
pub fn first_fd_to_close(preserved: &Vec<(i32, i32)>) -> (r: i32)
    requires
        forall|i: int| 0 <= i < preserved@.len() ==> 0 <= (#[trigger] preserved@[i]).1 < i32::MAX,
    ensures
        preserved@.len() == 0 ==> r == 3,
        preserved@.len() > 0 ==> (exists|i: int|
            0 <= i < preserved@.len() && r == (#[trigger] preserved@[i]).1 + 1) && (forall|i: int|
            0 <= i < preserved@.len() ==> (#[trigger] preserved@[i]).1 < r),
{
    let n = preserved.len();
    if n == 0 {
        return 3;
    }
    let mut highest: i32 = preserved[0].1;
    let mut k: usize = 1;
    while k < n
        invariant
            1 <= k <= n,
            n == preserved@.len(),
            forall|i: int| 0 <= i < preserved@.len() ==> 0 <= (#[trigger] preserved@[i]).1
                < i32::MAX,
            exists|i: int| 0 <= i < k && highest == (#[trigger] preserved@[i]).1,
            forall|i: int| 0 <= i < k ==> (#[trigger] preserved@[i]).1 <= highest,
        decreases n - k,
    {
        if preserved[k].1 > highest {
            highest = preserved[k].1;
        }
        k += 1;
    }
    highest + 1
}

/// Builder for a [`Jailer`].
#[derive(Debug, Clone)]
pub struct JailerBuilder {
    /// The security profile; the standard one unless replaced.
    pub security: SecurityOptions,
    /// Volumes granted to the box.
    pub volumes: Vec<VolumeSpec>,
    /// The box identifier; required.
    pub box_id: Option<String>,
    /// The box layout; required.
    pub layout: Option<BoxFilesystemLayout>,
}

impl JailerBuilder {
    /// A builder with default settings.
    pub fn new() -> (r: JailerBuilder)
        ensures
            r.security.jailer_enabled,
            r.volumes@.len() == 0,
            r.box_id is None,
            r.layout is None,
    {
        JailerBuilder {
            security: SecurityOptions::standard(),
            volumes: Vec::new(),
            box_id: None,
            layout: None,
        }
    }

    /// Set the box identifier.
    pub fn with_box_id(self, id: String) -> (r: JailerBuilder)
        ensures
            r == (JailerBuilder { box_id: Some(id), ..self }),
    {
        JailerBuilder { box_id: Some(id), ..self }
    }

    /// Set the box layout.
    pub fn with_layout(self, layout: BoxFilesystemLayout) -> (r: JailerBuilder)
        ensures
            r == (JailerBuilder { layout: Some(layout), ..self }),
    {
        JailerBuilder { layout: Some(layout), ..self }
    }

    /// Replace the security profile.
    pub fn with_security(self, security: SecurityOptions) -> (r: JailerBuilder)
        ensures
            r == (JailerBuilder { security, ..self }),
    {
        JailerBuilder { security, ..self }
    }

    /// Replace the volume list.
    pub fn with_volumes(self, volumes: Vec<VolumeSpec>) -> (r: JailerBuilder)
        ensures
            r == (JailerBuilder { volumes, ..self }),
    {
        JailerBuilder { volumes, ..self }
    }

    /// Add one volume.
    pub fn with_volume(self, volume: VolumeSpec) -> (r: JailerBuilder)
        ensures
            r.volumes@ == self.volumes@.push(volume),
            r.security == self.security,
            r.box_id == self.box_id,
            r.layout == self.layout,
    {
        let mut volumes = self.volumes;
        volumes.push(volume);
        JailerBuilder { security: self.security, volumes, box_id: self.box_id, layout: self.layout }
    }

    /// Enable or disable the jailer; everything else in the profile is
    /// kept.
    pub fn with_jailer_enabled(self, enabled: bool) -> (r: JailerBuilder)
        ensures
            r.security == (SecurityOptions { jailer_enabled: enabled, ..self.security }),
            r.volumes == self.volumes,
            r.box_id == self.box_id,
            r.layout == self.layout,
    {
        let mut security = self.security;
        security.jailer_enabled = enabled;
        JailerBuilder { security, volumes: self.volumes, box_id: self.box_id, layout: self.layout }
    }

    /// Enable or disable seccomp filtering; everything else in the
    /// profile is kept.
    pub fn with_seccomp_enabled(self, enabled: bool) -> (r: JailerBuilder)
        ensures
            r.security == (SecurityOptions { seccomp_enabled: enabled, ..self.security }),
            r.volumes == self.volumes,
            r.box_id == self.box_id,
            r.layout == self.layout,
    {
        let mut security = self.security;
        security.seccomp_enabled = enabled;
        JailerBuilder { security, volumes: self.volumes, box_id: self.box_id, layout: self.layout }
    }

    /// Build with the platform-default sandbox, before discovery: the
    /// sandbox starts with nothing found.
    pub fn build(self) -> (r: BoxliteResult<Jailer<PlatformSandbox>>)
        ensures
            r is Ok <==> self.box_id is Some && self.layout is Some,
            match r {
                Ok(j) => j.box_id == self.box_id.unwrap() && j.layout == self.layout.unwrap()
                    && j.security == self.security && j.volumes == self.volumes
                    && j.sandbox.bwrap_path is None && j.sandbox.userns_error is None,
                Err(e) => e is Config,
            },
    {
        self.build_with(PlatformSandbox::new())
    }

    /// Build with a custom sandbox.
    ///
    /// Fails with a configuration error naming the missing field when the
    /// box identifier or the layout was not set.
    pub fn build_with<S: Sandbox>(self, sandbox: S) -> (r: BoxliteResult<Jailer<S>>)
        ensures
            r is Ok <==> self.box_id is Some && self.layout is Some,
            match r {
                Ok(j) => j.box_id == self.box_id.unwrap() && j.layout == self.layout.unwrap()
                    && j.security == self.security && j.volumes == self.volumes && j.sandbox
                    == sandbox,
                Err(e) => e is Config && (self.box_id is None ==> crate::errors::spec_error_message(
                    &e,
                ) == "box_id is required"@) && (self.box_id is Some
                    ==> crate::errors::spec_error_message(&e) == "layout is required"@),
            },
    {
        let box_id = match self.box_id {
            Some(id) => id,
            None => {
                return Err(BoxliteError::Config(String::from_str("box_id is required")));
            },
        };
        let layout = match self.layout {
            Some(l) => l,
            None => {
                return Err(BoxliteError::Config(String::from_str("layout is required")));
            },
        };
        Ok(Jailer { sandbox, security: self.security, volumes: self.volumes, box_id, layout })
    }
}

} // verus!
