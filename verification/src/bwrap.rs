//! The bubblewrap command builder and the user-namespace diagnostics.
//!
//! Bubblewrap provides namespace isolation, bind mounts, environment
//! sanitization and die-with-parent behaviour for the shim process.  This
//! module builds the argument list handed to `bwrap` and, when the kernel
//! refuses user namespaces, turns the observed sysctl values into a
//! targeted diagnosis.

use vstd::prelude::*;
use vstd::string::*;

use crate::host::path_exists;
use crate::strutil::str_eq;

verus! {

/// A command ready to spawn: a program, its arguments, and the environment
/// handling the spawner applies.
#[derive(Debug, Clone)]
pub struct CommandSpec {
    /// The program to run.
    pub program: String,
    /// Its arguments, in order.
    pub args: Vec<String>,
}

impl CommandSpec {
    /// A command that runs `program` with `args` directly.
    pub fn direct(program: String, args: Vec<String>) -> (r: CommandSpec)
        ensures
            r.program@ == program@,
            r.args == args,
    {
        CommandSpec { program, args }
    }

    /// The program.
    pub fn get_program(&self) -> (r: &String)
        ensures
            r@ == self.program@,
    {
        &self.program
    }

    /// The arguments.
    pub fn get_args(&self) -> (r: &Vec<String>)
        ensures
            r == &self.args,
    {
        &self.args
    }
}

/// Builder for the `bwrap` argument list.
#[derive(Debug, Clone)]
pub struct BwrapCommand {
    /// The arguments accumulated so far.
    pub args: Vec<String>,
}

impl BwrapCommand {
    /// An empty builder.
    pub fn new() -> (r: BwrapCommand)
        ensures
            r.args@.len() == 0,
    {
        BwrapCommand { args: Vec::new() }
    }

    /// Append one argument.
    fn push_arg(&mut self, s: &str)
        ensures
            final(self).args.deep_view() == old(self).args.deep_view().push(s@),
    {
        let ghost old_dv = self.args.deep_view();
        self.args.push(s.to_owned());
        proof {
            assert(self.args.deep_view() =~= old_dv.push(s@));
        }
    }

    /// Isolate user, PID, IPC and UTS namespaces.  The network namespace
    /// stays shared: user-mode networking needs host networking; the mount
    /// namespace is implicitly unshared by the bind mounts.
    pub fn with_default_namespaces(&mut self)
        ensures
            final(self).args.deep_view() == old(self).args.deep_view() + seq![
                "--unshare-user"@,
                "--unshare-pid"@,
                "--unshare-ipc"@,
                "--unshare-uts"@,
            ],
    {
        let ghost old_dv = self.args.deep_view();
        self.push_arg("--unshare-user");
        self.push_arg("--unshare-pid");
        self.push_arg("--unshare-ipc");
        self.push_arg("--unshare-uts");
        proof {
            assert(self.args.deep_view() =~= old_dv + seq![
                "--unshare-user"@,
                "--unshare-pid"@,
                "--unshare-ipc"@,
                "--unshare-uts"@,
            ]);
        }
    }

    /// Die with the parent process.
    pub fn with_die_with_parent(&mut self)
        ensures
            final(self).args.deep_view() == old(self).args.deep_view().push(
                "--die-with-parent"@,
            ),
    {
        self.push_arg("--die-with-parent");
    }

    /// Start a new session, preventing terminal-injection attacks.
    pub fn with_new_session(&mut self)
        ensures
            final(self).args.deep_view() == old(self).args.deep_view().push("--new-session"@),
    {
        self.push_arg("--new-session");
    }

    /// Append a three-argument mount clause.
    fn push_triple(&mut self, flag: &str, src: &str, dest: &str)
        ensures
            final(self).args.deep_view() == old(self).args.deep_view() + seq![flag@, src@, dest@],
    {
        let ghost old_dv = self.args.deep_view();
        self.push_arg(flag);
        self.push_arg(src);
        self.push_arg(dest);
        proof {
            assert(self.args.deep_view() =~= old_dv + seq![flag@, src@, dest@]);
        }
    }

    /// Bind `src` read-only at `dest`.
    pub fn ro_bind(&mut self, src: &str, dest: &str)
        ensures
            final(self).args.deep_view() == old(self).args.deep_view() + seq![
                "--ro-bind"@,
                src@,
                dest@,
            ],
    {
        self.push_triple("--ro-bind", src, dest);
    }

    /// Bind `src` read-only at `dest` when `src` exists on disk; existence
    /// depends on the disk, so either outcome is possible.
    pub fn ro_bind_if_exists(&mut self, src: &str, dest: &str)
        ensures
            final(self).args.deep_view() == old(self).args.deep_view() + seq![
                "--ro-bind"@,
                src@,
                dest@,
            ] || final(self).args.deep_view() == old(self).args.deep_view(),
    {
        if path_exists(src) {
            self.push_triple("--ro-bind", src, dest);
        }
    }

    /// Bind `src` read-write at `dest`.
    pub fn bind(&mut self, src: &str, dest: &str)
        ensures
            final(self).args.deep_view() == old(self).args.deep_view() + seq![
                "--bind"@,
                src@,
                dest@,
            ],
    {
        self.push_triple("--bind", src, dest);
    }

    /// Bind a device node at `dest`.
    pub fn dev_bind(&mut self, src: &str, dest: &str)
        ensures
            final(self).args.deep_view() == old(self).args.deep_view() + seq![
                "--dev-bind"@,
                src@,
                dest@,
            ],
    {
        self.push_triple("--dev-bind", src, dest);
    }

    /// Bind a device node at `dest` when `src` exists on disk.
    pub fn dev_bind_if_exists(&mut self, src: &str, dest: &str)
        ensures
            final(self).args.deep_view() == old(self).args.deep_view() + seq![
                "--dev-bind"@,
                src@,
                dest@,
            ] || final(self).args.deep_view() == old(self).args.deep_view(),
    {
        if path_exists(src) {
            self.push_triple("--dev-bind", src, dest);
        }
    }

    /// Mount a fresh `/dev` with default devices.
    pub fn with_dev(&mut self)
        ensures
            final(self).args.deep_view() == old(self).args.deep_view() + seq!["--dev"@, "/dev"@],
    {
        let ghost old_dv = self.args.deep_view();
        self.push_arg("--dev");
        self.push_arg("/dev");
        proof {
            assert(self.args.deep_view() =~= old_dv + seq!["--dev"@, "/dev"@]);
        }
    }

    /// Mount `/proc`.
    pub fn with_proc(&mut self)
        ensures
            final(self).args.deep_view() == old(self).args.deep_view() + seq![
                "--proc"@,
                "/proc"@,
            ],
    {
        let ghost old_dv = self.args.deep_view();
        self.push_arg("--proc");
        self.push_arg("/proc");
        proof {
            assert(self.args.deep_view() =~= old_dv + seq!["--proc"@, "/proc"@]);
        }
    }

    /// Mount a tmpfs at `path`.
    pub fn tmpfs(&mut self, path: &str)
        ensures
            final(self).args.deep_view() == old(self).args.deep_view() + seq!["--tmpfs"@, path@],
    {
        let ghost old_dv = self.args.deep_view();
        self.push_arg("--tmpfs");
        self.push_arg(path);
        proof {
            assert(self.args.deep_view() =~= old_dv + seq!["--tmpfs"@, path@]);
        }
    }

    /// Clear the inherited environment.
    pub fn with_clearenv(&mut self)
        ensures
            final(self).args.deep_view() == old(self).args.deep_view().push("--clearenv"@),
    {
        self.push_arg("--clearenv");
    }

    /// Set one environment variable inside the sandbox.
    pub fn setenv(&mut self, key: &str, value: &str)
        ensures
            final(self).args.deep_view() == old(self).args.deep_view() + seq![
                "--setenv"@,
                key@,
                value@,
            ],
    {
        self.push_triple("--setenv", key, value);
    }

    /// Read the seccomp filter from the given file descriptor.
    pub fn with_seccomp_fd(&mut self, fd: u64)
        ensures
            final(self).args.deep_view() == old(self).args.deep_view() + seq![
                "--seccomp"@,
                crate::strutil::spec_dec(fd as nat),
            ],
    {
        let ghost old_dv = self.args.deep_view();
        self.push_arg("--seccomp");
        let rendered = crate::strutil::u64_to_dec(fd);
        self.push_arg(rendered.as_str());
        proof {
            assert(self.args.deep_view() =~= old_dv + seq![
                "--seccomp"@,
                crate::strutil::spec_dec(fd as nat),
            ]);
        }
    }

    /// Set the working directory inside the sandbox.
    pub fn chdir(&mut self, path: &str)
        ensures
            final(self).args.deep_view() == old(self).args.deep_view() + seq!["--chdir"@, path@],
    {
        let ghost old_dv = self.args.deep_view();
        self.push_arg("--chdir");
        self.push_arg(path);
        proof {
            assert(self.args.deep_view() =~= old_dv + seq!["--chdir"@, path@]);
        }
    }

    /// The arguments accumulated so far.
    pub fn get_args(&self) -> (r: &Vec<String>)
        ensures
            r == &self.args,
    {
        &self.args
    }

    /// The final command: the bwrap binary, the accumulated arguments, a
    /// `--` separator, then the wrapped executable and its arguments.
    pub fn build(&self, bwrap_path: &str, executable: &str, args: &Vec<String>) -> (r: CommandSpec)
        ensures
            r.program@ == bwrap_path@,
            r.args.deep_view() == self.args.deep_view() + seq!["--"@, executable@]
                + args.deep_view(),
    {
        let mut all = self.args.clone();
        let ghost base = self.args.deep_view();
        proof {
            assert(all.deep_view() =~= base);
        }
        let ghost dv0 = all.deep_view();
        all.push(String::from_str("--"));
        proof {
            assert(all.deep_view() =~= dv0.push("--"@));
        }
        let ghost dv1 = all.deep_view();
        all.push(executable.to_owned());
        proof {
            assert(all.deep_view() =~= dv1.push(executable@));
        }
        let n = args.len();
        let mut i: usize = 0;
        while i < n
            invariant
                i <= n,
                n == args@.len(),
                all.deep_view() == base + seq!["--"@, executable@] + args.deep_view().take(
                    i as int,
                ),
            decreases n - i,
        {
            let ghost dv = all.deep_view();
            all.push(args[i].clone());
            proof {
                assert(all.deep_view() =~= dv.push(args.deep_view()[i as int]));
                assert(all.deep_view() =~= base + seq!["--"@, executable@]
                    + args.deep_view().take(i + 1 as int));
            }
            i += 1;
        }
        proof {
            assert(args.deep_view().take(n as int) =~= args.deep_view());
        }
        CommandSpec { program: bwrap_path.to_owned(), args: all }
    }
}

/// The `--ro-bind p p` clauses of a path list, in order.
pub open spec fn spec_ro_bind_args(ps: Seq<Seq<char>>) -> Seq<Seq<char>>
    decreases ps.len(),
{
    if ps.len() == 0 {
        Seq::empty()
    } else {
        spec_ro_bind_args(ps.drop_last()) + seq!["--ro-bind"@, ps.last(), ps.last()]
    }
}

/// The `--dev-bind p p` clauses of a path list, in order.
pub open spec fn spec_dev_bind_args(ps: Seq<Seq<char>>) -> Seq<Seq<char>>
    decreases ps.len(),
{
    if ps.len() == 0 {
        Seq::empty()
    } else {
        spec_dev_bind_args(ps.drop_last()) + seq!["--dev-bind"@, ps.last(), ps.last()]
    }
}

/// The `--bind p p` clauses of a path list, in order.
pub open spec fn spec_bind_args(ps: Seq<Seq<char>>) -> Seq<Seq<char>>
    decreases ps.len(),
{
    if ps.len() == 0 {
        Seq::empty()
    } else {
        spec_bind_args(ps.drop_last()) + seq!["--bind"@, ps.last(), ps.last()]
    }
}

/// The `--setenv k v` clauses of an environment list, in order.
pub open spec fn spec_setenv_args(pairs: Seq<(String, String)>) -> Seq<Seq<char>>
    decreases pairs.len(),
{
    if pairs.len() == 0 {
        Seq::empty()
    } else {
        spec_setenv_args(pairs.drop_last()) + seq![
            "--setenv"@,
            pairs.last().0@,
            pairs.last().1@,
        ]
    }
}

impl BwrapCommand {
    /// Bind each path read-only at itself.
    pub fn ro_bind_each(&mut self, paths: &Vec<String>)
        ensures
            final(self).args.deep_view() == old(self).args.deep_view() + spec_ro_bind_args(
                paths.deep_view(),
            ),
    {
        let ghost base = self.args.deep_view();
        let n = paths.len();
        let mut i: usize = 0;
        while i < n
            invariant
                i <= n,
                n == paths@.len(),
                self.args.deep_view() == base + spec_ro_bind_args(paths.deep_view().take(i as int)),
            decreases n - i,
        {
            self.ro_bind(paths[i].as_str(), paths[i].as_str());
            proof {
                assert(paths.deep_view().take(i + 1 as int).drop_last() =~= paths.deep_view().take(
                    i as int,
                ));
                assert(self.args.deep_view() =~= base + spec_ro_bind_args(
                    paths.deep_view().take(i + 1 as int),
                ));
            }
            i += 1;
        }
        proof {
            assert(paths.deep_view().take(n as int) =~= paths.deep_view());
        }
    }

    /// Bind each device node at itself.
    pub fn dev_bind_each(&mut self, paths: &Vec<String>)
        ensures
            final(self).args.deep_view() == old(self).args.deep_view() + spec_dev_bind_args(
                paths.deep_view(),
            ),
    {
        let ghost base = self.args.deep_view();
        let n = paths.len();
        let mut i: usize = 0;
        while i < n
            invariant
                i <= n,
                n == paths@.len(),
                self.args.deep_view() == base + spec_dev_bind_args(
                    paths.deep_view().take(i as int),
                ),
            decreases n - i,
        {
            self.dev_bind(paths[i].as_str(), paths[i].as_str());
            proof {
                assert(paths.deep_view().take(i + 1 as int).drop_last() =~= paths.deep_view().take(
                    i as int,
                ));
                assert(self.args.deep_view() =~= base + spec_dev_bind_args(
                    paths.deep_view().take(i + 1 as int),
                ));
            }
            i += 1;
        }
        proof {
            assert(paths.deep_view().take(n as int) =~= paths.deep_view());
        }
    }

    /// Set each environment pair.
    pub fn setenv_each(&mut self, pairs: &Vec<(String, String)>)
        ensures
            final(self).args.deep_view() == old(self).args.deep_view() + spec_setenv_args(pairs@),
    {
        let ghost base = self.args.deep_view();
        let n = pairs.len();
        let mut i: usize = 0;
        while i < n
            invariant
                i <= n,
                n == pairs@.len(),
                self.args.deep_view() == base + spec_setenv_args(pairs@.take(i as int)),
            decreases n - i,
        {
            self.setenv(pairs[i].0.as_str(), pairs[i].1.as_str());
            proof {
                assert(pairs@.take(i + 1 as int).drop_last() =~= pairs@.take(i as int));
                assert(self.args.deep_view() =~= base + spec_setenv_args(
                    pairs@.take(i + 1 as int),
                ));
            }
            i += 1;
        }
        proof {
            assert(pairs@.take(n as int) =~= pairs@);
        }
    }
}

/// The directory part of a path: everything before the last separator,
/// or nothing when the path has none.
pub open spec fn spec_parent_dir(p: Seq<char>) -> Option<Seq<char>>
    decreases p.len(),
{
    if p.len() == 0 {
        None
    } else if p.last() == '/' {
        Some(p.drop_last())
    } else {
        spec_parent_dir(p.drop_last())
    }
}

/// The directory part of a path: everything before the last separator.
pub fn parent_dir(path: &str) -> (r: Option<String>)
    ensures
        r is Some <==> spec_parent_dir(path@) is Some,
        r matches Some(d) ==> spec_parent_dir(path@) == Some(d@),
{
    let len = path.unicode_len();
    let mut i: usize = len;
    proof {
        assert(path@.take(len as int) =~= path@);
    }
    while i > 0
        invariant
            i <= len,
            len == path@.len(),
            spec_parent_dir(path@) == spec_parent_dir(path@.take(i as int)),
        decreases i,
    {
        proof {
            assert(path@.take(i as int).drop_last() =~= path@.take(i - 1 as int));
            assert(path@.take(i as int).last() == path@[i - 1]);
        }
        if path.get_char(i - 1) == '/' {
            let d = crate::strutil::take_chars(path, i - 1);
            return Some(d);
        }
        i -= 1;
    }
    proof {
        assert(path@.take(0) =~= Seq::<char>::empty());
    }
    None
}

/// Whether the shim binary's directory needs its own read-only mount:
/// only when no system mount already covers it.
pub fn shim_dir_needs_mount(dir: &str) -> (r: bool)
    ensures
        r == !(crate::strutil::spec_has_prefix(dir@, "/usr"@) || crate::strutil::spec_has_prefix(
            dir@,
            "/lib"@,
        ) || crate::strutil::spec_has_prefix(dir@, "/bin"@)),
{
    let covered = crate::strutil::starts_with(dir, "/usr") || crate::strutil::starts_with(
        dir,
        "/lib",
    ) || crate::strutil::starts_with(dir, "/bin");
    !covered
}

/// Host environment values re-instated inside the cleared sandbox
/// environment.
#[derive(Debug, Clone)]
pub struct ShimEnv {
    /// The dynamic-linker search path the shim's bundled libraries need.
    pub ld_library_path: Option<String>,
    /// The log filter, preserved for debugging.
    pub rust_log: Option<String>,
    /// The backtrace switch, preserved for debugging.
    pub rust_backtrace: Option<String>,
}

/// A system mount already covers the directory.
pub open spec fn spec_dir_covered(d: Seq<char>) -> bool {
    crate::strutil::spec_has_prefix(d, "/usr"@) || crate::strutil::spec_has_prefix(d, "/lib"@)
        || crate::strutil::spec_has_prefix(d, "/bin"@)
}

/// The mount clause of the shim binary's own directory: present exactly
/// when the path has a directory part that no system mount covers.
pub open spec fn spec_shim_dir_mount(shim_path: Seq<char>) -> Seq<Seq<char>> {
    match spec_parent_dir(shim_path) {
        Some(d) => if !spec_dir_covered(d) {
            seq!["--ro-bind"@, d, d]
        } else {
            Seq::empty()
        },
        None => Seq::empty(),
    }
}

/// The dynamic-linker clause: the given search path, or the shim's own
/// directory as the fallback the bundled libraries need.
pub open spec fn spec_ld_args(ld: Option<String>, shim_path: Seq<char>) -> Seq<Seq<char>> {
    match ld {
        Some(v) => seq!["--setenv"@, "LD_LIBRARY_PATH"@, v@],
        None => match spec_parent_dir(shim_path) {
            Some(d) => seq!["--setenv"@, "LD_LIBRARY_PATH"@, d],
            None => Seq::empty(),
        },
    }
}

/// An optional environment clause.
pub open spec fn spec_opt_setenv(key: Seq<char>, v: Option<String>) -> Seq<Seq<char>> {
    match v {
        Some(x) => seq!["--setenv"@, key, x@],
        None => Seq::empty(),
    }
}

/// The exact argument list of the shim's sandbox: namespace isolation,
/// the discovered system and device mounts, `/proc` and a tmpfs `/tmp`,
/// the writable runtime home, the shim directory when needed, a cleared
/// environment with the minimal set re-instated, and the shim with its
/// arguments after the separator.
pub open spec fn spec_shim_command_args(
    system_mounts: Seq<Seq<char>>,
    device_mounts: Seq<Seq<char>>,
    home_dir: Seq<char>,
    shim_path: Seq<char>,
    shim_args: Seq<Seq<char>>,
    env: &ShimEnv,
) -> Seq<Seq<char>> {
    seq![
        "--unshare-user"@,
        "--unshare-pid"@,
        "--unshare-ipc"@,
        "--unshare-uts"@,
        "--die-with-parent"@,
        "--new-session"@,
    ] + spec_ro_bind_args(system_mounts) + seq!["--dev"@, "/dev"@] + spec_dev_bind_args(
        device_mounts,
    ) + seq!["--proc"@, "/proc"@, "--tmpfs"@, "/tmp"@, "--bind"@, home_dir, home_dir]
        + spec_shim_dir_mount(shim_path) + seq![
        "--clearenv"@,
        "--setenv"@,
        "PATH"@,
        "/usr/bin:/bin:/usr/sbin:/sbin"@,
        "--setenv"@,
        "HOME"@,
        "/root"@,
    ] + spec_ld_args(env.ld_library_path, shim_path) + spec_opt_setenv("RUST_LOG"@, env.rust_log)
        + spec_opt_setenv("RUST_BACKTRACE"@, env.rust_backtrace) + seq!["--chdir"@, "/"@] + seq![
        "--"@,
        shim_path,
    ] + shim_args
}

/// Build the bwrap command that spawns the shim: exactly the program and
/// arguments of [`spec_shim_command_args`].  `system_mounts` and
/// `device_mounts` are the system directories and device nodes discovery
/// found on this host.
#[verifier::rlimit(30)]
pub fn build_shim_command(
    bwrap_path: &str,
    shim_path: &str,
    shim_args: &Vec<String>,
    home_dir: &str,
    system_mounts: &Vec<String>,
    device_mounts: &Vec<String>,
    env: &ShimEnv,
) -> (r: CommandSpec)
    ensures
        r.program@ == bwrap_path@,
        r.args.deep_view() == spec_shim_command_args(
            system_mounts.deep_view(),
            device_mounts.deep_view(),
            home_dir@,
            shim_path@,
            shim_args.deep_view(),
            env,
        ),
{
    let mut cmd = BwrapCommand::new();
    cmd.with_default_namespaces();
    cmd.with_die_with_parent();
    cmd.with_new_session();
    let ghost seg1 = cmd.args.deep_view();
    cmd.ro_bind_each(system_mounts);
    cmd.with_dev();
    cmd.dev_bind_each(device_mounts);
    cmd.with_proc();
    cmd.tmpfs("/tmp");
    cmd.bind(home_dir, home_dir);
    let ghost seg2 = cmd.args.deep_view();
    proof {
        assert(seg2 =~= seg1 + spec_ro_bind_args(system_mounts.deep_view()) + seq![
            "--dev"@,
            "/dev"@,
        ] + spec_dev_bind_args(device_mounts.deep_view()) + seq![
            "--proc"@,
            "/proc"@,
            "--tmpfs"@,
            "/tmp"@,
            "--bind"@,
            home_dir@,
            home_dir@,
        ]);
    }

    let shim_dir = parent_dir(shim_path);
    match &shim_dir {
        Some(dir) => {
            if shim_dir_needs_mount(dir.as_str()) {
                cmd.ro_bind(dir.as_str(), dir.as_str());
            }
        },
        None => {},
    }
    let ghost seg3 = cmd.args.deep_view();
    proof {
        assert(seg3 =~= seg2 + spec_shim_dir_mount(shim_path@));
    }

    cmd.with_clearenv();
    cmd.setenv("PATH", "/usr/bin:/bin:/usr/sbin:/sbin");
    cmd.setenv("HOME", "/root");
    let ghost seg4 = cmd.args.deep_view();
    match &env.ld_library_path {
        Some(v) => cmd.setenv("LD_LIBRARY_PATH", v.as_str()),
        None => {
            match &shim_dir {
                Some(dir) => cmd.setenv("LD_LIBRARY_PATH", dir.as_str()),
                None => {},
            }
        },
    }
    let ghost seg5 = cmd.args.deep_view();
    proof {
        assert(seg5 =~= seg4 + spec_ld_args(env.ld_library_path, shim_path@));
    }
    if let Some(v) = &env.rust_log {
        cmd.setenv("RUST_LOG", v.as_str());
    }
    if let Some(v) = &env.rust_backtrace {
        cmd.setenv("RUST_BACKTRACE", v.as_str());
    }
    cmd.chdir("/");
    let ghost seg6 = cmd.args.deep_view();
    proof {
        assert(seg6 =~= seg5 + spec_opt_setenv("RUST_LOG"@, env.rust_log) + spec_opt_setenv(
            "RUST_BACKTRACE"@,
            env.rust_backtrace,
        ) + seq!["--chdir"@, "/"@]);
    }
    let r = cmd.build(bwrap_path, shim_path, shim_args);
    proof {
        assert(r.args.deep_view() =~= spec_shim_command_args(
            system_mounts.deep_view(),
            device_mounts.deep_view(),
            home_dir@,
            shim_path@,
            shim_args.deep_view(),
            env,
        ));
    }
    r
}

/// What restricts user namespaces on this host, judged from the sysctl
/// values read under `/proc/sys`.
#[derive(Debug, Clone, Copy, PartialEq, Eq, Structural)]
pub enum UsernsRestriction {
    /// AppArmor restricts unprivileged user namespaces.
    AppArmor,
    /// Unprivileged user namespaces are disabled outright.
    CloneDisabled,
    /// The maximum number of user namespaces is zero.
    MaxZero,
    /// No known sysctl explains the failure.
    Unknown,
}

/// The sysctl values consulted for the diagnosis, each `None` when the
/// file could not be read.
#[derive(Debug, Clone)]
pub struct UsernsProbe {
    /// `kernel/apparmor_restrict_unprivileged_userns`.
    pub apparmor_restrict: Option<String>,
    /// `kernel/unprivileged_userns_clone`.
    pub userns_clone: Option<String>,
    /// `user/max_user_namespaces`.
    pub max_user_namespaces: Option<String>,
}

/// An option holds exactly the string `"1"`.
pub open spec fn spec_opt_is(o: Option<String>, v: Seq<char>) -> bool {
    match o {
        Some(s) => s@ == v,
        None => false,
    }
}

/// Judge which restriction explains a user-namespace failure: AppArmor
/// first, then the clone sysctl, then the namespace cap, else unknown.
/// The judged cause: AppArmor first, then the clone sysctl, then the
/// namespace cap, else unknown.
pub open spec fn spec_classify(probe: &UsernsProbe) -> UsernsRestriction {
    if spec_opt_is(probe.apparmor_restrict, "1"@) {
        UsernsRestriction::AppArmor
    } else if spec_opt_is(probe.userns_clone, "0"@) {
        UsernsRestriction::CloneDisabled
    } else if spec_opt_is(probe.max_user_namespaces, "0"@) {
        UsernsRestriction::MaxZero
    } else {
        UsernsRestriction::Unknown
    }
}

pub fn classify_userns_restriction(probe: &UsernsProbe) -> (r: UsernsRestriction)
    ensures
        r == spec_classify(probe),
{
    let apparmor = match &probe.apparmor_restrict {
        Some(s) => str_eq(s.as_str(), "1"),
        None => false,
    };
    if apparmor {
        return UsernsRestriction::AppArmor;
    }
    let clone_off = match &probe.userns_clone {
        Some(s) => str_eq(s.as_str(), "0"),
        None => false,
    };
    if clone_off {
        return UsernsRestriction::CloneDisabled;
    }
    let max_zero = match &probe.max_user_namespaces {
        Some(s) => str_eq(s.as_str(), "0"),
        None => false,
    };
    if max_zero {
        return UsernsRestriction::MaxZero;
    }
    UsernsRestriction::Unknown
}

/// The remediation text of each judged cause.
pub open spec fn spec_diag_cause(cause: UsernsRestriction, system: bool) -> Seq<char> {
    match cause {
        UsernsRestriction::AppArmor => "\n\nCause: AppArmor restricts user namespaces (kernel.apparmor_restrict_unprivileged_userns=1)."@
            + (if system {
            "\nThe system bwrap needs an AppArmor profile with the userns permission.\nFix (recommended): reinstall bubblewrap."@
        } else {
            "\nThe bundled bwrap has no AppArmor profile.\nFix (recommended): install the system bubblewrap package."@
        })
            + "\nFix (quick, less secure): sysctl -w kernel.apparmor_restrict_unprivileged_userns=0"@,
        UsernsRestriction::CloneDisabled => "\n\nCause: unprivileged user namespaces are disabled (kernel.unprivileged_userns_clone=0).\nFix: sysctl -w kernel.unprivileged_userns_clone=1"@,
        UsernsRestriction::MaxZero => "\n\nCause: the maximum number of user namespaces is zero (user.max_user_namespaces=0).\nFix: sysctl -w user.max_user_namespaces=15000"@,
        UsernsRestriction::Unknown => "\n\nCause: unknown restriction.\nCheck the kernel log for apparmor, selinux or userns messages."@,
    }
}

/// The stderr segment of the diagnostic.
pub open spec fn spec_diag_stderr(stderr: Seq<char>) -> Seq<char> {
    if stderr.len() > 0 {
        "\nbwrap stderr: "@ + stderr
    } else {
        Seq::empty()
    }
}

/// The errno segment of the diagnostic.
pub open spec fn spec_diag_errno(clone_errno: Option<i64>) -> Seq<char> {
    match clone_errno {
        Some(e) => "\nclone(CLONE_NEWUSER) errno: "@ + (if e >= 0 {
            crate::strutil::spec_dec(e as nat)
        } else {
            Seq::empty()
        }),
        None => Seq::empty(),
    }
}

/// The whole diagnostic: what failed and where, the stderr if any, the
/// observed errno if any, then the judged cause with its remediation.
pub open spec fn spec_diagnostic(
    clone_errno: Option<i64>,
    system: bool,
    bwrap_path: Seq<char>,
    bwrap_stderr: Seq<char>,
    cause: UsernsRestriction,
) -> Seq<char> {
    "bwrap --unshare-user failed ("@ + (if system {
        "system"@
    } else {
        "bundled"@
    }) + " bwrap at "@ + bwrap_path + ")"@ + spec_diag_stderr(bwrap_stderr) + spec_diag_errno(
        clone_errno,
    ) + spec_diag_cause(cause, system)
}

/// Build the user-namespace diagnostic shown when `bwrap --unshare-user`
/// fails: exactly the text of [`spec_diagnostic`] — what failed, the
/// observed errno, the judged cause, and the matching remediation.
/// Append the stderr segment.
fn append_diag_stderr(msg: &mut String, bwrap_stderr: &str)
    ensures
        final(msg)@ == old(msg)@ + spec_diag_stderr(bwrap_stderr@),
{
    let ghost before = msg@;
    if bwrap_stderr.unicode_len() > 0 {
        msg.append("\nbwrap stderr: ");
        msg.append(bwrap_stderr);
        proof {
            assert(msg@ =~= before + spec_diag_stderr(bwrap_stderr@));
        }
    } else {
        proof {
            assert(msg@ =~= before + spec_diag_stderr(bwrap_stderr@));
        }
    }
}

/// Append the errno segment.
fn append_diag_errno(msg: &mut String, clone_errno: Option<i64>)
    ensures
        final(msg)@ == old(msg)@ + spec_diag_errno(clone_errno),
{
    let ghost before = msg@;
    if let Some(errno) = clone_errno {
        msg.append("\nclone(CLONE_NEWUSER) errno: ");
        if errno >= 0 {
            let rendered = crate::strutil::u64_to_dec(errno as u64);
            msg.append(rendered.as_str());
        }
        proof {
            assert(msg@ =~= before + spec_diag_errno(clone_errno));
        }
    } else {
        proof {
            assert(msg@ =~= before + spec_diag_errno(clone_errno));
        }
    }
}

/// Append the judged cause and its remediation.
fn append_diag_cause(msg: &mut String, cause: UsernsRestriction, system: bool)
    ensures
        final(msg)@ == old(msg)@ + spec_diag_cause(cause, system),
{
    let ghost before = msg@;
    match cause {
        UsernsRestriction::AppArmor => {
            msg.append(
                "\n\nCause: AppArmor restricts user namespaces (kernel.apparmor_restrict_unprivileged_userns=1).",
            );
            if system {
                msg.append(
                    "\nThe system bwrap needs an AppArmor profile with the userns permission.\nFix (recommended): reinstall bubblewrap.",
                );
            } else {
                msg.append(
                    "\nThe bundled bwrap has no AppArmor profile.\nFix (recommended): install the system bubblewrap package.",
                );
            }
            msg.append(
                "\nFix (quick, less secure): sysctl -w kernel.apparmor_restrict_unprivileged_userns=0",
            );
            proof {
                assert(msg@ =~= before + spec_diag_cause(cause, system));
            }
        },
        UsernsRestriction::CloneDisabled => {
            msg.append(
                "\n\nCause: unprivileged user namespaces are disabled (kernel.unprivileged_userns_clone=0).\nFix: sysctl -w kernel.unprivileged_userns_clone=1",
            );
            proof {
                assert(msg@ =~= before + spec_diag_cause(cause, system));
            }
        },
        UsernsRestriction::MaxZero => {
            msg.append(
                "\n\nCause: the maximum number of user namespaces is zero (user.max_user_namespaces=0).\nFix: sysctl -w user.max_user_namespaces=15000",
            );
            proof {
                assert(msg@ =~= before + spec_diag_cause(cause, system));
            }
        },
        UsernsRestriction::Unknown => {
            msg.append(
                "\n\nCause: unknown restriction.\nCheck the kernel log for apparmor, selinux or userns messages.",
            );
            proof {
                assert(msg@ =~= before + spec_diag_cause(cause, system));
            }
        },
    }
}

/// Build the user-namespace diagnostic shown when `bwrap --unshare-user`
/// fails: exactly the text of [`spec_diagnostic`] — what failed, the
/// observed errno, the judged cause, and the matching remediation.
pub fn build_diagnostic(
    clone_errno: Option<i64>,
    bwrap_source_system: bool,
    bwrap_path: &str,
    bwrap_stderr: &str,
    probe: &UsernsProbe,
) -> (r: String)
    ensures
        r@ == spec_diagnostic(
            clone_errno,
            bwrap_source_system,
            bwrap_path@,
            bwrap_stderr@,
            spec_classify(probe),
        ),
{
    let mut msg = String::from_str("bwrap --unshare-user failed (");
    if bwrap_source_system {
        msg.append("system");
    } else {
        msg.append("bundled");
    }
    msg.append(" bwrap at ");
    msg.append(bwrap_path);
    msg.append(")");
    let ghost head = msg@;
    proof {
        assert(head =~= "bwrap --unshare-user failed ("@ + (if bwrap_source_system {
            "system"@
        } else {
            "bundled"@
        }) + " bwrap at "@ + bwrap_path@ + ")"@);
    }

    append_diag_stderr(&mut msg, bwrap_stderr);
    append_diag_errno(&mut msg, clone_errno);
    let cause = classify_userns_restriction(probe);
    append_diag_cause(&mut msg, cause, bwrap_source_system);
    proof {
        assert(msg@ =~= spec_diagnostic(
            clone_errno,
            bwrap_source_system,
            bwrap_path@,
            bwrap_stderr@,
            spec_classify(probe),
        ));
    }
    msg
}

} // verus!
