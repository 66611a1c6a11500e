use vstd::prelude::*;

use crate::errors::RunError;

verus! {

// Isolation setup transforms the process's view of the filesystem and of
// the process table. The order of the steps is load-bearing: the device
// file is prepared while the ephemeral root is still reachable by its
// host path; the working directory is reset to `/` immediately after the
// root change, before any relative path is resolved; the process-ID
// namespace is detached last. `Isolation` makes that order a checked
// contract: each step requires the one before it, and a value with
// `complete()` true can only have been built by the full sequence.

/// Relies on nix::sys::stat::stat: tells whether a path exists (resolves
/// to something stat can reach).
#[verifier::external_body]
fn sys_path_exists(path: &str) -> (r: bool) {
    nix::sys::stat::stat(path).is_ok()
}

/// Relies on nix::unistd::mkdir: creates the directory, or reports the
/// OS error (among them: the path already exists).
#[verifier::external_body]
fn sys_mkdir(path: &str) -> (r: Result<(), String>) {
    match nix::unistd::mkdir(path, nix::sys::stat::Mode::from_bits_truncate(0o755)) {
        Ok(()) => Ok(()),
        Err(e) => Err(format!("{}", e)),
    }
}

/// Relies on nix::fcntl::open with O_CREAT | O_WRONLY: creates the file
/// if absent, opens it writable, and hands back the file descriptor.
#[verifier::external_body]
fn sys_open_create(path: &str) -> (r: Result<i32, String>) {
    match nix::fcntl::open(
        path,
        nix::fcntl::OFlag::O_CREAT | nix::fcntl::OFlag::O_WRONLY,
        nix::sys::stat::Mode::from_bits_truncate(0o666),
    ) {
        Ok(fd) => Ok(fd),
        Err(e) => Err(format!("{}", e)),
    }
}

/// Relies on nix::unistd::close: closes a file descriptor.
#[verifier::external_body]
fn sys_close(fd: i32) -> (r: Result<(), String>) {
    match nix::unistd::close(fd) {
        Ok(()) => Ok(()),
        Err(e) => Err(format!("{}", e)),
    }
}

/// Relies on nix::unistd::chroot: redefines `/` for this process, without
/// touching its working directory. Irreversible within the process.
#[verifier::external_body]
fn sys_chroot(path: &str) -> (r: Result<(), String>) {
    match nix::unistd::chroot(path) {
        Ok(()) => Ok(()),
        Err(e) => Err(format!("{}", e)),
    }
}

/// Relies on nix::unistd::chdir: changes this process's working directory.
#[verifier::external_body]
fn sys_chdir(path: &str) -> (r: Result<(), String>) {
    match nix::unistd::chdir(path) {
        Ok(()) => Ok(()),
        Err(e) => Err(format!("{}", e)),
    }
}

/// Relies on nix::sched::unshare with CLONE_NEWPID: detaches the process
/// into a new, private process-ID namespace.
#[verifier::external_body]
fn sys_unshare_newpid() -> (r: Result<(), String>) {
    match nix::sched::unshare(nix::sched::CloneFlags::CLONE_NEWPID) {
        Ok(()) => Ok(()),
        Err(e) => Err(format!("{}", e)),
    }
}

/// Detaches the process into a new process-ID namespace, so the launched
/// command sees itself as process 1. Meaningful only where the kernel
/// supports cloning process-ID namespaces; elsewhere use
/// `PidStrategy::NoOp` and never reach this call.
pub fn unshare_pid() -> (r: Result<(), RunError>)
    ensures
        r is Err ==> r->Err_0 is Isolation,
{
    match sys_unshare_newpid() {
        Ok(()) => Ok(()),
        Err(detail) => Err(RunError::Isolation { detail }),
    }
}

/// How the process-ID step is performed: the real namespace detach where
/// the kernel supports it, a silent no-op elsewhere. Chosen by the caller
/// at start time, not by conditional compilation in the flow.
pub enum PidStrategy {
    /// Detach into a new, private process-ID namespace.
    NewNamespace,
    /// The platform has no process-ID namespaces: do nothing.
    NoOp,
}

/// The path `root` + `rel`, both given as host-side strings.
pub fn under_root(root: &str, rel: &str) -> (r: String)
    ensures
        r@ == root@ + rel@,
{
    let mut u = String::from_str(root);
    u.append(rel);
    u
}

/// Progress of the isolation sequence. The flags only ever move from
/// false to true, and `ordered()` holds at every point: a later step
/// implies every earlier one, so a process is never launched with only
/// some isolation steps applied.
pub struct Isolation {
    dev_null_ready: bool,
    root_changed: bool,
    cwd_reset: bool,
    pid_step_done: bool,
}

impl Isolation {
    /// The device file under the ephemeral root exists and is writable.
    pub closed spec fn dev_null_ready(&self) -> bool {
        self.dev_null_ready
    }

    /// The process's filesystem root is the ephemeral root.
    pub closed spec fn root_changed(&self) -> bool {
        self.root_changed
    }

    /// The working directory was reset to `/` after the root change.
    pub closed spec fn cwd_reset(&self) -> bool {
        self.cwd_reset
    }

    /// The process-ID step ran (a real detach, or the chosen no-op).
    pub closed spec fn pid_step_done(&self) -> bool {
        self.pid_step_done
    }

    /// The steps that happened so far happened in the load-bearing order:
    /// device file before root change, root change before the working
    /// directory reset, and the working directory reset before the
    /// process-ID step.
    pub open spec fn ordered(&self) -> bool {
        &&& self.root_changed() ==> self.dev_null_ready()
        &&& self.cwd_reset() ==> self.root_changed()
        &&& self.pid_step_done() ==> self.cwd_reset()
    }

    /// Every isolation step has been applied.
    pub open spec fn complete(&self) -> bool {
        &&& self.dev_null_ready()
        &&& self.root_changed()
        &&& self.cwd_reset()
        &&& self.pid_step_done()
    }

    /// Nothing is isolated yet.
    pub fn begin() -> (r: Isolation)
        ensures
            !r.dev_null_ready(),
            !r.root_changed(),
            !r.cwd_reset(),
            !r.pid_step_done(),
            r.ordered(),
    {
        Isolation { dev_null_ready: false, root_changed: false, cwd_reset: false, pid_step_done: false }
    }

    /// Ensures `<root>/dev/null` exists and is writable, creating `dev`
    /// and the file where a layer did not already provide them. Must run
    /// before the root change, while `root` is still a valid host path.
    pub fn prepare_dev_null(&mut self, root: &str) -> (r: Result<(), RunError>)
        requires
            !old(self).root_changed(),
            old(self).ordered(),
        ensures
            final(self).ordered(),
            !final(self).root_changed(),
            r is Ok ==> final(self).dev_null_ready(),
            r is Err ==> *final(self) == *old(self),
            r is Err ==> r->Err_0 is Isolation,
    {
        let dev_dir = under_root(root, "/dev");
        if !sys_path_exists(dev_dir.as_str()) {
            match sys_mkdir(dev_dir.as_str()) {
                Ok(()) => {},
                Err(detail) => {
                    return Err(RunError::Isolation { detail });
                },
            }
        }
        let dev_null = under_root(root, "/dev/null");
        match sys_open_create(dev_null.as_str()) {
            Ok(fd) => {
                let _ = sys_close(fd);
            },
            Err(detail) => {
                return Err(RunError::Isolation { detail });
            },
        }
        self.dev_null_ready = true;
        Ok(())
    }

    /// Changes the process's filesystem root to the ephemeral root. This
    /// does not change the working directory: `reset_cwd` must follow
    /// before any relative path is resolved. At most once per process.
    pub fn change_root(&mut self, root: &str) -> (r: Result<(), RunError>)
        requires
            old(self).dev_null_ready(),
            !old(self).root_changed(),
            old(self).ordered(),
        ensures
            final(self).ordered(),
            r is Ok ==> final(self).root_changed() && !final(self).cwd_reset(),
            r is Err ==> *final(self) == *old(self),
            r is Err ==> r->Err_0 is Isolation,
    {
        match sys_chroot(root) {
            Ok(()) => {
                self.root_changed = true;
                Ok(())
            },
            Err(detail) => Err(RunError::Isolation { detail }),
        }
    }

    /// Resets the working directory to `/`, directly after the root
    /// change: until this ran, relative paths still resolve against the
    /// pre-isolation working directory, which may not exist in the new
    /// root.
    pub fn reset_cwd(&mut self) -> (r: Result<(), RunError>)
        requires
            old(self).root_changed(),
            old(self).ordered(),
        ensures
            final(self).ordered(),
            r is Ok ==> final(self).cwd_reset(),
            r is Err ==> *final(self) == *old(self),
            r is Err ==> r->Err_0 is Isolation,
    {
        match sys_chdir("/") {
            Ok(()) => {
                self.cwd_reset = true;
                Ok(())
            },
            Err(detail) => Err(RunError::Isolation { detail }),
        }
    }

    /// Performs the process-ID step, strictly after the root change and
    /// the working directory reset. The no-op strategy makes no outside
    /// call, so on it the step always succeeds.
    pub fn detach_pid(&mut self, strategy: PidStrategy) -> (r: Result<(), RunError>)
        requires
            old(self).cwd_reset(),
            old(self).ordered(),
        ensures
            final(self).ordered(),
            r is Ok ==> final(self).pid_step_done(),
            strategy is NoOp ==> r is Ok,
            r is Err ==> *final(self) == *old(self),
            r is Err ==> r->Err_0 is Isolation,
    {
        match strategy {
            PidStrategy::NewNamespace => {
                match unshare_pid() {
                    Ok(()) => {
                        self.pid_step_done = true;
                        Ok(())
                    },
                    Err(e) => Err(e),
                }
            },
            PidStrategy::NoOp => {
                self.pid_step_done = true;
                Ok(())
            },
        }
    }
}

/// The whole isolation sequence in its load-bearing order: device file,
/// root change, working directory reset, process-ID step. A failure in
/// any step aborts with nothing launched; success hands back a witness
/// that every step was applied, in order.
pub fn isolate(root: &str, strategy: PidStrategy) -> (r: Result<Isolation, RunError>)
    ensures
        r is Ok ==> r->Ok_0.complete() && r->Ok_0.ordered(),
        r is Err ==> r->Err_0 is Isolation,
{
    let mut iso = Isolation::begin();
    match iso.prepare_dev_null(root) {
        Ok(()) => {},
        Err(e) => {
            return Err(e);
        },
    }
    match iso.change_root(root) {
        Ok(()) => {},
        Err(e) => {
            return Err(e);
        },
    }
    match iso.reset_cwd() {
        Ok(()) => {},
        Err(e) => {
            return Err(e);
        },
    }
    match iso.detach_pid(strategy) {
        Ok(()) => {},
        Err(e) => {
            return Err(e);
        },
    }
    Ok(iso)
}

} // verus!
