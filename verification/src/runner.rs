use vstd::prelude::*;

use crate::errors::RunError;
use crate::isolation::Isolation;

verus! {

// The process runner executes the requested command inside the isolated
// root, synchronously, and reflects its outcome to the invoking terminal.
// Spawning and waiting are plain input/output and live outside the
// library; what is decided here — which command at which path, when a
// launch is allowed, what the tool's exit code is, and what may be
// forwarded — is verified.

/// The positional arguments of `run <image> <command> [<arg>...]`.
pub struct Invocation {
    pub image: String,
    pub command: String,
    pub command_args: Vec<String>,
}

/// Reads the positional arguments out of the full argument vector: the
/// image at position 2, the command at position 3, the command's own
/// arguments after it. Callers must have checked that all positions are
/// present.
pub fn parse_args(args: &Vec<String>) -> (r: Invocation)
    requires
        args@.len() >= 4,
    ensures
        r.image@ == args@[2]@,
        r.command@ == args@[3]@,
        r.command_args@.len() == args@.len() - 4,
        forall|k: int| 0 <= k < r.command_args@.len() ==> r.command_args@[k]@ == args@[k + 4]@,
{
    let image = args[2].clone();
    let command = args[3].clone();
    let mut command_args: Vec<String> = Vec::new();
    let n = args.len();
    let mut i: usize = 4;
    while i < n
        invariant
            4 <= i <= n,
            n == args@.len(),
            command_args@.len() == i - 4,
            forall|k: int| 0 <= k < command_args@.len() ==> command_args@[k]@ == args@[k + 4]@,
        decreases n - i,
    {
        command_args.push(args[i].clone());
        i = i + 1;
    }
    Invocation { image, command, command_args }
}

/// A command path with at most one leading `/` removed: the path the
/// command resolves to relative to a root.
pub open spec fn rootless(c: Seq<char>) -> Seq<char> {
    if c.len() > 0 && c[0] == '/' {
        c.subrange(1, c.len() as int)
    } else {
        c
    }
}

/// Where the command's executable must sit inside the ephemeral root so
/// that the same command path still resolves after the root change: the
/// command path, made relative, joined under the root.
pub fn command_dest_path(root: &str, command: &str) -> (r: String)
    ensures
        r@ == root@ + "/"@ + rootless(command@),
{
    let n = command.unicode_len();
    let mut u = String::from_str(root);
    u.append("/");
    if n > 0 && command.get_char(0) == '/' {
        let rest = command.substring_char(1, n);
        u.append(rest);
    } else {
        u.append(command);
    }
    u
}

/// What the runner hands to the operating system: the command path as
/// the caller wrote it (it resolves inside the new root), and the
/// command's arguments, unchanged.
pub struct LaunchPlan {
    pub command: String,
    pub args: Vec<String>,
}

/// A launch plan can be formed only for a completely isolated process,
/// so a command is never started with only some isolation steps applied.
pub fn launch_plan(iso: &Isolation, invocation: &Invocation) -> (r: LaunchPlan)
    requires
        iso.complete(),
    ensures
        r.command@ == invocation.command@,
        r.args@.len() == invocation.command_args@.len(),
        forall|k: int|
            0 <= k < r.args@.len() ==> r.args@[k]@ == invocation.command_args@[k]@,
{
    let mut args: Vec<String> = Vec::new();
    let n = invocation.command_args.len();
    let mut i: usize = 0;
    while i < n
        invariant
            i <= n,
            n == invocation.command_args@.len(),
            args@.len() == i,
            forall|k: int| 0 <= k < args@.len() ==> args@[k]@ == invocation.command_args@[k]@,
        decreases n - i,
    {
        args.push(invocation.command_args[i].clone());
        i = i + 1;
    }
    LaunchPlan { command: invocation.command.clone(), args }
}

/// A completed child process: its captured output streams and its exit
/// code, or `None` when it was terminated by a signal.
pub struct ProcessResult {
    pub stdout: Vec<u8>,
    pub stderr: Vec<u8>,
    pub status: Option<i32>,
}

impl ProcessResult {
    /// The exit code the tool itself terminates with after a child ran to
    /// completion: the child's own code, or the fixed fallback 1 when the
    /// child was terminated by a signal and reported none.
    pub fn exit_code(&self) -> (code: i32)
        ensures
            self.status is Some ==> code == self.status->0,
            self.status is None ==> code == 1,
    {
        match self.status {
            Some(c) => c,
            None => 1,
        }
    }
}

/// Whether a byte sequence is valid UTF-8.
pub uninterp spec fn utf8_valid(bytes: Seq<u8>) -> bool;

/// Relies on std::str::from_utf8: it returns Ok exactly when the bytes
/// are valid UTF-8.
#[verifier::external_body]
fn check_utf8(bytes: &Vec<u8>) -> (r: bool)
    ensures
        r == utf8_valid(bytes@),
{
    std::str::from_utf8(bytes.as_slice()).is_ok()
}

/// What the tool forwards after the child exited: the child's stdout and
/// stderr, byte for byte and in the same stream separation, provided both
/// are valid UTF-8; a stream that is not is a decode failure.
pub fn output_streams(result: ProcessResult) -> (r: Result<(Vec<u8>, Vec<u8>), RunError>)
    ensures
        r is Ok <==> utf8_valid(result.stdout@) && utf8_valid(result.stderr@),
        r is Ok ==> r->Ok_0.0@ == result.stdout@ && r->Ok_0.1@ == result.stderr@,
        r is Err ==> r->Err_0 is OutputDecode,
{
    if !check_utf8(&result.stdout) {
        return Err(
            RunError::OutputDecode {
                detail: String::from_str("child stdout is not valid UTF-8"),
            },
        );
    }
    if !check_utf8(&result.stderr) {
        return Err(
            RunError::OutputDecode {
                detail: String::from_str("child stderr is not valid UTF-8"),
            },
        );
    }
    Ok((result.stdout, result.stderr))
}

} // verus!
