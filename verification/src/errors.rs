use vstd::prelude::*;

verus! {

/// Why a run aborted before the contained command could report its own
/// outcome. Every variant is fatal: nothing is retried, and the tool
/// exits with code 1 after printing the diagnostic.
#[derive(Debug)]
pub enum RunError {
    /// The token endpoint could not be reached, its reply was not JSON,
    /// or the reply held no `token` field.
    Auth { detail: String },
    /// The manifest could not be fetched or did not have the expected
    /// shape (no `layers` array, or a layer without a `digest` string).
    Manifest { detail: String },
    /// A layer blob could not be fetched from the registry.
    LayerFetch { digest: String, detail: String },
    /// A layer could not be decompressed or unpacked; `digest` names the
    /// offending layer.
    Extract { digest: String, detail: String },
    /// A step of the isolation sequence failed; no command was launched.
    Isolation { detail: String },
    /// The command could not be started at all (missing file, permission
    /// denied), as opposed to starting and exiting with a non-zero code.
    /// Carries the command and its arguments for diagnostics.
    Launch { command: String, args: Vec<String>, detail: String },
    /// The child ran to completion but one of its output streams was not
    /// valid UTF-8.
    OutputDecode { detail: String },
}

impl RunError {
    /// The process exit code an internal failure maps to: always 1,
    /// whichever step failed. Only a child that ran to completion may
    /// make the tool exit with another code.
    pub fn exit_code(&self) -> (code: i32)
        ensures
            code == 1,
    {
        1
    }

    /// How a launch diagnostic renders the command's arguments: each one
    /// quoted, in order, after the command.
    pub open spec fn rendered_args(args: Seq<String>) -> Seq<char>
        decreases args.len(),
    {
        if args.len() == 0 {
            Seq::empty()
        } else {
            Self::rendered_args(args.drop_last()) + " '"@ + args.last()@ + "'"@
        }
    }

    /// The human-readable diagnostic for this failure.
    pub open spec fn message_spec(&self) -> Seq<char> {
        match self {
            RunError::Auth { detail } => "auth error: "@ + detail@,
            RunError::Manifest { detail } => "manifest error: "@ + detail@,
            RunError::LayerFetch { digest, detail } => "fetch error for layer "@ + digest@ + ": "@
                + detail@,
            RunError::Extract { digest, detail } => "extract error for layer "@ + digest@ + ": "@
                + detail@,
            RunError::Isolation { detail } => "isolation error: "@ + detail@,
            RunError::Launch { command, args, detail } => "launch error running '"@ + command@
                + "'"@ + Self::rendered_args(args@) + ": "@ + detail@,
            RunError::OutputDecode { detail } => "output decode error: "@ + detail@,
        }
    }

    /// Renders the diagnostic that is printed to the standard error
    /// stream just before the tool exits with code 1.
    pub fn message(&self) -> (m: String)
        ensures
            m@ == self.message_spec(),
    {
        match self {
            RunError::Auth { detail } => {
                let mut m = String::from_str("auth error: ");
                m.append(detail.as_str());
                m
            },
            RunError::Manifest { detail } => {
                let mut m = String::from_str("manifest error: ");
                m.append(detail.as_str());
                m
            },
            RunError::LayerFetch { digest, detail } => {
                let mut m = String::from_str("fetch error for layer ");
                m.append(digest.as_str());
                m.append(": ");
                m.append(detail.as_str());
                m
            },
            RunError::Extract { digest, detail } => {
                let mut m = String::from_str("extract error for layer ");
                m.append(digest.as_str());
                m.append(": ");
                m.append(detail.as_str());
                m
            },
            RunError::Isolation { detail } => {
                let mut m = String::from_str("isolation error: ");
                m.append(detail.as_str());
                m
            },
            RunError::Launch { command, args, detail } => {
                let mut m = String::from_str("launch error running '");
                m.append(command.as_str());
                m.append("'");
                let n = args.len();
                let mut i: usize = 0;
                while i < n
                    invariant
                        i <= n,
                        n == args@.len(),
                        m@ == "launch error running '"@ + command@ + "'"@ + Self::rendered_args(
                            args@.subrange(0, i as int),
                        ),
                    decreases n - i,
                {
                    m.append(" '");
                    m.append(args[i].as_str());
                    m.append("'");
                    proof {
                        let cur = args@.subrange(0, i + 1 as int);
                        assert(cur.drop_last() =~= args@.subrange(0, i as int));
                        assert(m@ =~= "launch error running '"@ + command@ + "'"@
                            + Self::rendered_args(cur));
                    }
                    i = i + 1;
                }
                m.append(": ");
                m.append(detail.as_str());
                proof {
                    assert(args@.subrange(0, n as int) =~= args@);
                    assert(m@ =~= self.message_spec());
                }
                m
            },
            RunError::OutputDecode { detail } => {
                let mut m = String::from_str("output decode error: ");
                m.append(detail.as_str());
                m
            },
        }
    }
}

} // verus!
