//! One handler per step kind.
//!
//! Each handler performs its side effect through the trusted wrappers in
//! `effects` and interprets the wrapper's outcome through a verified
//! interpreter function with an exact contract: which outcomes yield
//! success, and the precise failure message for each failing outcome.
//! `step_error_allows` collects, per step kind, every message a handler can
//! produce; it is what the executor's own contract speaks of.

use vstd::prelude::*;

use crate::effects::{
    fs_copy, fs_create_dir_all, fs_make_symlink, fs_path_exists, fs_remove_file,
    fs_symlink_exists, fs_write, run_command,
};
use crate::error::OpError;
use crate::step::{join_space, spec_join_space, Step};
use crate::strutil::{concat2, parent_dir, spec_starts_with};

verus! {

/// The failure messages a conforming handler may produce for `step`.
/// Messages that depend only on the step are pinned exactly; messages that
/// carry an operating-system error keep it as a free suffix.
pub open spec fn step_error_allows(step: Step, msg: Seq<char>) -> bool {
    match step {
        Step::RunProcess { cmd, args, .. } => msg == "Command failed: "@ + cmd@ + " "@
            + spec_join_space(args@.map_values(|a: String| a@)) || spec_starts_with(
            msg,
            "Failed to execute "@ + cmd@,
        ),
        Step::WriteFile { path, .. } => spec_starts_with(msg, "Failed to write file "@ + path@),
        Step::WriteBytes { path, .. } => spec_starts_with(msg, "Failed to write file "@ + path@),
        Step::Mkdir { path } => spec_starts_with(msg, "Failed to create directory "@ + path@),
        Step::CopyFile { from, to } => spec_starts_with(
            msg,
            "Failed to copy "@ + from@ + " to "@ + to@,
        ),
        Step::Symlink { from, to } => spec_starts_with(
            msg,
            "Failed to symlink "@ + from@ + " -> "@ + to@,
        ),
        Step::UploadRsync { .. } => msg == "Rsync failed"@ || spec_starts_with(
            msg,
            "Failed to run rsync"@,
        ),
        Step::UploadScp { .. } => msg == "Scp failed"@ || spec_starts_with(
            msg,
            "Failed to run scp"@,
        ),
        Step::SshRun { .. } => msg == "Ssh command failed"@ || spec_starts_with(
            msg,
            "Failed to run ssh command"@,
        ),
        Step::CheckFile { path } => msg == "File not found: "@ + path@,
        Step::CheckZip { path } => msg == "Zip artifact not found: "@ + path@,
    }
}

/// A prefix of a concatenation that starts with that prefix.
proof fn lemma_starts_with_concat(a: Seq<char>, b: Seq<char>)
    ensures
        spec_starts_with(a + b, a),
{
    assert((a + b).subrange(0, a.len() as int) =~= a);
}

/// The capability of executing one step of a known kind: perform the side
/// effect and return success or a descriptive failure. Dispatch is by kind;
/// a handler is never invoked on a step it does not handle.
pub trait OpHandler {
    /// Which steps this handler is responsible for.
    spec fn handles(&self, step: Step) -> bool;

    /// Execute the side effect the step describes.
    fn handle(&self, step: &Step) -> (r: Result<(), OpError>)
        requires
            self.handles(*step),
        ensures
            r matches Err(e) ==> step_error_allows(*step, e.message@),
    ;
}

/// Interpret a process-run outcome: a zero exit status is success, a
/// non-zero one reports the command line, a spawn failure reports the
/// command and the system's message.
pub fn run_outcome(cmd: &String, args: &Vec<String>, outcome: Result<bool, String>) -> (r: Result<
    (),
    OpError,
>)
    ensures
        match outcome {
            Ok(ok) => if ok {
                r is Ok
            } else {
                match r {
                    Err(e) => e.message@ == "Command failed: "@ + cmd@ + " "@ + spec_join_space(
                        args@.map_values(|a: String| a@),
                    ),
                    Ok(_) => false,
                }
            },
            Err(d) => match r {
                Err(e) => e.message@ == "Failed to execute "@ + cmd@ + ": "@ + d@,
                Ok(_) => false,
            },
        },
        match r {
            Err(e) => e.message@ == "Command failed: "@ + cmd@ + " "@ + spec_join_space(
                args@.map_values(|a: String| a@),
            ) || spec_starts_with(e.message@, "Failed to execute "@ + cmd@),
            Ok(_) => true,
        },
{
    match outcome {
        Ok(true) => Ok(()),
        Ok(false) => {
            let mut m = String::from_str("Command failed: ");
            m.append(cmd.as_str());
            m.append(" ");
            let joined = join_space(args);
            m.append(joined.as_str());
            proof {
                assert(m@ =~= "Command failed: "@ + cmd@ + " "@ + spec_join_space(
                    args@.map_values(|a: String| a@),
                ));
            }
            Err(OpError::new(m))
        },
        Err(d) => {
            let mut m = String::from_str("Failed to execute ");
            m.append(cmd.as_str());
            m.append(": ");
            m.append(d.as_str());
            proof {
                assert(m@ =~= ("Failed to execute "@ + cmd@) + (": "@ + d@));
                lemma_starts_with_concat("Failed to execute "@ + cmd@, ": "@ + d@);
                assert(m@ =~= "Failed to execute "@ + cmd@ + ": "@ + d@);
            }
            Err(OpError::new(m))
        },
    }
}

/// Interpret a directory-creation outcome for a `Mkdir` step.
pub fn mkdir_outcome(path: &String, outcome: Result<(), String>) -> (r: Result<(), OpError>)
    ensures
        r is Ok <==> outcome is Ok,
        match (outcome, r) {
            (Err(d), Err(e)) => e.message@ == "Failed to create directory "@ + path@ + ": "@ + d@,
            (Err(_), Ok(_)) => false,
            _ => true,
        },
        match r {
            Err(e) => spec_starts_with(e.message@, "Failed to create directory "@ + path@),
            Ok(_) => true,
        },
{
    match outcome {
        Ok(_) => Ok(()),
        Err(d) => {
            let mut m = String::from_str("Failed to create directory ");
            m.append(path.as_str());
            m.append(": ");
            m.append(d.as_str());
            proof {
                assert(m@ =~= ("Failed to create directory "@ + path@) + (": "@ + d@));
                lemma_starts_with_concat("Failed to create directory "@ + path@, ": "@ + d@);
                assert(m@ =~= "Failed to create directory "@ + path@ + ": "@ + d@);
            }
            Err(OpError::new(m))
        },
    }
}

/// Interpret a file-write (or parent-directory-creation) outcome for a
/// `WriteFile` or `WriteBytes` step.
pub fn write_outcome(path: &String, outcome: Result<(), String>) -> (r: Result<(), OpError>)
    ensures
        r is Ok <==> outcome is Ok,
        match (outcome, r) {
            (Err(d), Err(e)) => e.message@ == "Failed to write file "@ + path@ + ": "@ + d@,
            (Err(_), Ok(_)) => false,
            _ => true,
        },
        match r {
            Err(e) => spec_starts_with(e.message@, "Failed to write file "@ + path@),
            Ok(_) => true,
        },
{
    match outcome {
        Ok(_) => Ok(()),
        Err(d) => {
            let mut m = String::from_str("Failed to write file ");
            m.append(path.as_str());
            m.append(": ");
            m.append(d.as_str());
            proof {
                assert(m@ =~= ("Failed to write file "@ + path@) + (": "@ + d@));
                lemma_starts_with_concat("Failed to write file "@ + path@, ": "@ + d@);
                assert(m@ =~= "Failed to write file "@ + path@ + ": "@ + d@);
            }
            Err(OpError::new(m))
        },
    }
}

/// Interpret a copy (or parent-directory-creation) outcome for a `CopyFile`
/// step.
pub fn copy_outcome(from: &String, to: &String, outcome: Result<(), String>) -> (r: Result<
    (),
    OpError,
>)
    ensures
        r is Ok <==> outcome is Ok,
        match (outcome, r) {
            (Err(d), Err(e)) => e.message@ == "Failed to copy "@ + from@ + " to "@ + to@ + ": "@
                + d@,
            (Err(_), Ok(_)) => false,
            _ => true,
        },
        match r {
            Err(e) => spec_starts_with(e.message@, "Failed to copy "@ + from@ + " to "@ + to@),
            Ok(_) => true,
        },
{
    match outcome {
        Ok(_) => Ok(()),
        Err(d) => {
            let mut m = String::from_str("Failed to copy ");
            m.append(from.as_str());
            m.append(" to ");
            m.append(to.as_str());
            m.append(": ");
            m.append(d.as_str());
            proof {
                assert(m@ =~= ("Failed to copy "@ + from@ + " to "@ + to@) + (": "@ + d@));
                lemma_starts_with_concat("Failed to copy "@ + from@ + " to "@ + to@, ": "@ + d@);
                assert(m@ =~= "Failed to copy "@ + from@ + " to "@ + to@ + ": "@ + d@);
            }
            Err(OpError::new(m))
        },
    }
}

/// Interpret a symbolic-link (or parent-directory-creation) outcome for a
/// `Symlink` step.
pub fn symlink_outcome(from: &String, to: &String, outcome: Result<(), String>) -> (r: Result<
    (),
    OpError,
>)
    ensures
        r is Ok <==> outcome is Ok,
        match (outcome, r) {
            (Err(d), Err(e)) => e.message@ == "Failed to symlink "@ + from@ + " -> "@ + to@ + ": "@
                + d@,
            (Err(_), Ok(_)) => false,
            _ => true,
        },
        match r {
            Err(e) => spec_starts_with(e.message@, "Failed to symlink "@ + from@ + " -> "@ + to@),
            Ok(_) => true,
        },
{
    match outcome {
        Ok(_) => Ok(()),
        Err(d) => {
            let mut m = String::from_str("Failed to symlink ");
            m.append(from.as_str());
            m.append(" -> ");
            m.append(to.as_str());
            m.append(": ");
            m.append(d.as_str());
            proof {
                assert(m@ =~= ("Failed to symlink "@ + from@ + " -> "@ + to@) + (": "@ + d@));
                lemma_starts_with_concat(
                    "Failed to symlink "@ + from@ + " -> "@ + to@,
                    ": "@ + d@,
                );
                assert(m@ =~= "Failed to symlink "@ + from@ + " -> "@ + to@ + ": "@ + d@);
            }
            Err(OpError::new(m))
        },
    }
}

/// Interpret an rsync-transfer outcome for an `UploadRsync` step: a
/// non-zero exit names the transport alone, a spawn failure carries the
/// system's message.
pub fn rsync_outcome(outcome: Result<bool, String>) -> (r: Result<(), OpError>)
    ensures
        match outcome {
            Ok(ok) => if ok {
                r is Ok
            } else {
                match r {
                    Err(e) => e.message@ == "Rsync failed"@,
                    Ok(_) => false,
                }
            },
            Err(d) => match r {
                Err(e) => e.message@ == "Failed to run rsync"@ + ": "@ + d@,
                Ok(_) => false,
            },
        },
        match r {
            Err(e) => e.message@ == "Rsync failed"@ || spec_starts_with(
                e.message@,
                "Failed to run rsync"@,
            ),
            Ok(_) => true,
        },
{
    match outcome {
        Ok(true) => Ok(()),
        Ok(false) => Err(OpError::new(String::from_str("Rsync failed"))),
        Err(d) => {
            let mut m = String::from_str("Failed to run rsync");
            m.append(": ");
            m.append(d.as_str());
            proof {
                assert(m@ =~= "Failed to run rsync"@ + (": "@ + d@));
                lemma_starts_with_concat("Failed to run rsync"@, ": "@ + d@);
            }
            Err(OpError::new(m))
        },
    }
}

/// Interpret a secure-copy outcome for an `UploadScp` step: a non-zero
/// exit names the transport alone, a spawn failure carries the system's
/// message.
pub fn scp_outcome(outcome: Result<bool, String>) -> (r: Result<(), OpError>)
    ensures
        match outcome {
            Ok(ok) => if ok {
                r is Ok
            } else {
                match r {
                    Err(e) => e.message@ == "Scp failed"@,
                    Ok(_) => false,
                }
            },
            Err(d) => match r {
                Err(e) => e.message@ == "Failed to run scp"@ + ": "@ + d@,
                Ok(_) => false,
            },
        },
        match r {
            Err(e) => e.message@ == "Scp failed"@ || spec_starts_with(
                e.message@,
                "Failed to run scp"@,
            ),
            Ok(_) => true,
        },
{
    match outcome {
        Ok(true) => Ok(()),
        Ok(false) => Err(OpError::new(String::from_str("Scp failed"))),
        Err(d) => {
            let mut m = String::from_str("Failed to run scp");
            m.append(": ");
            m.append(d.as_str());
            proof {
                assert(m@ =~= "Failed to run scp"@ + (": "@ + d@));
                lemma_starts_with_concat("Failed to run scp"@, ": "@ + d@);
            }
            Err(OpError::new(m))
        },
    }
}

/// Interpret a remote-command outcome for an `SshRun` step: a non-zero
/// exit names the transport alone (standard error is not parsed), a spawn
/// failure carries the system's message.
pub fn ssh_outcome(outcome: Result<bool, String>) -> (r: Result<(), OpError>)
    ensures
        match outcome {
            Ok(ok) => if ok {
                r is Ok
            } else {
                match r {
                    Err(e) => e.message@ == "Ssh command failed"@,
                    Ok(_) => false,
                }
            },
            Err(d) => match r {
                Err(e) => e.message@ == "Failed to run ssh command"@ + ": "@ + d@,
                Ok(_) => false,
            },
        },
        match r {
            Err(e) => e.message@ == "Ssh command failed"@ || spec_starts_with(
                e.message@,
                "Failed to run ssh command"@,
            ),
            Ok(_) => true,
        },
{
    match outcome {
        Ok(true) => Ok(()),
        Ok(false) => Err(OpError::new(String::from_str("Ssh command failed"))),
        Err(d) => {
            let mut m = String::from_str("Failed to run ssh command");
            m.append(": ");
            m.append(d.as_str());
            proof {
                assert(m@ =~= "Failed to run ssh command"@ + (": "@ + d@));
                lemma_starts_with_concat("Failed to run ssh command"@, ": "@ + d@);
            }
            Err(OpError::new(m))
        },
    }
}

/// Interpret an existence probe for a `CheckFile` step: success exactly when
/// the file is present, and the failure message carries the literal missing
/// path.
pub fn check_file_outcome(path: &String, present: bool) -> (r: Result<(), OpError>)
    ensures
        r is Ok <==> present,
        match r {
            Err(e) => e.message@ == "File not found: "@ + path@,
            Ok(_) => true,
        },
{
    if present {
        Ok(())
    } else {
        Err(OpError::new(concat2("File not found: ", path.as_str())))
    }
}

/// Interpret an existence probe for a `CheckZip` step: success exactly when
/// the archive artifact is present.
pub fn check_zip_outcome(path: &String, present: bool) -> (r: Result<(), OpError>)
    ensures
        r is Ok <==> present,
        match r {
            Err(e) => e.message@ == "Zip artifact not found: "@ + path@,
            Ok(_) => true,
        },
{
    if present {
        Ok(())
    } else {
        Err(OpError::new(concat2("Zip artifact not found: ", path.as_str())))
    }
}

/// Create the parent directory chain of `path`, if it has one.
fn ensure_parent(path: &String) -> (r: Result<(), String>) {
    match parent_dir(path.as_str()) {
        Some(p) => fs_create_dir_all(&p),
        None => Ok(()),
    }
}

/// Spawns the step's command with its arguments, optionally in its working
/// directory, and waits for the exit status.
pub struct RunProcessHandler;

impl OpHandler for RunProcessHandler {
    open spec fn handles(&self, step: Step) -> bool {
        step is RunProcess
    }

    fn handle(&self, step: &Step) -> (r: Result<(), OpError>) {
        match step {
            Step::RunProcess { cmd, args, cwd } => {
                let outcome = match cwd {
                    Some(d) => run_command(cmd.as_str(), args, Some(d)),
                    None => run_command(cmd.as_str(), args, None),
                };
                run_outcome(cmd, args, outcome)
            },
            _ => unreached(),
        }
    }
}

/// Creates the step's directory and all missing ancestors; an existing
/// directory is not an error.
pub struct MkdirHandler;

impl OpHandler for MkdirHandler {
    open spec fn handles(&self, step: Step) -> bool {
        step is Mkdir
    }

    fn handle(&self, step: &Step) -> (r: Result<(), OpError>) {
        match step {
            Step::Mkdir { path } => mkdir_outcome(path, fs_create_dir_all(path)),
            _ => unreached(),
        }
    }
}

/// Ensures the parent directory chain exists, then writes the step's text
/// content, overwriting any existing file.
pub struct WriteFileHandler;

impl OpHandler for WriteFileHandler {
    open spec fn handles(&self, step: Step) -> bool {
        step is WriteFile
    }

    fn handle(&self, step: &Step) -> (r: Result<(), OpError>) {
        match step {
            Step::WriteFile { path, content } => {
                match ensure_parent(path) {
                    Err(d) => write_outcome(path, Err(d)),
                    Ok(_) => write_outcome(path, fs_write(path, content.as_str().as_bytes())),
                }
            },
            _ => unreached(),
        }
    }
}

/// Ensures the parent directory chain exists, then writes the step's binary
/// content, overwriting any existing file.
pub struct WriteBytesHandler;

impl OpHandler for WriteBytesHandler {
    open spec fn handles(&self, step: Step) -> bool {
        step is WriteBytes
    }

    fn handle(&self, step: &Step) -> (r: Result<(), OpError>) {
        match step {
            Step::WriteBytes { path, content } => {
                match ensure_parent(path) {
                    Err(d) => write_outcome(path, Err(d)),
                    Ok(_) => write_outcome(path, fs_write(path, content.as_slice())),
                }
            },
            _ => unreached(),
        }
    }
}

/// Ensures the destination's parent directory chain exists, then copies the
/// source file to the destination.
pub struct CopyFileHandler;

impl OpHandler for CopyFileHandler {
    open spec fn handles(&self, step: Step) -> bool {
        step is CopyFile
    }

    fn handle(&self, step: &Step) -> (r: Result<(), OpError>) {
        match step {
            Step::CopyFile { from, to } => {
                match ensure_parent(to) {
                    Err(d) => copy_outcome(from, to, Err(d)),
                    Ok(_) => copy_outcome(from, to, fs_copy(from, to)),
                }
            },
            _ => unreached(),
        }
    }
}

/// Ensures the link's parent directory chain exists, removes whatever
/// occupies the link path, and creates a symbolic link there; the last
/// symlink step to a path wins. A dangling link is not an error.
pub struct SymlinkHandler;

impl OpHandler for SymlinkHandler {
    open spec fn handles(&self, step: Step) -> bool {
        step is Symlink
    }

    fn handle(&self, step: &Step) -> (r: Result<(), OpError>) {
        match step {
            Step::Symlink { from, to } => {
                match ensure_parent(to) {
                    Err(d) => symlink_outcome(from, to, Err(d)),
                    Ok(_) => {
                        if fs_symlink_exists(to) {
                            let _ = fs_remove_file(to);
                        }
                        symlink_outcome(from, to, fs_make_symlink(from, to))
                    },
                }
            },
            _ => unreached(),
        }
    }
}

/// The exact argument vector of an rsync invocation: the option string,
/// then the local source, then the remote destination, in that order.
pub fn rsync_argv(opts: &String, local: &String, remote: &String) -> (v: Vec<String>)
    ensures
        v@.map_values(|a: String| a@) == seq![opts@, local@, remote@],
{
    let mut v: Vec<String> = Vec::new();
    v.push(opts.clone());
    v.push(local.clone());
    v.push(remote.clone());
    proof {
        assert(v@.map_values(|a: String| a@) =~= seq![opts@, local@, remote@]);
    }
    v
}

/// The exact argument vector of a secure-copy invocation: the local source,
/// then the remote destination.
pub fn scp_argv(local: &String, remote: &String) -> (v: Vec<String>)
    ensures
        v@.map_values(|a: String| a@) == seq![local@, remote@],
{
    let mut v: Vec<String> = Vec::new();
    v.push(local.clone());
    v.push(remote.clone());
    proof {
        assert(v@.map_values(|a: String| a@) =~= seq![local@, remote@]);
    }
    v
}

/// The exact argument vector of a secure-shell invocation: the `user@host`
/// target, then the remote command line as one argument.
pub fn ssh_argv(user: &String, host: &String, cmd: &String) -> (v: Vec<String>)
    ensures
        v@.map_values(|a: String| a@) == seq![user@ + "@"@ + host@, cmd@],
{
    let mut target = user.clone();
    target.append("@");
    target.append(host.as_str());
    let mut v: Vec<String> = Vec::new();
    v.push(target);
    v.push(cmd.clone());
    proof {
        assert(v@.map_values(|a: String| a@) =~= seq![user@ + "@"@ + host@, cmd@]);
    }
    v
}

/// Invokes an rsync-style transfer from the local path to the remote path
/// with the step's option string, with the arguments `rsync_argv` fixes.
pub struct UploadRsyncHandler;

impl OpHandler for UploadRsyncHandler {
    open spec fn handles(&self, step: Step) -> bool {
        step is UploadRsync
    }

    fn handle(&self, step: &Step) -> (r: Result<(), OpError>) {
        match step {
            Step::UploadRsync { local, remote, opts } => {
                rsync_outcome(run_command("rsync", &rsync_argv(opts, local, remote), None))
            },
            _ => unreached(),
        }
    }
}

/// Invokes a secure-copy transfer from the local path to the remote path,
/// with the arguments `scp_argv` fixes.
pub struct UploadScpHandler;

impl OpHandler for UploadScpHandler {
    open spec fn handles(&self, step: Step) -> bool {
        step is UploadScp
    }

    fn handle(&self, step: &Step) -> (r: Result<(), OpError>) {
        match step {
            Step::UploadScp { local, remote } => {
                scp_outcome(run_command("scp", &scp_argv(local, remote), None))
            },
            _ => unreached(),
        }
    }
}

/// Runs the step's command on `user@host` over a secure shell, with the
/// arguments `ssh_argv` fixes; the exit status is the only success signal.
pub struct SshRunHandler;

impl OpHandler for SshRunHandler {
    open spec fn handles(&self, step: Step) -> bool {
        step is SshRun
    }

    fn handle(&self, step: &Step) -> (r: Result<(), OpError>) {
        match step {
            Step::SshRun { host, user, cmd } => {
                ssh_outcome(run_command("ssh", &ssh_argv(user, host, cmd), None))
            },
            _ => unreached(),
        }
    }
}

/// Asserts that a file exists at the step's path; no side effect.
pub struct CheckFileHandler;

impl OpHandler for CheckFileHandler {
    open spec fn handles(&self, step: Step) -> bool {
        step is CheckFile
    }

    fn handle(&self, step: &Step) -> (r: Result<(), OpError>) {
        match step {
            Step::CheckFile { path } => check_file_outcome(path, fs_path_exists(path)),
            _ => unreached(),
        }
    }
}

/// Asserts that an archive artifact exists at the step's path; no side
/// effect.
pub struct CheckZipHandler;

impl OpHandler for CheckZipHandler {
    open spec fn handles(&self, step: Step) -> bool {
        step is CheckZip
    }

    fn handle(&self, step: &Step) -> (r: Result<(), OpError>) {
        match step {
            Step::CheckZip { path } => check_zip_outcome(path, fs_path_exists(path)),
            _ => unreached(),
        }
    }
}

} // verus!
