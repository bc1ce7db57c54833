//! The step and plan data model, and its one-line textual rendering.
//!
//! A `Step` is an immutable, fully self-describing record of a single side
//! effect; a `Plan` is an ordered list of steps. The only behaviour the data
//! model carries is `Step::render`, the one-line rendering used by the
//! dry-run preview, whose exact text is pinned down by `spec_render`.

use vstd::prelude::*;

verus! {

/// A single typed side-effect description. Each variant carries only the
/// plain data its handler needs; no variant holds resources or open handles.
#[derive(Debug, Clone, PartialEq)]
pub enum Step {
    /// Spawn an external process and wait for it to exit.
    RunProcess { cmd: String, args: Vec<String>, cwd: Option<String> },
    /// Create or overwrite a UTF-8 text file.
    WriteFile { path: String, content: String },
    /// Create or overwrite a binary file.
    WriteBytes { path: String, content: Vec<u8> },
    /// Create a directory, including missing parents.
    Mkdir { path: String },
    /// Copy a file, creating the destination's parent directories.
    CopyFile { from: String, to: String },
    /// Create or replace a symbolic link at `to` pointing at `from`.
    Symlink { from: String, to: String },
    /// Transfer a local file to a remote path via an rsync-style sync.
    UploadRsync { local: String, remote: String, opts: String },
    /// Transfer a local file to a remote path via a secure copy.
    UploadScp { local: String, remote: String },
    /// Execute a command on a remote host over a secure shell.
    SshRun { host: String, user: String, cmd: String },
    /// Assert that a file exists; no side effect.
    CheckFile { path: String },
    /// Assert that an archive artifact exists; no side effect.
    CheckZip { path: String },
}

/// An ordered list of steps describing one complete operation. Order is
/// significant and is the sole execution order.
#[derive(Debug, Clone, PartialEq)]
pub struct Plan {
    pub steps: Vec<Step>,
}

/// The arguments of a process step joined by single spaces.
pub open spec fn spec_join_space(parts: Seq<Seq<char>>) -> Seq<char>
    decreases parts.len(),
{
    if parts.len() == 0 {
        Seq::empty()
    } else if parts.len() == 1 {
        parts[0]
    } else {
        spec_join_space(parts.drop_last()) + " "@ + parts.last()
    }
}

/// The trailing working-directory clause of a process step's rendering:
/// `(cwd: <dir>)`, or nothing when the step has no working directory.
pub open spec fn spec_cwd_clause(cwd: Option<Seq<char>>) -> Seq<char> {
    match cwd {
        Some(c) => "(cwd: "@ + c + ")"@,
        None => Seq::empty(),
    }
}

/// The decimal digits of `n`, most significant first.
pub open spec fn spec_decimal(n: nat) -> Seq<char>
    decreases n,
{
    if n < 10 {
        seq![spec_digit_char(n)]
    } else {
        spec_decimal(n / 10) + seq![spec_digit_char(n % 10)]
    }
}

/// The digit character for a value below ten.
pub open spec fn spec_digit_char(d: nat) -> char {
    if d == 0 { '0' }
    else if d == 1 { '1' }
    else if d == 2 { '2' }
    else if d == 3 { '3' }
    else if d == 4 { '4' }
    else if d == 5 { '5' }
    else if d == 6 { '6' }
    else if d == 7 { '7' }
    else if d == 8 { '8' }
    else { '9' }
}

/// `s` is a process step with exactly this command line and working
/// directory.
pub open spec fn is_run_step(
    s: Step,
    cmd: Seq<char>,
    args: Seq<Seq<char>>,
    cwd: Option<Seq<char>>,
) -> bool {
    match s {
        Step::RunProcess { cmd: c, args: a, cwd: w } => {
            &&& c@ == cmd
            &&& a@.map_values(|x: String| x@) == args
            &&& match (w, cwd) {
                (Some(d), Some(v)) => d@ == v,
                (None, None) => true,
                _ => false,
            }
        },
        _ => false,
    }
}

/// `s` is a copy step with exactly these endpoints.
pub open spec fn is_copy_step(s: Step, from: Seq<char>, to: Seq<char>) -> bool {
    match s {
        Step::CopyFile { from: f, to: t } => f@ == from && t@ == to,
        _ => false,
    }
}

/// `s` is a remote-command step with exactly this target and command.
pub open spec fn is_ssh_step(s: Step, host: Seq<char>, user: Seq<char>, cmd: Seq<char>) -> bool {
    match s {
        Step::SshRun { host: h, user: u, cmd: c } => h@ == host && u@ == user && c@ == cmd,
        _ => false,
    }
}

/// `s` is an rsync-style upload step with exactly these endpoints and
/// options.
pub open spec fn is_rsync_step(s: Step, local: Seq<char>, remote: Seq<char>, opts: Seq<char>) -> bool {
    match s {
        Step::UploadRsync { local: l, remote: r, opts: o } => l@ == local && r@ == remote && o@
            == opts,
        _ => false,
    }
}

/// `s` is a secure-copy upload step with exactly these endpoints.
pub open spec fn is_scp_step(s: Step, local: Seq<char>, remote: Seq<char>) -> bool {
    match s {
        Step::UploadScp { local: l, remote: r } => l@ == local && r@ == remote,
        _ => false,
    }
}

impl Step {
    /// The exact one-line rendering of this step, as printed by the dry-run
    /// preview. The column widths and arrow directions are part of the
    /// format contract: a symlink prints its link path first, an ssh command
    /// prints only the remote command line, and a process step keeps the
    /// spaces before its working-directory clause even when it has none.
    pub open spec fn spec_render(self) -> Seq<char> {
        match self {
            Step::RunProcess { cmd, args, cwd } => "RUN      "@ + cmd@ + " "@
                + spec_join_space(args@.map_values(|a: String| a@)) + "    "@
                + spec_cwd_clause(match cwd { Some(c) => Some(c@), None => None }),
            Step::WriteFile { path, .. } => "WRITE     "@ + path@,
            Step::WriteBytes { path, .. } => "WRITE(B)  "@ + path@,
            Step::Mkdir { path } => "MKDIR     "@ + path@,
            Step::CopyFile { from, to } => "COPY      "@ + from@ + " -> "@ + to@,
            Step::Symlink { from, to } => "SYMLINK   "@ + to@ + " -> "@ + from@,
            Step::UploadRsync { local, remote, .. } => "UPLOAD(RSYNC) "@ + local@ + " -> "@
                + remote@,
            Step::UploadScp { local, remote } => "UPLOAD(SCP)   "@ + local@ + " -> "@ + remote@,
            Step::SshRun { cmd, .. } => "RUN       "@ + cmd@,
            Step::CheckFile { path } => "CHECK     "@ + path@,
            Step::CheckZip { path } => "CHECK     "@ + path@,
        }
    }

    /// Render this step as its one preview line.
    pub fn render(&self) -> (r: String)
        ensures
            r@ == self.spec_render(),
    {
        match self {
            Step::RunProcess { cmd, args, cwd } => {
                let mut s = String::from_str("RUN      ");
                s.append(cmd.as_str());
                s.append(" ");
                let joined = join_space(args);
                s.append(joined.as_str());
                s.append("    ");
                match cwd {
                    Some(c) => {
                        s.append("(cwd: ");
                        s.append(c.as_str());
                        s.append(")");
                    },
                    None => {},
                }
                proof {
                    assert(s@ =~= self.spec_render());
                }
                s
            },
            Step::WriteFile { path, .. } => {
                let mut s = String::from_str("WRITE     ");
                s.append(path.as_str());
                s
            },
            Step::WriteBytes { path, .. } => {
                let mut s = String::from_str("WRITE(B)  ");
                s.append(path.as_str());
                s
            },
            Step::Mkdir { path } => {
                let mut s = String::from_str("MKDIR     ");
                s.append(path.as_str());
                s
            },
            Step::CopyFile { from, to } => {
                let mut s = String::from_str("COPY      ");
                s.append(from.as_str());
                s.append(" -> ");
                s.append(to.as_str());
                s
            },
            Step::Symlink { from, to } => {
                let mut s = String::from_str("SYMLINK   ");
                s.append(to.as_str());
                s.append(" -> ");
                s.append(from.as_str());
                s
            },
            Step::UploadRsync { local, remote, .. } => {
                let mut s = String::from_str("UPLOAD(RSYNC) ");
                s.append(local.as_str());
                s.append(" -> ");
                s.append(remote.as_str());
                s
            },
            Step::UploadScp { local, remote } => {
                let mut s = String::from_str("UPLOAD(SCP)   ");
                s.append(local.as_str());
                s.append(" -> ");
                s.append(remote.as_str());
                s
            },
            Step::SshRun { cmd, .. } => {
                let mut s = String::from_str("RUN       ");
                s.append(cmd.as_str());
                s
            },
            Step::CheckFile { path } => {
                let mut s = String::from_str("CHECK     ");
                s.append(path.as_str());
                s
            },
            Step::CheckZip { path } => {
                let mut s = String::from_str("CHECK     ");
                s.append(path.as_str());
                s
            },
        }
    }
}

/// Join strings with single spaces, as a process step's arguments appear in
/// its rendering.
pub fn join_space(parts: &Vec<String>) -> (r: String)
    ensures
        r@ == spec_join_space(parts@.map_values(|a: String| a@)),
{
    let mut out = String::new();
    let mut i: usize = 0;
    while i < parts.len()
        invariant
            i <= parts.len(),
            out@ == spec_join_space(parts@.subrange(0, i as int).map_values(|a: String| a@)),
        decreases parts.len() - i,
    {
        if i > 0 {
            out.append(" ");
        }
        out.append(parts[i].as_str());
        proof {
            let views = |a: String| a@;
            let prev = parts@.subrange(0, i as int).map_values(views);
            let cur = parts@.subrange(0, i + 1).map_values(views);
            assert(cur.drop_last() =~= prev);
            assert(cur.last() == parts@[i as int]@);
            if i == 0 {
                assert(out@ =~= spec_join_space(cur));
            } else {
                assert(out@ =~= spec_join_space(cur));
            }
        }
        i = i + 1;
    }
    proof {
        assert(parts@.subrange(0, parts@.len() as int) =~= parts@);
    }
    out
}

/// The digit character of a value below ten, as a one-character string.
pub fn digit_str(d: usize) -> (r: &'static str)
    requires
        d < 10,
    ensures
        r@ == seq![spec_digit_char(d as nat)],
{
    let r: &'static str = if d == 0 { "0" }
    else if d == 1 { "1" }
    else if d == 2 { "2" }
    else if d == 3 { "3" }
    else if d == 4 { "4" }
    else if d == 5 { "5" }
    else if d == 6 { "6" }
    else if d == 7 { "7" }
    else if d == 8 { "8" }
    else { "9" };
    proof {
        reveal_strlit("0");
        reveal_strlit("1");
        reveal_strlit("2");
        reveal_strlit("3");
        reveal_strlit("4");
        reveal_strlit("5");
        reveal_strlit("6");
        reveal_strlit("7");
        reveal_strlit("8");
        reveal_strlit("9");
        assert(r@ =~= seq![spec_digit_char(d as nat)]);
    }
    r
}

/// Format a number in decimal, as the preview's 1-based step index.
pub fn format_decimal(n: usize) -> (r: String)
    ensures
        r@ == spec_decimal(n as nat),
    decreases n,
{
    if n < 10 {
        String::from_str(digit_str(n))
    } else {
        let mut s = format_decimal(n / 10);
        s.append(digit_str(n % 10));
        s
    }
}

impl Plan {
    /// The exact preview line for the step at (1-based) index `idx1`.
    pub open spec fn spec_preview_line(step: Step, idx1: nat) -> Seq<char> {
        "  "@ + spec_decimal(idx1) + ". "@ + step.spec_render()
    }

    /// The dry-run preview of this plan: the literal header line `PLAN`,
    /// then one line `  <index>. <rendering>` per step, in plan order with
    /// 1-based indices.
    pub fn preview(&self) -> (r: Vec<String>)
        ensures
            r@.len() == self.steps@.len() + 1,
            r@[0]@ == "PLAN"@,
            forall|i: int|
                0 <= i < self.steps@.len() ==> #[trigger] r@[i + 1]@ == Self::spec_preview_line(
                    self.steps@[i],
                    (i + 1) as nat,
                ),
    {
        let mut out: Vec<String> = Vec::new();
        out.push(String::from_str("PLAN"));
        let mut i: usize = 0;
        while i < self.steps.len()
            invariant
                i <= self.steps@.len(),
                out@.len() == i + 1,
                out@[0]@ == "PLAN"@,
                forall|j: int|
                    0 <= j < i ==> #[trigger] out@[j + 1]@ == Self::spec_preview_line(
                        self.steps@[j],
                        (j + 1) as nat,
                    ),
            decreases self.steps.len() - i,
        {
            let mut line = String::from_str("  ");
            let num = format_decimal(i + 1);
            line.append(num.as_str());
            line.append(". ");
            let rendered = self.steps[i].render();
            line.append(rendered.as_str());
            proof {
                assert(line@ =~= Self::spec_preview_line(self.steps@[i as int], (i + 1) as nat));
            }
            out.push(line);
            i = i + 1;
        }
        out
    }
}

} // verus!
