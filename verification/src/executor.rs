//! The executor: turns a plan into effects, or into a printed preview.
//!
//! Live execution is modelled by the sequence of step outcomes (`true` for a
//! step whose handler succeeded). `steps_run` says how many steps run for
//! given outcomes: steps execute strictly in plan order and the first
//! failure stops everything, so the steps that run always form a prefix of
//! the plan. The executor's contract states its result against that model,
//! and the public lemmas below prove the ordering and fail-fast laws of the
//! model itself.

use vstd::prelude::*;

use crate::effects::print_line;
use crate::error::OpError;
use crate::handlers::{
    step_error_allows, CheckFileHandler, CheckZipHandler, CopyFileHandler, MkdirHandler,
    OpHandler, RunProcessHandler, SshRunHandler, SymlinkHandler, UploadRsyncHandler,
    UploadScpHandler, WriteBytesHandler, WriteFileHandler,
};
use crate::step::{Plan, Step};

verus! {

/// Every step outcome is a success.
pub open spec fn all_ok(outcomes: Seq<bool>) -> bool {
    forall|i: int| 0 <= i < outcomes.len() ==> outcomes[i]
}

/// How many steps run when the steps' outcomes are `outcomes`: execution
/// walks the plan in order and stops right after the first failure.
pub open spec fn steps_run(outcomes: Seq<bool>) -> int
    decreases outcomes.len(),
{
    if outcomes.len() == 0 {
        0
    } else if !outcomes[0] {
        1
    } else {
        1 + steps_run(outcomes.skip(1))
    }
}

/// Whether the step at index `j` is attempted at all.
pub open spec fn spec_attempted(outcomes: Seq<bool>, j: int) -> bool {
    0 <= j < steps_run(outcomes)
}

/// How a live execution result relates to the (environment-chosen) outcomes
/// of the plan's steps: success exactly when every step succeeded, and a
/// failure is the first failing step's error.
pub open spec fn live_run_matches(
    steps: Seq<Step>,
    outcomes: Seq<bool>,
    r: Result<(), OpError>,
) -> bool {
    &&& outcomes.len() == steps.len()
    &&& (r is Ok <==> all_ok(outcomes))
    &&& match r {
        Ok(_) => true,
        Err(e) => {
            let k = steps_run(outcomes) - 1;
            &&& 0 <= k < steps.len()
            &&& !outcomes[k]
            &&& (forall|j: int| 0 <= j < k ==> outcomes[j])
            &&& step_error_allows(steps[k], e.message@)
        },
    }
}

/// The number of steps that run never exceeds the number of steps, and a
/// non-empty plan always attempts its first step.
pub proof fn lemma_steps_run_bounds(outcomes: Seq<bool>)
    ensures
        0 <= steps_run(outcomes) <= outcomes.len(),
        outcomes.len() > 0 ==> steps_run(outcomes) >= 1,
    decreases outcomes.len(),
{
    if outcomes.len() > 0 && outcomes[0] {
        lemma_steps_run_bounds(outcomes.skip(1));
    }
}

/// Execution order is preserved: the steps that run form a prefix of the
/// plan, in plan order. If the step at index `j` is attempted, every
/// earlier step was attempted too, and every step strictly before `j`
/// succeeded (so no step ever runs before its predecessors).
pub proof fn lemma_execution_order(outcomes: Seq<bool>, i: int, j: int)
    requires
        0 <= i <= j,
        spec_attempted(outcomes, j),
    ensures
        spec_attempted(outcomes, i),
        i < j ==> outcomes[i],
    decreases j,
{
    lemma_steps_run_bounds(outcomes);
    if j > 0 {
        assert(outcomes[0]) by {
            if !outcomes[0] {
                assert(steps_run(outcomes) == 1);
            }
        }
        if i > 0 {
            lemma_execution_order(outcomes.skip(1), i - 1, j - 1);
        } else {
            lemma_execution_order(outcomes.skip(1), 0, j - 1);
        }
    }
}

/// When every step succeeds, every step runs: execution stops early only on
/// a failure.
pub proof fn lemma_all_ok_runs_all(outcomes: Seq<bool>)
    requires
        all_ok(outcomes),
    ensures
        steps_run(outcomes) == outcomes.len(),
    decreases outcomes.len(),
{
    if outcomes.len() > 0 {
        assert(forall|i: int| 0 <= i < outcomes.len() - 1 ==> #[trigger] outcomes.skip(1)[i]
            == outcomes[i + 1]);
        lemma_all_ok_runs_all(outcomes.skip(1));
    }
}

/// Fail-fast: if the step at index `k` fails and every step before it
/// succeeded, exactly the steps up to and including `k` run, and no later
/// step is ever attempted.
pub proof fn lemma_fail_fast(outcomes: Seq<bool>, k: int)
    requires
        0 <= k < outcomes.len(),
        !outcomes[k],
        forall|j: int| 0 <= j < k ==> outcomes[j],
    ensures
        steps_run(outcomes) == k + 1,
        forall|j: int| k < j < outcomes.len() ==> !spec_attempted(outcomes, j),
    decreases k,
{
    if k > 0 {
        lemma_fail_fast(outcomes.skip(1), k - 1);
    }
}

/// The fixed, total handler registry: exactly one handler per step kind,
/// built once when the executor is constructed and immutable thereafter.
pub struct HandlerRegistry {
    run_process: RunProcessHandler,
    write_file: WriteFileHandler,
    write_bytes: WriteBytesHandler,
    mkdir: MkdirHandler,
    copy_file: CopyFileHandler,
    symlink: SymlinkHandler,
    upload_rsync: UploadRsyncHandler,
    upload_scp: UploadScpHandler,
    ssh_run: SshRunHandler,
    check_file: CheckFileHandler,
    check_zip: CheckZipHandler,
}

impl HandlerRegistry {
    /// Register the default handler of every known step kind.
    pub fn defaults() -> HandlerRegistry {
        HandlerRegistry {
            run_process: RunProcessHandler,
            write_file: WriteFileHandler,
            write_bytes: WriteBytesHandler,
            mkdir: MkdirHandler,
            copy_file: CopyFileHandler,
            symlink: SymlinkHandler,
            upload_rsync: UploadRsyncHandler,
            upload_scp: UploadScpHandler,
            ssh_run: SshRunHandler,
            check_file: CheckFileHandler,
            check_zip: CheckZipHandler,
        }
    }
}

/// Owns the handler registry, decides dry-run against live execution,
/// dispatches each step to its handler in sequence, and surfaces the first
/// failure.
pub struct Executor {
    dry_run: bool,
    handlers: HandlerRegistry,
}

impl Executor {
    /// Whether this executor previews plans instead of executing them.
    pub closed spec fn spec_dry_run(&self) -> bool {
        self.dry_run
    }

    /// Build an executor with the default handler per known step kind.
    pub fn new(dry_run: bool) -> (r: Executor)
        ensures
            r.spec_dry_run() == dry_run,
    {
        Executor { dry_run, handlers: HandlerRegistry::defaults() }
    }

    /// Whether this executor previews plans instead of executing them.
    pub fn is_dry_run(&self) -> (r: bool)
        ensures
            r == self.spec_dry_run(),
    {
        self.dry_run
    }

    /// Dispatch one step to the handler registered for its kind.
    fn execute_step(&self, step: &Step) -> (r: Result<(), OpError>)
        ensures
            r matches Err(e) ==> step_error_allows(*step, e.message@),
    {
        match step {
            Step::RunProcess { .. } => self.handlers.run_process.handle(step),
            Step::WriteFile { .. } => self.handlers.write_file.handle(step),
            Step::WriteBytes { .. } => self.handlers.write_bytes.handle(step),
            Step::Mkdir { .. } => self.handlers.mkdir.handle(step),
            Step::CopyFile { .. } => self.handlers.copy_file.handle(step),
            Step::Symlink { .. } => self.handlers.symlink.handle(step),
            Step::UploadRsync { .. } => self.handlers.upload_rsync.handle(step),
            Step::UploadScp { .. } => self.handlers.upload_scp.handle(step),
            Step::SshRun { .. } => self.handlers.ssh_run.handle(step),
            Step::CheckFile { .. } => self.handlers.check_file.handle(step),
            Step::CheckZip { .. } => self.handlers.check_zip.handle(step),
        }
    }

    /// Execute a plan, or preview it.
    ///
    /// In dry-run mode this prints exactly the lines of [`Plan::preview`]
    /// (the header `PLAN`, then one indexed line per step), invokes no
    /// handler, and always succeeds. In live mode it dispatches each step
    /// in plan order to the handler of its kind and stops at the first
    /// failure, returning that handler's error; success means every step's
    /// handler succeeded.
    pub fn execute(&self, plan: &Plan) -> (r: Result<(), OpError>)
        ensures
            self.spec_dry_run() ==> r is Ok,
            !self.spec_dry_run() ==> exists|outcomes: Seq<bool>|
                live_run_matches(plan.steps@, outcomes, r),
    {
        if self.dry_run {
            let lines = plan.preview();
            let mut i: usize = 0;
            while i < lines.len()
                decreases lines.len() - i,
            {
                print_line(lines[i].as_str());
                i = i + 1;
            }
            return Ok(());
        }
        let n = plan.steps.len();
        let ghost mut obs: Seq<bool> = Seq::empty();
        let mut i: usize = 0;
        while i < n
            invariant
                !self.spec_dry_run(),
                n == plan.steps@.len(),
                i <= n,
                obs.len() == i,
                forall|j: int| 0 <= j < i ==> obs[j],
            decreases n - i,
        {
            match self.execute_step(&plan.steps[i]) {
                Ok(_) => {
                    proof {
                        obs = obs.push(true);
                    }
                },
                Err(e) => {
                    proof {
                        let w = obs.push(false) + Seq::new((n - i - 1) as nat, |_k: int| true);
                        assert(w.len() == n);
                        assert(w[i as int] == false);
                        assert(forall|j: int| 0 <= j < i ==> w[j]);
                        lemma_fail_fast(w, i as int);
                        assert(!all_ok(w));
                        assert(live_run_matches(plan.steps@, w, Result::Err(e)));
                    }
                    return Err(e);
                },
            }
            i = i + 1;
        }
        proof {
            assert(all_ok(obs));
            assert(live_run_matches(plan.steps@, obs, Result::<(), OpError>::Ok(())));
        }
        Ok(())
    }
}

} // verus!
