//! The build feature: its plan simply announces the build with one process
//! step.

use vstd::prelude::*;

use crate::step::{is_run_step, Plan, Step};

verus! {

/// Arguments of the build command.
#[derive(Debug, Clone)]
pub struct BuildArgs {
    pub release: bool,
}

/// Build the plan of the build command: a single process step that prints
/// `Building project...`.
pub fn generate_plan(args: BuildArgs) -> (r: Plan)
    ensures
        r.steps@.len() == 1,
        is_run_step(r.steps@[0], "echo"@, seq!["Building project..."@], None),
{
    let mut echo_args: Vec<String> = Vec::new();
    echo_args.push(String::from_str("Building project..."));
    proof {
        assert(echo_args@.map_values(|x: String| x@) =~= seq!["Building project..."@]);
    }
    let step = Step::RunProcess { cmd: String::from_str("echo"), args: echo_args, cwd: None };
    let mut steps: Vec<Step> = Vec::new();
    steps.push(step);
    Plan { steps }
}

} // verus!
