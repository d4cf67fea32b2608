//! The deployment runner, as a state machine over external commands.
//!
//! A deployment is three external commands run in order in a fixed working
//! directory: fetch the latest revision, rebuild the container image,
//! restart the containers.  The library decides which command runs next and
//! what a command's outcome means; launching the processes is the caller's
//! work.  The run halts at the first failing step and keeps that step's
//! diagnostic; later steps are never requested.

use vstd::prelude::*;
use vstd::string::StringExecFns;

verus! {

/// How many commands one deployment run issues.
pub const DEPLOY_STEP_COUNT: usize = 3;

/// The fixed working directory every deployment command runs in.
pub open spec fn deploy_dir() -> Seq<char> {
    "/home/ubuntu/discord_hub_bot"@
}

/// One external command: program, arguments, working directory.
pub struct CommandSpec {
    pub program: String,
    pub args: Vec<String>,
    pub cwd: String,
}

/// Outcome of one external command, as the caller reports it back.
pub enum StepResult {
    /// The process ran and exited zero.
    Completed,
    /// The process exited non-zero or failed to launch; the string is the
    /// diagnostic to record.
    Failed(String),
}

/// Progress of one deployment run.
pub enum DeployStatus {
    /// Steps `0 .. next_step` completed; step `next_step` is owed next.
    InProgress { next_step: usize },
    /// Every step completed.
    Succeeded,
    /// Step `step` failed with the recorded diagnostic; no further step ran.
    Failed { step: usize, error: String },
}

/// A status the machine can actually reach: a pending step index is
/// always a real step.
pub open spec fn status_wf(s: DeployStatus) -> bool {
    match s {
        DeployStatus::InProgress { next_step } => next_step < DEPLOY_STEP_COUNT,
        DeployStatus::Succeeded => true,
        DeployStatus::Failed { step, error } => step < DEPLOY_STEP_COUNT,
    }
}

/// The step a run still owes, if any.
pub open spec fn spec_next_step(s: DeployStatus) -> Option<usize> {
    match s {
        DeployStatus::InProgress { next_step } => Some(next_step),
        _ => None,
    }
}

/// A fresh run: everything still to do.
pub open spec fn initial_status() -> DeployStatus {
    DeployStatus::InProgress { next_step: 0 }
}

/// How a run advances once the outcome of its pending step is known.
pub open spec fn spec_advance(status: DeployStatus, result: StepResult) -> DeployStatus
    recommends
        status is InProgress,
{
    match result {
        StepResult::Completed => if status->next_step + 1 == DEPLOY_STEP_COUNT {
            DeployStatus::Succeeded
        } else {
            DeployStatus::InProgress { next_step: (status->next_step + 1) as usize }
        },
        StepResult::Failed(msg) => DeployStatus::Failed { step: status->next_step, error: msg },
    }
}

/// The three deployment commands, in the order they must run:
/// fetch (`git pull`), build (`docker-compose build`),
/// restart (`docker-compose up -d`), all in the deployment directory.
pub fn deploy_commands() -> (cmds: Vec<CommandSpec>)
    ensures
        cmds@.len() == DEPLOY_STEP_COUNT,
        cmds@[0].program@ == "git"@,
        cmds@[0].args@.len() == 1,
        cmds@[0].args@[0]@ == "pull"@,
        cmds@[1].program@ == "docker-compose"@,
        cmds@[1].args@.len() == 1,
        cmds@[1].args@[0]@ == "build"@,
        cmds@[2].program@ == "docker-compose"@,
        cmds@[2].args@.len() == 2,
        cmds@[2].args@[0]@ == "up"@,
        cmds@[2].args@[1]@ == "-d"@,
        forall|i: int| 0 <= i < DEPLOY_STEP_COUNT ==> cmds@[i].cwd@ == deploy_dir(),
{
    let mut fetch_args: Vec<String> = Vec::new();
    fetch_args.push(String::from_str("pull"));
    let fetch = CommandSpec {
        program: String::from_str("git"),
        args: fetch_args,
        cwd: String::from_str("/home/ubuntu/discord_hub_bot"),
    };
    let mut build_args: Vec<String> = Vec::new();
    build_args.push(String::from_str("build"));
    let build = CommandSpec {
        program: String::from_str("docker-compose"),
        args: build_args,
        cwd: String::from_str("/home/ubuntu/discord_hub_bot"),
    };
    let mut restart_args: Vec<String> = Vec::new();
    restart_args.push(String::from_str("up"));
    restart_args.push(String::from_str("-d"));
    let restart = CommandSpec {
        program: String::from_str("docker-compose"),
        args: restart_args,
        cwd: String::from_str("/home/ubuntu/discord_hub_bot"),
    };
    let mut cmds: Vec<CommandSpec> = Vec::new();
    cmds.push(fetch);
    cmds.push(build);
    cmds.push(restart);
    cmds
}

/// Start a deployment run.
pub fn deploy_initial() -> (s: DeployStatus)
    ensures
        s == initial_status(),
        status_wf(s),
{
    DeployStatus::InProgress { next_step: 0 }
}

/// The index of the command a run still owes, or `None` once it is over.
pub fn next_step(status: &DeployStatus) -> (r: Option<usize>)
    ensures
        r == spec_next_step(*status),
{
    match status {
        DeployStatus::InProgress { next_step } => Some(*next_step),
        _ => None,
    }
}

/// Advance a run with the outcome of its pending step: success moves on to
/// the next command (or finishes the run), failure halts it and records
/// the diagnostic.
pub fn deploy_advance(status: DeployStatus, result: StepResult) -> (r: DeployStatus)
    requires
        status is InProgress,
        status_wf(status),
    ensures
        r == spec_advance(status, result),
        status_wf(r),
{
    match (status, result) {
        (DeployStatus::InProgress { next_step }, StepResult::Completed) => {
            if next_step + 1 == DEPLOY_STEP_COUNT {
                DeployStatus::Succeeded
            } else {
                DeployStatus::InProgress { next_step: next_step + 1 }
            }
        },
        (DeployStatus::InProgress { next_step }, StepResult::Failed(msg)) => {
            DeployStatus::Failed { step: next_step, error: msg }
        },
        (s, _) => {
            proof {
                assert(false);
            }
            s
        },
    }
}

/// Failure text for a step: the fixed prefix followed by the captured
/// error output.
pub open spec fn failure_message(stderr: Seq<char>) -> Seq<char> {
    "Command failed: "@ + stderr
}

/// Judge one finished command: success when it launched and exited zero,
/// else a failure carrying the diagnostic built from the captured stderr.
pub fn evaluate_command_output(exit_ok: bool, stderr: &str) -> (r: StepResult)
    ensures
        exit_ok ==> r is Completed,
        !exit_ok ==> (r matches StepResult::Failed(m) && m@ == failure_message(stderr@)),
{
    if exit_ok {
        StepResult::Completed
    } else {
        let mut msg = String::from_str("Command failed: ");
        msg.append(stderr);
        StepResult::Failed(msg)
    }
}

/// A single-flight guard for the deployment directory: at most one run may
/// be in flight at a time.  A trigger that arrives while one is running is
/// rejected rather than run concurrently against the same working
/// directory.  The caller holds the guard under its own mutual exclusion
/// and marks the run finished when the last command is done.
pub struct DeployGuard {
    /// Whether a deployment run is currently in flight.
    pub in_flight: bool,
}

impl DeployGuard {
    /// A fresh guard: nothing in flight.
    pub fn new() -> (g: DeployGuard)
        ensures
            !g.in_flight,
    {
        DeployGuard { in_flight: false }
    }

    /// Claim the guard for a new run.  Succeeds exactly when no run was in
    /// flight; afterwards one is, so a second claim fails until `finish`.
    pub fn try_begin(&mut self) -> (started: bool)
        ensures
            started == !old(self).in_flight,
            final(self).in_flight,
    {
        let was = self.in_flight;
        self.in_flight = true;
        !was
    }

    /// Mark the in-flight run finished, releasing the guard.
    pub fn finish(&mut self)
        ensures
            !final(self).in_flight,
    {
        self.in_flight = false;
    }
}

/// A failed step halts the run: the resulting status owes no further
/// command, names the step that failed, and keeps its diagnostic unchanged.
pub proof fn lemma_failed_step_halts(status: DeployStatus, msg: String)
    requires
        status is InProgress,
    ensures
        spec_next_step(spec_advance(status, StepResult::Failed(msg))) is None,
        spec_advance(status, StepResult::Failed(msg)) matches DeployStatus::Failed {
            step,
            error,
        } && step == status->next_step && error == msg,
{
}

/// A run whose every step completes walks the steps in order —
/// 0, then 1, then 2 — and succeeds after the last one, never failing.
pub proof fn lemma_completed_run_in_order()
    ensures
        ({
            let s0 = initial_status();
            let s1 = spec_advance(s0, StepResult::Completed);
            let s2 = spec_advance(s1, StepResult::Completed);
            let s3 = spec_advance(s2, StepResult::Completed);
            &&& spec_next_step(s0) == Some(0usize)
            &&& spec_next_step(s1) == Some(1usize)
            &&& spec_next_step(s2) == Some(2usize)
            &&& s3 is Succeeded
        }),
{
}

} // verus!
