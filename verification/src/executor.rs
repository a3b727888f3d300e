//! Execution of a chosen installation strategy, modelled as a state machine.
//!
//! The machine owns every decision: which tool to run next, when an install
//! failure enters the interactive recovery loop, when the sentinel ends it,
//! which header is copied where, and when a failure is fatal. An unverified
//! driver performs the requested [`ExecAction`], reports what happened as an
//! [`ExecEvent`], and repeats until the machine is terminal.

use vstd::prelude::*;

use crate::installer::{InstallError, InstallMethod};
use crate::text::{header_dest_of, header_destination, is_sentinel, sentinel};

verus! {

/// The outside work the driver is asked to perform next.
pub enum ExecAction {
    /// Run the configure tool on the project directory.
    RunConfigure,
    /// Run the build tool with the generic `install` target.
    RunInstallTarget,
    /// Best-effort: surface the build tool's `help` targets to the user.
    ShowTargets,
    /// Read one build-target name from the console.
    PromptTarget,
    /// Run the build tool with this single target.
    RunTarget(String),
    /// Copy the file at the first path to the second path.
    CopyHeader(String, String),
    /// The machine is terminal; read the outcome.
    Report,
}

/// What the driver reports back after performing an action.
pub enum ExecEvent {
    /// The requested tool ran to completion; true means it exited zero.
    ToolExited(bool),
    /// The requested tool could not be started; carries a description.
    ToolLaunchFailed(String),
    /// The console line read for a prompt.
    TargetLine(String),
    /// The requested header copy succeeded.
    CopyDone,
    /// The header's source file does not exist; it is skipped.
    CopySourceMissing,
    /// The header copy failed; carries the error built by
    /// [`copy_failure_error`].
    CopyFailed(InstallError),
}

/// The executor's state. One machine is created per chosen
/// [`InstallMethod`]; `Done` and `Failed` are terminal.
pub enum Executor {
    /// Waiting for the configure tool's result.
    Configuring,
    /// Waiting for the generic install target's result.
    Installing,
    /// Entering recovery: the `help` listing is attempted once, best-effort.
    RecoveryIntro,
    /// Waiting for the user's next target name.
    RecoveryPrompt,
    /// Waiting for the result of running the named target.
    RecoveryRunning(String),
    /// Copying headers: the plan of (source, destination) pairs and the
    /// index of the pair being copied.
    MovingHeaders(Vec<(String, String)>, usize),
    Done,
    Failed(InstallError),
}

impl Executor {
    /// Well-formedness: while headers are being copied, the index is in
    /// bounds and every destination is the include root joined with the
    /// source's base name.
    pub open spec fn wf(self) -> bool {
        match self {
            Executor::MovingHeaders(plan, next) => next < plan@.len() && forall|k: int|
                0 <= k < plan@.len() ==> (#[trigger] plan@[k]).1@ == header_dest_of(plan@[k].0@),
            _ => true,
        }
    }
}

/// The machine's transition relation: `post` is a state the machine may be
/// in after consuming `ev` in state `pre`. Every transition is exact up to
/// the text of freshly built diagnostics; an event that does not answer the
/// state's pending action leaves the state unchanged.
pub open spec fn step_rel(pre: Executor, ev: ExecEvent, post: Executor) -> bool {
    match pre {
        Executor::Configuring => match ev {
            ExecEvent::ToolExited(ok) => if ok {
                post == Executor::Installing
            } else {
                post == Executor::Failed(InstallError::CMakeFailed)
            },
            ExecEvent::ToolLaunchFailed(m) => post matches Executor::Failed(
                InstallError::CouldNotStartProcess(s),
            ) && s@ == "failed to start cmake: "@ + m@,
            _ => post == pre,
        },
        Executor::Installing => match ev {
            ExecEvent::ToolExited(ok) => if ok {
                post == Executor::Done
            } else {
                post == Executor::RecoveryIntro
            },
            ExecEvent::ToolLaunchFailed(m) => post == Executor::Failed(
                InstallError::CouldNotStartProcess(m),
            ),
            _ => post == pre,
        },
        Executor::RecoveryIntro => match ev {
            ExecEvent::ToolExited(_) => post == Executor::RecoveryPrompt,
            ExecEvent::ToolLaunchFailed(_) => post == Executor::RecoveryPrompt,
            _ => post == pre,
        },
        Executor::RecoveryPrompt => match ev {
            ExecEvent::TargetLine(t) => if t@ == sentinel() {
                post == Executor::Done
            } else {
                post == Executor::RecoveryRunning(t)
            },
            _ => post == pre,
        },
        Executor::RecoveryRunning(_) => match ev {
            ExecEvent::ToolExited(ok) => if ok {
                post == Executor::Done
            } else {
                post == Executor::RecoveryPrompt
            },
            ExecEvent::ToolLaunchFailed(_) => post == Executor::RecoveryPrompt,
            _ => post == pre,
        },
        Executor::MovingHeaders(plan, next) => match ev {
            ExecEvent::CopyDone => if next + 1 < plan@.len() {
                post == Executor::MovingHeaders(plan, (next + 1) as usize)
            } else {
                post == Executor::Done
            },
            ExecEvent::CopySourceMissing => if next + 1 < plan@.len() {
                post == Executor::MovingHeaders(plan, (next + 1) as usize)
            } else {
                post == Executor::Done
            },
            ExecEvent::CopyFailed(e) => post == Executor::Failed(e),
            _ => post == pre,
        },
        Executor::Done => post == pre,
        Executor::Failed(_) => post == pre,
    }
}

impl Executor {
    /// Consumes one reported event and moves the machine forward.
    pub fn step(self, ev: ExecEvent) -> (r: Executor)
        ensures
            step_rel(self, ev, r),
            self.wf() ==> r.wf(),
    {
        match self {
            Executor::Configuring => match ev {
                ExecEvent::ToolExited(ok) => if ok {
                    Executor::Installing
                } else {
                    Executor::Failed(InstallError::CMakeFailed)
                },
                ExecEvent::ToolLaunchFailed(m) => {
                    let mut s = String::from_str("failed to start cmake: ");
                    s.append(m.as_str());
                    Executor::Failed(InstallError::CouldNotStartProcess(s))
                },
                _ => Executor::Configuring,
            },
            Executor::Installing => match ev {
                ExecEvent::ToolExited(ok) => if ok {
                    Executor::Done
                } else {
                    Executor::RecoveryIntro
                },
                ExecEvent::ToolLaunchFailed(m) => Executor::Failed(
                    InstallError::CouldNotStartProcess(m),
                ),
                _ => Executor::Installing,
            },
            Executor::RecoveryIntro => match ev {
                ExecEvent::ToolExited(_) => Executor::RecoveryPrompt,
                ExecEvent::ToolLaunchFailed(_) => Executor::RecoveryPrompt,
                _ => Executor::RecoveryIntro,
            },
            Executor::RecoveryPrompt => match ev {
                ExecEvent::TargetLine(t) => if is_sentinel(t.as_str()) {
                    Executor::Done
                } else {
                    Executor::RecoveryRunning(t)
                },
                _ => Executor::RecoveryPrompt,
            },
            Executor::RecoveryRunning(t) => match ev {
                ExecEvent::ToolExited(ok) => if ok {
                    Executor::Done
                } else {
                    Executor::RecoveryPrompt
                },
                ExecEvent::ToolLaunchFailed(_) => Executor::RecoveryPrompt,
                _ => Executor::RecoveryRunning(t),
            },
            Executor::MovingHeaders(plan, next) => match ev {
                ExecEvent::CopyDone => if plan.len() > 0 && next < plan.len() - 1 {
                    Executor::MovingHeaders(plan, next + 1)
                } else {
                    Executor::Done
                },
                ExecEvent::CopySourceMissing => if plan.len() > 0 && next < plan.len() - 1 {
                    Executor::MovingHeaders(plan, next + 1)
                } else {
                    Executor::Done
                },
                ExecEvent::CopyFailed(e) => Executor::Failed(e),
                _ => Executor::MovingHeaders(plan, next),
            },
            Executor::Done => Executor::Done,
            Executor::Failed(e) => Executor::Failed(e),
        }
    }

    /// The action the driver must perform in the machine's current state.
    pub fn action(&self) -> (a: ExecAction)
        requires
            self.wf(),
        ensures
            *self is Configuring ==> a == ExecAction::RunConfigure,
            *self is Installing ==> a == ExecAction::RunInstallTarget,
            *self is RecoveryIntro ==> a == ExecAction::ShowTargets,
            *self is RecoveryPrompt ==> a == ExecAction::PromptTarget,
            *self matches Executor::RecoveryRunning(t) ==> a == ExecAction::RunTarget(t),
            *self matches Executor::MovingHeaders(plan, next) ==> a == ExecAction::CopyHeader(
                plan@[next as int].0,
                plan@[next as int].1,
            ),
            *self is Done || *self is Failed ==> a == ExecAction::Report,
    {
        match self {
            Executor::Configuring => ExecAction::RunConfigure,
            Executor::Installing => ExecAction::RunInstallTarget,
            Executor::RecoveryIntro => ExecAction::ShowTargets,
            Executor::RecoveryPrompt => ExecAction::PromptTarget,
            Executor::RecoveryRunning(t) => ExecAction::RunTarget(t.clone()),
            Executor::MovingHeaders(plan, next) => {
                let p = &plan[*next];
                ExecAction::CopyHeader(p.0.clone(), p.1.clone())
            },
            Executor::Done => ExecAction::Report,
            Executor::Failed(_) => ExecAction::Report,
        }
    }

    /// `Some` exactly in the terminal states: success for `Done`, the
    /// carried error for `Failed`.
    pub fn outcome(self) -> (r: Option<Result<(), InstallError>>)
        ensures
            r == outcome_spec(self),
    {
        match self {
            Executor::Done => Some(Ok(())),
            Executor::Failed(e) => Some(Err(e)),
            _ => None,
        }
    }
}

/// The outcome read from a machine: `None` while it still has work.
pub open spec fn outcome_spec(s: Executor) -> Option<Result<(), InstallError>> {
    match s {
        Executor::Done => Some(Ok(())),
        Executor::Failed(e) => Some(Err(e)),
        _ => None,
    }
}

/// The machine that a list of header files starts in: `Done` for an empty
/// list (a no-op success), else copying from the first pair of a plan whose
/// destinations are fixed by the sources alone.
pub open spec fn headers_plan_for(files: Seq<String>, e: Executor) -> bool {
    if files.len() == 0 {
        e == Executor::Done
    } else {
        e matches Executor::MovingHeaders(plan, next) && next == 0 && plan@.len() == files.len()
            && forall|k: int|
            0 <= k < files.len() ==> (#[trigger] plan@[k]).0 == files[k] && plan@[k].1@
                == header_dest_of(files[k]@)
    }
}

/// Starts the header-relocation strategy: builds the copy plan, one
/// destination per listed file, and asks for the first copy.
pub fn execute_install_headers(headers: &Vec<String>) -> (e: Executor)
    ensures
        e.wf(),
        headers_plan_for(headers@, e),
{
    if headers.len() == 0 {
        return Executor::Done;
    }
    let mut plan: Vec<(String, String)> = Vec::new();
    let mut i: usize = 0;
    while i < headers.len()
        invariant
            i <= headers@.len(),
            plan@.len() == i,
            forall|k: int|
                0 <= k < i ==> (#[trigger] plan@[k]).0 == headers@[k] && plan@[k].1@
                    == header_dest_of(headers@[k]@),
        decreases headers@.len() - i,
    {
        let src_path = headers[i].clone();
        let dest = header_destination(headers[i].as_str());
        plan.push((src_path, dest));
        i += 1;
    }
    Executor::MovingHeaders(plan, 0)
}

/// Starts the machine for a resolved strategy. An unresolvable method is
/// terminal at once and is never executed.
pub fn execute_install_method(method: &InstallMethod) -> (e: Executor)
    ensures
        e.wf(),
        method is RunCMake ==> e == Executor::Configuring,
        method is MakeInstall ==> e == Executor::Installing,
        method matches InstallMethod::Unknown(m) ==> e == Executor::Failed(
            InstallError::UnknownFatal(*m),
        ),
        method matches InstallMethod::MoveHeaders(files) ==> headers_plan_for(files@, e),
{
    match method {
        InstallMethod::Unknown(m) => Executor::Failed(InstallError::UnknownFatal(m.clone())),
        InstallMethod::RunCMake => Executor::Configuring,
        InstallMethod::MakeInstall => Executor::Installing,
        InstallMethod::MoveHeaders(files) => execute_install_headers(files),
    }
}

/// `states` is a run of the machine: it starts at `s0` and each event links
/// consecutive states through the transition relation.
pub open spec fn is_run(s0: Executor, evs: Seq<ExecEvent>, states: Seq<Executor>) -> bool {
    &&& states.len() == evs.len() + 1
    &&& states[0] == s0
    &&& forall|k: int| 0 <= k < evs.len() ==> step_rel(#[trigger] states[k], evs[k], states[k + 1])
}

/// One failed recovery attempt: a non-sentinel target name, answered by a
/// non-zero exit or by a failure to start the tool at all.
pub open spec fn is_failed_attempt(t: ExecEvent, r: ExecEvent) -> bool {
    &&& t matches ExecEvent::TargetLine(s) && s@ != sentinel()
    &&& ((r matches ExecEvent::ToolExited(ok) && !ok) || r matches ExecEvent::ToolLaunchFailed(_))
}

/// A sequence of whole failed recovery attempts, one after another.
pub open spec fn failing_attempts(evs: Seq<ExecEvent>) -> bool
    decreases evs.len(),
{
    evs.len() == 0 || (evs.len() >= 2 && is_failed_attempt(evs[0], evs[1]) && failing_attempts(
        evs.skip(2),
    ))
}

/// Recovery-loop law: starting at the prompt, any number of failing target
/// attempts keeps the loop alive — no intermediate state is terminal — and
/// the sentinel that follows them ends the machine in `Done`.
pub proof fn lemma_recovery_terminates_on_sentinel(
    evs: Seq<ExecEvent>,
    last: ExecEvent,
    states: Seq<Executor>,
)
    requires
        failing_attempts(evs),
        last matches ExecEvent::TargetLine(t) && t@ == sentinel(),
        is_run(Executor::RecoveryPrompt, evs.push(last), states),
    ensures
        states.last() == Executor::Done,
        forall|k: int|
            0 <= k < states.len() - 1 ==> !((#[trigger] states[k]) is Done) && !(states[k]
                is Failed),
    decreases evs.len(),
{
    let all = evs.push(last);
    assert(states.len() == evs.len() + 2);
    if evs.len() == 0 {
        assert(all[0] == last);
        assert(step_rel(states[0], all[0], states[1]));
        assert(states.last() == states[1]);
    } else {
        assert(evs.len() >= 2 && is_failed_attempt(evs[0], evs[1]));
        assert(all[0] == evs[0] && all[1] == evs[1]);
        assert(step_rel(states[0], all[0], states[1]));
        assert(step_rel(states[1], all[1], states[2]));
        assert(states[2] == Executor::RecoveryPrompt);
        let tail_evs = evs.skip(2);
        let tail_states = states.skip(2);
        assert(tail_evs.push(last) =~= all.skip(2));
        assert(is_run(Executor::RecoveryPrompt, tail_evs.push(last), tail_states)) by {
            assert(tail_states[0] == states[2]);
            assert forall|k: int| 0 <= k < tail_evs.push(last).len() implies step_rel(
                #[trigger] tail_states[k],
                tail_evs.push(last)[k],
                tail_states[k + 1],
            ) by {
                assert(tail_states[k] == states[k + 2]);
                assert(tail_states[k + 1] == states[k + 3]);
                assert(tail_evs.push(last)[k] == all[k + 2]);
                assert(step_rel(states[k + 2], all[k + 2], states[k + 3]));
            }
        }
        lemma_recovery_terminates_on_sentinel(tail_evs, last, tail_states);
        assert(states.last() == tail_states.last());
        assert forall|k: int| 0 <= k < states.len() - 1 implies !((#[trigger] states[k]) is Done)
            && !(states[k] is Failed) by {
            if k >= 2 {
                assert(states[k] == tail_states[k - 2]);
            }
        }
    }
}

/// Header relocation is idempotent at the planning level: two plan entries
/// whose sources are the same file are copied to the same destination, and
/// a repeated copy is a fresh overwrite, never a failure.
pub proof fn lemma_relocation_idempotent(
    plan: Vec<(String, String)>,
    next: usize,
    i: int,
    j: int,
)
    requires
        Executor::MovingHeaders(plan, next).wf(),
        0 <= i < plan@.len(),
        0 <= j < plan@.len(),
        plan@[i].0@ == plan@[j].0@,
    ensures
        plan@[i].1@ == plan@[j].1@,
{
}

/// The kind of failure a header copy can hit, with the performer's own
/// description where one exists: the destination could not be created, the
/// source could not be read, or the write itself failed.
pub enum CopyFailure {
    CreateFailed(String),
    ReadFailed(String),
    WriteFailed,
}

/// Builds the error a failed header copy is reported with: a bad
/// destination names the destination and suggests elevated rights, an
/// unreadable source carries the reader's description, and a failed write
/// is its own error.
pub fn copy_failure_error(dest: &str, f: &CopyFailure) -> (e: InstallError)
    ensures
        f matches CopyFailure::CreateFailed(m) ==> (e matches InstallError::BadDirectory(s) && s@
            == dest@ + ": "@ + m@ + " (you may need to `sudo`)"@),
        f matches CopyFailure::ReadFailed(m) ==> (e matches InstallError::UnknownFatal(s) && s@
            == m@),
        f is WriteFailed ==> e == InstallError::FailedToWriteToFile,
{
    match f {
        CopyFailure::CreateFailed(m) => InstallError::BadDirectory(
            String::from_str(dest).concat(": ").concat(m.as_str()).concat(
                " (you may need to `sudo`)",
            ),
        ),
        CopyFailure::ReadFailed(m) => InstallError::UnknownFatal(m.clone()),
        CopyFailure::WriteFailed => InstallError::FailedToWriteToFile,
    }
}

} // verus!
