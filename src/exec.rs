use vstd::prelude::*;

verus! {

/// The stages of one run, in the only order in which they may happen.
#[derive(Debug, Clone, Copy, PartialEq, Eq, Structural)]
pub enum ExecStage {
    ScratchCreated,
    RootMaterialized,
    RootSwapped,
    WorkdirReset,
    NamespaceDetached,
    ChildSpawned,
    ChildCompleted,
    ScratchCleaned,
}

/// The position of a stage in the run.
pub open spec fn rank(s: ExecStage) -> nat {
    match s {
        ExecStage::ScratchCreated => 0,
        ExecStage::RootMaterialized => 1,
        ExecStage::RootSwapped => 2,
        ExecStage::WorkdirReset => 3,
        ExecStage::NamespaceDetached => 4,
        ExecStage::ChildSpawned => 5,
        ExecStage::ChildCompleted => 6,
        ExecStage::ScratchCleaned => 7,
    }
}

fn rank_of(s: ExecStage) -> (r: u8)
    ensures
        r as nat == rank(s),
{
    match s {
        ExecStage::ScratchCreated => 0,
        ExecStage::RootMaterialized => 1,
        ExecStage::RootSwapped => 2,
        ExecStage::WorkdirReset => 3,
        ExecStage::NamespaceDetached => 4,
        ExecStage::ChildSpawned => 5,
        ExecStage::ChildCompleted => 6,
        ExecStage::ScratchCleaned => 7,
    }
}

/// Tracks a run through its stages. It only moves one stage forward at a
/// time, so each stage, the namespace detachment among them, is entered at
/// most once, and only after the root swap and the working-directory reset.
pub struct ExecController {
    pub stage: ExecStage,
}

impl ExecController {
    /// A run whose scratch directory has just been created.
    pub fn new() -> (r: ExecController)
        ensures
            r.stage == ExecStage::ScratchCreated,
    {
        ExecController { stage: ExecStage::ScratchCreated }
    }

    /// Moves to `to` when it is the stage right after the current one, and
    /// tells whether it did; otherwise nothing changes.
    pub fn advance(&mut self, to: ExecStage) -> (r: bool)
        ensures
            r == (rank(to) == rank(old(self).stage) + 1),
            r ==> final(self).stage == to,
            !r ==> final(self).stage == old(self).stage,
    {
        if rank_of(to) as u16 == rank_of(self.stage) as u16 + 1 {
            self.stage = to;
            true
        } else {
            false
        }
    }
}

/// How a child process ended.
#[derive(Debug, Clone, Copy, PartialEq, Eq, Structural)]
pub enum ChildExit {
    /// It exited with this code.
    Exited(i32),
    /// A signal ended it; there is no exit code.
    Signaled,
}

/// What the controller does once the child has ended.
#[derive(Debug, Clone, Copy, PartialEq, Eq, Structural)]
pub enum RunOutcome {
    /// Write the child's captured stdout and stderr to its own, verbatim.
    RelayOutput,
    /// Terminate with this exit code.
    ExitWith(i32),
}

/// Translates the child's end into the controller's: a zero exit relays the
/// captured output, a non-zero exit is passed on as the same code, and a
/// signal ends the controller with code 0.
pub fn settle(status: ChildExit) -> (r: RunOutcome)
    ensures
        status == ChildExit::Exited(0) ==> r == RunOutcome::RelayOutput,
        status matches ChildExit::Exited(c) ==> (c != 0 ==> r == RunOutcome::ExitWith(c)),
        status == ChildExit::Signaled ==> r == RunOutcome::ExitWith(0),
{
    match status {
        ChildExit::Exited(0) => RunOutcome::RelayOutput,
        ChildExit::Exited(c) => RunOutcome::ExitWith(c),
        ChildExit::Signaled => RunOutcome::ExitWith(0),
    }
}

} // verus!
