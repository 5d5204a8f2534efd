//! The fixed plan of a research session: one commissioning, then fifty
//! cycles of five operations, each followed by its pause.

use vstd::prelude::*;
use vstd::string::*;

verus! {

/// Cycles in one session.
pub const CYCLES: u32 = 50;

/// Operations in one cycle.
pub const OPERATIONS_PER_CYCLE: u32 = 5;

/// Operations in one session, the commissioning included.
pub const SESSION_STEPS: u32 = 251;

/// The kinds of operation a client performs.
#[derive(Clone, Copy, Debug, PartialEq, Eq, Structural)]
pub enum Operation {
    Commissioning,
    OnCommand,
    OffCommand,
    TemperatureRead,
    LevelControl,
    DeviceInfo,
}

impl Operation {
    /// The label under which the operation's message is recorded.
    pub open spec fn label_spec(self) -> Seq<char> {
        match self {
            Operation::Commissioning => "COMMISSIONING"@,
            Operation::OnCommand => "ON_COMMAND"@,
            Operation::OffCommand => "OFF_COMMAND"@,
            Operation::TemperatureRead => "TEMPERATURE_READ"@,
            Operation::LevelControl => "LEVEL_CONTROL"@,
            Operation::DeviceInfo => "DEVICE_INFO"@,
        }
    }

    /// Seconds to wait after the operation.
    pub open spec fn pause_spec(self) -> nat {
        match self {
            Operation::Commissioning => 0,
            Operation::DeviceInfo => 8,
            _ => 3,
        }
    }

    /// The label under which the operation's message is recorded.
    pub fn label(self) -> (s: &'static str)
        ensures
            s@ == self.label_spec(),
    {
        match self {
            Operation::Commissioning => "COMMISSIONING",
            Operation::OnCommand => "ON_COMMAND",
            Operation::OffCommand => "OFF_COMMAND",
            Operation::TemperatureRead => "TEMPERATURE_READ",
            Operation::LevelControl => "LEVEL_CONTROL",
            Operation::DeviceInfo => "DEVICE_INFO",
        }
    }

    /// Seconds to wait after the operation.
    pub fn pause_seconds(self) -> (s: u64)
        ensures
            s == self.pause_spec(),
    {
        match self {
            Operation::Commissioning => 0,
            Operation::DeviceInfo => 8,
            _ => 3,
        }
    }
}

/// The operation at position `slot` of a cycle.
pub open spec fn cycle_operation(slot: nat) -> Operation {
    if slot == 0 {
        Operation::OnCommand
    } else if slot == 1 {
        Operation::TemperatureRead
    } else if slot == 2 {
        Operation::LevelControl
    } else if slot == 3 {
        Operation::OffCommand
    } else {
        Operation::DeviceInfo
    }
}

/// The operation that follows `done` completed ones, if the session is
/// not over.
pub open spec fn scheduled(done: nat) -> Option<Operation> {
    if done == 0 {
        Some(Operation::Commissioning)
    } else if done < SESSION_STEPS as nat {
        Some(cycle_operation(((done - 1) % (OPERATIONS_PER_CYCLE as int)) as nat))
    } else {
        None
    }
}

/// The cycle, counted from one, to which the operation after `done`
/// completed ones belongs; zero for the commissioning.
pub open spec fn cycle_of(done: nat) -> nat {
    if done == 0 {
        0
    } else {
        ((done - 1) / (OPERATIONS_PER_CYCLE as int) + 1) as nat
    }
}

/// The share of the session, in percent, announced once the operation
/// after `done` completed ones is over: after the last operation of
/// every tenth cycle.
pub open spec fn progress_after(done: nat) -> Option<nat> {
    if 1 <= done <= 250 && done % 5 == 0 && cycle_of(done) % 10 == 0 {
        Some(cycle_of(done) * 100 / 50)
    } else {
        None
    }
}

/// What the driver learns from the step it last carried out.
#[derive(Clone, Copy, Debug, PartialEq, Eq, Structural)]
pub enum Outcome {
    /// The measurement was reported and persisted.
    Reported,
    /// Reporting failed.
    Failed,
}

/// What the driver is to do next.
#[derive(Clone, Copy, Debug, PartialEq, Eq, Structural)]
pub enum Action {
    /// Perform the operation, then wait, then announce progress if any.
    Perform { operation: Operation, cycle: u32, pause_seconds: u64, progress: Option<u32> },
    /// The session is complete.
    Finish,
    /// A failure ended the session.
    Abort,
}

/// The position of a session in its plan.
#[derive(Clone, Copy, Debug, PartialEq, Eq, Structural)]
pub struct ResearchSession {
    /// Operations handed out so far.
    pub issued: u32,
    /// Whether a failure ended the session.
    pub aborted: bool,
}

/// The action that the plan holds for a session in which `issued`
/// operations were handed out, the last of which ended as `last`.
pub open spec fn planned(issued: nat, aborted: bool, last: Outcome) -> Action {
    if aborted || last == Outcome::Failed {
        Action::Abort
    } else {
        match scheduled(issued) {
            Some(operation) => Action::Perform {
                operation,
                cycle: cycle_of(issued) as u32,
                pause_seconds: operation.pause_spec() as u64,
                progress: match progress_after(issued) {
                    Some(p) => Some(p as u32),
                    None => None,
                },
            },
            None => Action::Finish,
        }
    }
}

impl ResearchSession {
    /// A session of which nothing has been performed.
    pub fn new() -> (s: Self)
        ensures
            s.issued == 0,
            !s.aborted,
    {
        ResearchSession { issued: 0, aborted: false }
    }

    /// The plan never hands out more than a session's operations.
    pub open spec fn well_formed(self) -> bool {
        self.issued <= SESSION_STEPS
    }

    /// Decides the next action from the outcome of the last one. The
    /// outcome handed to the first call is taken as `Reported`.
    pub fn next(&mut self, last: Outcome) -> (action: Action)
        requires
            old(self).well_formed(),
        ensures
            final(self).well_formed(),
            action == planned(old(self).issued as nat, old(self).aborted, last),
            final(self).aborted == (old(self).aborted || last == Outcome::Failed),
            final(self).issued == if action is Perform {
                old(self).issued + 1
            } else {
                old(self).issued as int
            },
    {
        if self.aborted || last == Outcome::Failed {
            self.aborted = true;
            return Action::Abort;
        }
        let done: u32 = self.issued;
        if done >= SESSION_STEPS {
            return Action::Finish;
        }
        let operation: Operation = if done == 0 {
            Operation::Commissioning
        } else {
            let slot: u32 = (done - 1) % OPERATIONS_PER_CYCLE;
            if slot == 0 {
                Operation::OnCommand
            } else if slot == 1 {
                Operation::TemperatureRead
            } else if slot == 2 {
                Operation::LevelControl
            } else if slot == 3 {
                Operation::OffCommand
            } else {
                Operation::DeviceInfo
            }
        };
        let cycle: u32 = if done == 0 {
            0
        } else {
            (done - 1) / OPERATIONS_PER_CYCLE + 1
        };
        let progress: Option<u32> = if done >= 1 && done % OPERATIONS_PER_CYCLE == 0 && cycle % 10
            == 0 {
            Some(cycle * 100 / CYCLES)
        } else {
            None
        };
        self.issued = done + 1;
        Action::Perform { operation, cycle, pause_seconds: operation.pause_seconds(), progress }
    }
}

/// A session performs one commissioning and then, fifty times over, the
/// five operations of a cycle in their order; after that nothing.
pub proof fn session_plan(done: nat)
    ensures
        scheduled(0) == Some(Operation::Commissioning),
        1 <= done <= 250 ==> scheduled(done) == Some(cycle_operation(((done - 1) % 5) as nat)),
        1 <= done <= 250 ==> 1 <= cycle_of(done) <= 50,
        done > 250 ==> scheduled(done) is None,
        scheduled(done) is Some <==> done < 251,
{
}

/// Progress is announced at the end of cycles 10, 20, 30, 40 and 50, as
/// 20, 40, 60, 80 and 100 percent.
pub proof fn progress_marks(done: nat)
    ensures
        progress_after(done) is Some <==> (done == 50 || done == 100 || done == 150 || done == 200
            || done == 250),
        progress_after(done) matches Some(p) ==> p == done * 2 / 5,
{
}

} // verus!
