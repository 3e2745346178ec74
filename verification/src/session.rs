//! The course of a session: open the instrumentation object, load it, attach
//! every probe, then poll. The library decides each step from the outcome of
//! the one before; the caller carries the steps out against the backend.

use crate::error::{Fault, FaultModel};
use crate::probe::{probes, ProbeModel, ProbeSpec, Targets, TargetsModel};
use vstd::prelude::*;

verus! {

/// Time for which one poll may block, in milliseconds.
pub const POLL_TIMEOUT_MS: u64 = 100;

/// The step at which a session failed.
#[derive(Clone, Copy, Debug, PartialEq, Eq, Structural)]
pub enum Failure {
    Open,
    Load,
    /// The probe of this index in the table could not be bound.
    Attach(usize),
    Poll,
}

/// How far a session has come.
#[derive(Clone, Copy, Debug, PartialEq, Eq, Structural)]
pub enum Phase {
    /// Nothing has been asked of the backend.
    Unopened,
    /// The object is open.
    Opened,
    /// The object is loaded, and no probe is attached.
    Loaded,
    /// The object is loaded, and this many probes of the table are attached.
    Attached(usize),
    /// The session has failed.
    Failed(Failure),
    /// The session was cancelled.
    Stopped,
}

/// What became of the step that the library last asked for.
#[derive(Clone, Copy, Debug, PartialEq, Eq, Structural)]
pub enum Report {
    /// The backend did it.
    Done,
    /// The backend refused or failed.
    Failed,
    /// The caller wants the session to end.
    Cancel,
}

/// A request to bind one program to one symbol of one image.
#[derive(Clone, Debug, PartialEq, Eq)]
pub struct AttachRequest {
    pub program: String,
    pub path: Vec<u8>,
    pub symbol: String,
    pub retprobe: bool,
}

/// The step that the caller is to carry out.
#[derive(Clone, Debug, PartialEq, Eq)]
pub enum Command {
    /// Open the instrumentation object, with diagnostics on.
    Open,
    /// Load the opened object.
    Load,
    /// Attach one probe, and keep the handle.
    Attach(AttachRequest),
    /// Poll the sample channel once, for at most this long.
    Poll { timeout_ms: u64 },
    /// Give up: report the fault and exit with its status.
    Abort(Fault),
    /// Release the handles and the object, and return.
    Shutdown,
}

/// A command as mathematics.
pub enum CommandModel {
    Open,
    Load,
    Attach { program: Seq<char>, path: Seq<u8>, symbol: Seq<char>, retprobe: bool },
    Poll { timeout_ms: u64 },
    Abort(FaultModel),
    Shutdown,
}

impl View for Command {
    type V = CommandModel;

    open spec fn view(&self) -> CommandModel {
        match *self {
            Command::Open => CommandModel::Open,
            Command::Load => CommandModel::Load,
            Command::Attach(request) => CommandModel::Attach {
                program: request.program@,
                path: request.path@,
                symbol: request.symbol@,
                retprobe: request.retprobe,
            },
            Command::Poll { timeout_ms } => CommandModel::Poll { timeout_ms },
            Command::Abort(fault) => CommandModel::Abort(fault@),
            Command::Shutdown => CommandModel::Shutdown,
        }
    }
}

/// A session as mathematics.
pub struct SessionModel {
    pub phase: Phase,
    pub table: Seq<ProbeModel>,
    pub targets: TargetsModel,
}

impl SessionModel {
    /// The number of probes attached, while the object is loaded.
    pub open spec fn attached(self) -> Option<int> {
        match self.phase {
            Phase::Loaded => Some(0),
            Phase::Attached(n) => Some(n as int),
            _ => None,
        }
    }

    /// The indices that the phase holds lie within the table.
    pub open spec fn wf(self) -> bool {
        match self.phase {
            Phase::Attached(n) => n <= self.table.len(),
            Phase::Failed(Failure::Attach(n)) => n < self.table.len(),
            _ => true,
        }
    }

    /// The fault of the probe of index `n`.
    pub open spec fn attach_fault(self, n: int) -> FaultModel {
        FaultModel::ProbeAttachFailed {
            program: self.table[n].program,
            target: self.table[n].target,
            symbol: self.table[n].symbol,
        }
    }

    /// The fault of a failed step.
    pub open spec fn fault(self, failure: Failure) -> FaultModel {
        match failure {
            Failure::Open => FaultModel::ProgramOpenFailed,
            Failure::Load => FaultModel::ProgramLoadFailed,
            Failure::Attach(n) => self.attach_fault(n as int),
            Failure::Poll => FaultModel::PollError,
        }
    }

    /// The path of the image that the probe of index `n` is bound to.
    pub open spec fn path_for(self, n: int) -> Option<Seq<u8>> {
        self.targets.path_of(self.table[n].target)
    }

    /// The phase of a loaded session with `n` probes attached: a failure
    /// where the next probe selects an image that the session does not have.
    pub open spec fn settled(self, n: int) -> Phase {
        if n < self.table.len() && self.path_for(n) is None {
            Phase::Failed(Failure::Attach(n as usize))
        } else if n == 0 {
            Phase::Loaded
        } else {
            Phase::Attached(n as usize)
        }
    }

    /// The step to take with `n` probes attached: the next probe of the
    /// table, and a poll once there is none left.
    pub open spec fn step_after(self, n: int) -> CommandModel {
        if n < self.table.len() {
            match self.path_for(n) {
                Some(path) => CommandModel::Attach {
                    program: self.table[n].program,
                    path,
                    symbol: self.table[n].symbol,
                    retprobe: self.table[n].retprobe,
                },
                None => CommandModel::Abort(self.attach_fault(n)),
            }
        } else {
            CommandModel::Poll { timeout_ms: POLL_TIMEOUT_MS }
        }
    }

    /// The step that the session asks for.
    pub open spec fn pending(self) -> CommandModel {
        match self.phase {
            Phase::Unopened => CommandModel::Open,
            Phase::Opened => CommandModel::Load,
            Phase::Loaded => self.step_after(0),
            Phase::Attached(n) => self.step_after(n as int),
            Phase::Failed(failure) => CommandModel::Abort(self.fault(failure)),
            Phase::Stopped => CommandModel::Shutdown,
        }
    }

    /// The phase that a report on the pending step leads to.
    pub open spec fn phase_after(self, report: Report) -> Phase {
        match self.phase {
            Phase::Failed(_) | Phase::Stopped => self.phase,
            Phase::Unopened => match report {
                Report::Done => Phase::Opened,
                Report::Failed => Phase::Failed(Failure::Open),
                Report::Cancel => Phase::Stopped,
            },
            Phase::Opened => match report {
                Report::Done => self.settled(0),
                Report::Failed => Phase::Failed(Failure::Load),
                Report::Cancel => Phase::Stopped,
            },
            Phase::Loaded | Phase::Attached(_) => {
                let n = self.attached()->0;
                match report {
                    Report::Cancel => Phase::Stopped,
                    Report::Done => if n < self.table.len() {
                        self.settled(n + 1)
                    } else {
                        self.phase
                    },
                    Report::Failed => if n < self.table.len() {
                        Phase::Failed(Failure::Attach(n as usize))
                    } else {
                        Phase::Failed(Failure::Poll)
                    },
                }
            },
        }
    }

    /// The session after a report on the pending step.
    pub open spec fn advance(self, report: Report) -> SessionModel {
        SessionModel { phase: self.phase_after(report), table: self.table, targets: self.targets }
    }

    /// The session after a sequence of reports, each on the step pending then.
    pub open spec fn after(self, reports: Seq<Report>) -> SessionModel
        decreases reports.len(),
    {
        if reports.len() == 0 {
            self
        } else {
            self.after(reports.drop_last()).advance(reports.last())
        }
    }
}

/// A session over a table of probes and the images they are bound to.
#[derive(Debug)]
pub struct Session {
    phase: Phase,
    table: Vec<ProbeSpec>,
    targets: Targets,
}

impl View for Session {
    type V = SessionModel;

    closed spec fn view(&self) -> SessionModel {
        SessionModel { phase: self.phase, table: probes(self.table@), targets: self.targets@ }
    }
}

impl Session {
    #[verifier::type_invariant]
    spec fn valid(&self) -> bool {
        match self.phase {
            Phase::Attached(n) => n <= self.table@.len(),
            Phase::Failed(Failure::Attach(n)) => n < self.table@.len(),
            _ => true,
        }
    }

    /// A session that has asked nothing of the backend yet.
    pub fn new(table: Vec<ProbeSpec>, targets: Targets) -> (session: Session)
        ensures
            session@ == (SessionModel {
                phase: Phase::Unopened,
                table: probes(table@),
                targets: targets@,
            }),
            session@.wf(),
    {
        Session { phase: Phase::Unopened, table, targets }
    }

    /// How far the session has come.
    pub fn phase(&self) -> (phase: Phase)
        ensures
            phase == self@.phase,
            self@.wf(),
    {
        proof {
            use_type_invariant(self);
        }
        self.phase
    }

    /// The number of probes in the table.
    pub fn probe_count(&self) -> (count: usize)
        ensures
            count == self@.table.len(),
    {
        self.table.len()
    }

    /// The fault of the probe of index `n`.
    fn attach_fault(&self, n: usize) -> (fault: Fault)
        requires
            n < self@.table.len(),
        ensures
            fault@ == self@.attach_fault(n as int),
    {
        let probe = &self.table[n];
        assert(self@.table[n as int] == probe@);
        Fault::ProbeAttachFailed {
            program: probe.program.clone(),
            target: probe.target,
            symbol: probe.symbol.clone(),
        }
    }

    /// The step to take with `n` probes attached.
    fn step_after(&self, n: usize) -> (command: Command)
        requires
            n <= self@.table.len(),
        ensures
            command@ == self@.step_after(n as int),
    {
        if n < self.table.len() {
            let probe = &self.table[n];
            assert(self@.table[n as int] == probe@);
            match self.targets.path_of(probe.target) {
                Some(path) => Command::Attach(
                    AttachRequest {
                        program: probe.program.clone(),
                        path,
                        symbol: probe.symbol.clone(),
                        retprobe: probe.retprobe,
                    },
                ),
                None => Command::Abort(self.attach_fault(n)),
            }
        } else {
            Command::Poll { timeout_ms: POLL_TIMEOUT_MS }
        }
    }

    /// The phase of a loaded session with `n` probes attached.
    fn settled(&self, n: usize) -> (phase: Phase)
        requires
            n <= self@.table.len(),
        ensures
            phase == self@.settled(n as int),
    {
        if n < self.table.len() {
            let probe = &self.table[n];
            assert(self@.table[n as int] == probe@);
            if self.targets.path_of(probe.target).is_none() {
                return Phase::Failed(Failure::Attach(n));
            }
        }
        if n == 0 {
            Phase::Loaded
        } else {
            Phase::Attached(n)
        }
    }

    /// The step that the session asks for now.
    pub fn command(&self) -> (command: Command)
        ensures
            self@.wf(),
            command@ == self@.pending(),
    {
        proof {
            use_type_invariant(self);
        }
        match self.phase {
            Phase::Unopened => Command::Open,
            Phase::Opened => Command::Load,
            Phase::Loaded => self.step_after(0),
            Phase::Attached(n) => self.step_after(n),
            Phase::Failed(failure) => Command::Abort(
                match failure {
                    Failure::Open => Fault::ProgramOpenFailed,
                    Failure::Load => Fault::ProgramLoadFailed,
                    Failure::Attach(n) => self.attach_fault(n),
                    Failure::Poll => Fault::PollError,
                },
            ),
            Phase::Stopped => Command::Shutdown,
        }
    }

    /// Takes in the report on the pending step and says what to do next.
    pub fn step(&mut self, report: Report) -> (command: Command)
        ensures
            old(self)@.wf(),
            final(self)@.wf(),
            final(self)@ == old(self)@.advance(report),
            command@ == final(self)@.pending(),
    {
        proof {
            use_type_invariant(&*self);
        }
        let count = self.table.len();
        let next = match self.phase {
            Phase::Failed(_) | Phase::Stopped => self.phase,
            Phase::Unopened => match report {
                Report::Done => Phase::Opened,
                Report::Failed => Phase::Failed(Failure::Open),
                Report::Cancel => Phase::Stopped,
            },
            Phase::Opened => match report {
                Report::Done => self.settled(0),
                Report::Failed => Phase::Failed(Failure::Load),
                Report::Cancel => Phase::Stopped,
            },
            Phase::Loaded | Phase::Attached(_) => {
                let n = match self.phase {
                    Phase::Attached(n) => n,
                    _ => 0,
                };
                match report {
                    Report::Cancel => Phase::Stopped,
                    Report::Done => if n < count {
                        self.settled(n + 1)
                    } else {
                        self.phase
                    },
                    Report::Failed => if n < count {
                        Phase::Failed(Failure::Attach(n))
                    } else {
                        Phase::Failed(Failure::Poll)
                    },
                }
            },
        };
        self.phase = next;
        self.command()
    }

    /// Feeds the reports to the session, one after the other, and lists the
    /// step that the session asked for after each.
    pub fn replay(&mut self, reports: &[Report]) -> (commands: Vec<Command>)
        ensures
            old(self)@.wf(),
            final(self)@.wf(),
            final(self)@ == old(self)@.after(reports@),
            commands@.len() == reports@.len(),
            forall|i: int|
                0 <= i < reports@.len() ==> (#[trigger] commands@[i])@ == old(self)@.after(
                    reports@.subrange(0, i + 1),
                ).pending(),
    {
        proof {
            use_type_invariant(&*self);
        }
        let ghost start = self@;
        let mut commands: Vec<Command> = Vec::new();
        let mut i: usize = 0;
        assert(reports@.subrange(0, 0) =~= Seq::<Report>::empty());
        while i < reports.len()
            invariant
                i <= reports@.len(),
                self@.wf(),
                self@ == start.after(reports@.subrange(0, i as int)),
                commands@.len() == i,
                forall|j: int|
                    0 <= j < i ==> (#[trigger] commands@[j])@ == start.after(
                        reports@.subrange(0, j + 1),
                    ).pending(),
            decreases reports@.len() - i,
        {
            let ghost taken = reports@.subrange(0, i + 1);
            assert(taken.drop_last() =~= reports@.subrange(0, i as int));
            assert(taken.last() == reports@[i as int]);
            let command = self.step(reports[i]);
            commands.push(command);
            i += 1;
        }
        assert(reports@.subrange(0, reports@.len() as int) =~= reports@);
        commands
    }
}

} // verus!
