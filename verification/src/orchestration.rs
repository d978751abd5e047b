use vstd::prelude::*;
use crate::device::{Device, DeviceModel, Mode};
use crate::{ConfigureMode, OperateMode, StandbyMode, TransitionError};

verus! {

/// The modes the script takes a device through, in order, starting from
/// standby: into configuration and back, then into operation and back.
pub open spec fn script() -> Seq<Mode> {
    seq![Mode::Configure, Mode::Standby, Mode::Operate, Mode::Standby]
}

/// A run of the script, holding the device at the stage it has reached.
/// Exactly one handle is inside at any time, so a run can always be brought
/// back to standby and the device handed on.
pub enum Run<H: StandbyMode> {
    /// At rest, nothing done yet. Configuration comes next.
    Ready(H),
    /// Under configuration.
    Configuring(H::Configure),
    /// At rest again. Operation comes next.
    Rested(H),
    /// In operation.
    Operating(H::Operate),
    /// At rest, with the whole script behind it.
    Done(H),
}

impl<H: StandbyMode> Run<H> {
    /// How many transitions of the script lie behind this stage.
    pub open spec fn steps_taken(self) -> nat {
        match self {
            Run::Ready(_) => 0,
            Run::Configuring(_) => 1,
            Run::Rested(_) => 2,
            Run::Operating(_) => 3,
            Run::Done(_) => 4,
        }
    }

    /// The mode the device is in at this stage.
    pub open spec fn mode(self) -> Mode {
        match self {
            Run::Configuring(_) => Mode::Configure,
            Run::Operating(_) => Mode::Operate,
            _ => Mode::Standby,
        }
    }

    /// The resource held at this stage.
    pub open spec fn device(self) -> DeviceModel {
        match self {
            Run::Ready(standby) => standby@,
            Run::Configuring(configure) => configure@,
            Run::Rested(standby) => standby@,
            Run::Operating(operate) => operate@,
            Run::Done(standby) => standby@,
        }
    }

    /// Whether arriving at this stage is shown to observers. The return to
    /// standby between configuration and operation is passed in silence.
    pub open spec fn announced(self) -> bool {
        self is Configuring || self is Operating || self is Done
    }

    /// Starts a run on a device at rest.
    pub fn begin(hardware: H) -> (run: Self)
        ensures
            run == Run::Ready(hardware),
    {
        Run::Ready(hardware)
    }

    /// The mode that the next transition leads into, or nothing once the
    /// script is through.
    pub fn upcoming(&self) -> (mode: Option<Mode>)
        ensures
            mode == if self.steps_taken() < 4 {
                Some(script()[self.steps_taken() as int])
            } else {
                None
            },
    {
        match self {
            Run::Ready(_) => Some(Mode::Configure),
            Run::Configuring(_) => Some(Mode::Standby),
            Run::Rested(_) => Some(Mode::Operate),
            Run::Operating(_) => Some(Mode::Standby),
            Run::Done(_) => None,
        }
    }

    pub fn is_done(&self) -> (done: bool)
        ensures
            done == (*self is Done),
    {
        match self {
            Run::Done(_) => true,
            _ => false,
        }
    }

    /// The label of the mode the device is in, as the device itself gives it.
    pub fn state(&self) -> (label: &'static str)
        ensures
            label@ == self.mode().label_text(),
    {
        match self {
            Run::Ready(standby) => standby.state(),
            Run::Configuring(configure) => configure.state(),
            Run::Rested(standby) => standby.state(),
            Run::Operating(operate) => operate.state(),
            Run::Done(standby) => standby.state(),
        }
    }

    /// The label to show on arrival at this stage, if arrival is shown.
    pub fn announcement(&self) -> (label: Option<&'static str>)
        ensures
            label is Some == self.announced(),
            label is Some ==> label->Some_0@ == self.mode().label_text(),
    {
        match self {
            Run::Ready(_) => None,
            Run::Rested(_) => None,
            _ => Some(self.state()),
        }
    }

    /// Takes the next transition of the script. From a stage at rest the
    /// transition may fail, and the failure carries the handle that was at
    /// rest, unchanged. From configuration and operation the way back to
    /// standby always succeeds. A finished run stays as it is.
    pub fn advance(self) -> (outcome: Result<Self, TransitionError<H>>)
        ensures
            self.device().unfailing ==> outcome is Ok,
            self is Configuring || self is Operating || self is Done ==> outcome is Ok,
            match outcome {
                Ok(next) => if self is Done {
                    next == self
                } else {
                    &&& next.steps_taken() == self.steps_taken() + 1
                    &&& next.device() == self.device().enter(next.mode())
                },
                Err(failure) => self == Run::Ready(failure.me) || self == Run::Rested(failure.me),
            },
    {
        match self {
            Run::Ready(standby) => match standby.configure() {
                Ok(configure) => Ok(Run::Configuring(configure)),
                Err(failure) => Err(failure),
            },
            Run::Configuring(configure) => Ok(Run::Rested(configure.standby())),
            Run::Rested(standby) => match standby.operate() {
                Ok(operate) => Ok(Run::Operating(operate)),
                Err(failure) => Err(failure),
            },
            Run::Operating(operate) => Ok(Run::Done(operate.standby())),
            Run::Done(standby) => Ok(Run::Done(standby)),
        }
    }

    /// Ends the run where it stands and hands the device out at rest. A
    /// device at rest comes out as it is; one under configuration or in
    /// operation is first taken back to standby.
    pub fn release(self) -> (standby: H)
        ensures
            match self {
                Run::Ready(held) => standby == held,
                Run::Configuring(held) => standby@ == held@.enter(Mode::Standby),
                Run::Rested(held) => standby == held,
                Run::Operating(held) => standby@ == held@.enter(Mode::Standby),
                Run::Done(held) => standby == held,
            },
    {
        match self {
            Run::Ready(standby) => standby,
            Run::Configuring(configure) => configure.standby(),
            Run::Rested(standby) => standby,
            Run::Operating(operate) => operate.standby(),
            Run::Done(standby) => standby,
        }
    }
}

/// At every stage the device is in the mode that the script prescribes: at
/// rest before the first transition, and after that in the mode the last
/// transition led into. Configuration and operation are never adjacent.
pub proof fn lemma_run_follows_script<H: StandbyMode>(run: Run<H>)
    ensures
        run.steps_taken() <= script().len(),
        run.steps_taken() == 0 ==> run.mode() == Mode::Standby,
        run.steps_taken() > 0 ==> run.mode() == script()[run.steps_taken() - 1],
        forall|i: int| 0 <= i < script().len() - 1 ==> (#[trigger] script()[i]) == Mode::Standby
            || script()[i + 1] == Mode::Standby,
{
}

/// The modes shown to observers once `steps` transitions of the script are
/// done: every arrival but the silent return to standby in the middle.
pub open spec fn announced_after(steps: nat) -> Seq<Mode> {
    if steps == 0 {
        Seq::empty()
    } else if steps <= 2 {
        seq![Mode::Configure]
    } else if steps == 3 {
        seq![Mode::Configure, Mode::Operate]
    } else {
        seq![Mode::Configure, Mode::Operate, Mode::Standby]
    }
}

/// `labels` are the labels of `modes`, one for one and in order.
pub open spec fn spells(labels: Seq<&'static str>, modes: Seq<Mode>) -> bool {
    &&& labels.len() == modes.len()
    &&& forall|i: int| 0 <= i < labels.len() ==> (#[trigger] labels[i])@ == modes[i].label_text()
}

/// How a run of the whole script ended, and what it showed on the way.
pub struct Report<H> {
    /// The device at rest after the full script, or the failure that stopped
    /// it, which carries the device at rest.
    pub outcome: Result<H, TransitionError<H>>,
    /// The labels shown on the way, in order.
    pub observed: Vec<&'static str>,
}

/// Runs the whole script on a device at rest: into configuration, back to
/// standby, into operation, back to standby. The first transition that fails
/// ends the run, and its failure is handed on as it came. Either way the
/// caller gets the device back at rest.
pub fn dance_hardware<H: StandbyMode>(hardware: H) -> (report: Report<H>)
    ensures
        hardware@.unfailing ==> report.outcome is Ok,
        match report.outcome {
            Ok(standby) => {
                &&& standby@ == hardware@.walk(script())
                &&& standby@.identity == hardware@.identity
                &&& spells(report.observed@, announced_after(4))
            },
            Err(failure) => {
                &&& failure.me@.identity == hardware@.identity
                &&& {
                    ||| failure.me == hardware && spells(report.observed@, announced_after(0))
                    ||| failure.me@ == hardware@.walk(script().take(2)) && spells(
                        report.observed@,
                        announced_after(2),
                    )
                }
            },
        },
{
    let mut run = Run::begin(hardware);
    let mut observed: Vec<&'static str> = Vec::new();
    while !run.is_done()
        invariant
            run.steps_taken() == 0 ==> run == Run::Ready(hardware),
            run.device() == hardware@.walk(script().take(run.steps_taken() as int)),
            spells(observed@, announced_after(run.steps_taken())),
        decreases 4 - run.steps_taken(),
    {
        let ghost before = run;
        match run.advance() {
            Ok(next) => {
                run = next;
            },
            Err(failure) => {
                return Report { outcome: Err(failure), observed };
            },
        }
        proof {
            assert(script().take(run.steps_taken() as int) =~= script().take(
                before.steps_taken() as int,
            ).push(run.mode()));
            assert(run.device() =~= hardware@.walk(script().take(run.steps_taken() as int)));
        }
        match run.announcement() {
            Some(label) => {
                observed.push(label);
            },
            None => {},
        }
    }
    proof {
        assert(script().take(4) =~= script());
    }
    Report { outcome: Ok(run.release()), observed }
}

} // verus!
