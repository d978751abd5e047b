use vstd::prelude::*;
use crate::device::{Device, DeviceModel, Mode};
use crate::{ConfigureMode, OperateMode, StandbyMode, TransitionError};

verus! {

/// A stand-in for hardware whose way into configuration, into operation, or
/// both, is blocked. A blocked transition fails every time it is tried,
/// until the device is mended.
pub struct FaultyHardware {
    id: u32,
    configure_fails: bool,
    operate_fails: bool,
    entered: Ghost<Seq<Mode>>,
}

/// The faulty device in operation.
pub struct FaultyOperate {
    id: u32,
    configure_fails: bool,
    entered: Ghost<Seq<Mode>>,
}

/// The faulty device under configuration.
pub struct FaultyConfig {
    id: u32,
    operate_fails: bool,
    entered: Ghost<Seq<Mode>>,
}

impl Device for FaultyHardware {
    closed spec fn view(&self) -> DeviceModel {
        DeviceModel {
            identity: self.id as int,
            unfailing: !self.configure_fails && !self.operate_fails,
            entered: self.entered@,
        }
    }
}

impl Device for FaultyOperate {
    /// A device that got into operation can only be blocked on its way into
    /// configuration.
    closed spec fn view(&self) -> DeviceModel {
        DeviceModel {
            identity: self.id as int,
            unfailing: !self.configure_fails,
            entered: self.entered@,
        }
    }
}

impl Device for FaultyConfig {
    /// A device that got into configuration can only be blocked on its way
    /// into operation.
    closed spec fn view(&self) -> DeviceModel {
        DeviceModel {
            identity: self.id as int,
            unfailing: !self.operate_fails,
            entered: self.entered@,
        }
    }
}

/// The cause that a blocked transition reports, made by `anyhow::Error::msg`
/// from the given text. The outcome is opaque here, so nothing is claimed
/// of it.
#[verifier::external_body]
fn cause(text: &'static str) -> anyhow::Error {
    anyhow::Error::msg(text)
}

impl FaultyHardware {
    /// Whether the way into configuration is blocked.
    pub closed spec fn fails_configure(&self) -> bool {
        self.configure_fails
    }

    /// Whether the way into operation is blocked.
    pub closed spec fn fails_operate(&self) -> bool {
        self.operate_fails
    }

    /// A device at rest that has not been anywhere yet, with the given
    /// transitions blocked.
    pub fn new(id: u32, configure_fails: bool, operate_fails: bool) -> (hardware: Self)
        ensures
            hardware@ == (DeviceModel {
                identity: id as int,
                unfailing: !configure_fails && !operate_fails,
                entered: Seq::empty(),
            }),
            hardware.fails_configure() == configure_fails,
            hardware.fails_operate() == operate_fails,
    {
        FaultyHardware { id, configure_fails, operate_fails, entered: Ghost(Seq::empty()) }
    }

    pub fn id(&self) -> (id: u32)
        ensures
            id == self@.identity,
    {
        self.id
    }

    /// The same device with nothing blocked any more.
    pub fn mended(self) -> (hardware: Self)
        ensures
            hardware@ == (DeviceModel { unfailing: true, ..self@ }),
            !hardware.fails_configure(),
            !hardware.fails_operate(),
    {
        FaultyHardware {
            id: self.id,
            configure_fails: false,
            operate_fails: false,
            entered: self.entered,
        }
    }
}

impl FaultyConfig {
    /// Whether the way into operation is blocked.
    pub closed spec fn fails_operate(&self) -> bool {
        self.operate_fails
    }
}

impl FaultyOperate {
    /// Whether the way into configuration is blocked.
    pub closed spec fn fails_configure(&self) -> bool {
        self.configure_fails
    }
}

/// A faulty device at rest never fails exactly when nothing is blocked.
pub proof fn lemma_unfailing_iff_nothing_blocked(hardware: FaultyHardware)
    ensures
        hardware@.unfailing <==> !hardware.fails_configure() && !hardware.fails_operate(),
{
}

impl StandbyMode for FaultyHardware {
    type Configure = FaultyConfig;

    type Operate = FaultyOperate;

    fn configure(self) -> (outcome: Result<FaultyConfig, TransitionError<FaultyHardware>>)
        ensures
            outcome is Err <==> self.fails_configure(),
            outcome is Ok ==> outcome->Ok_0.fails_operate() == self.fails_operate(),
    {
        if self.configure_fails {
            Err(TransitionError { me: self, error: cause("configure failed") })
        } else {
            Ok(
                FaultyConfig {
                    id: self.id,
                    operate_fails: self.operate_fails,
                    entered: Ghost(self.entered@.push(Mode::Configure)),
                },
            )
        }
    }

    fn operate(self) -> (outcome: Result<FaultyOperate, TransitionError<FaultyHardware>>)
        ensures
            outcome is Err <==> self.fails_operate(),
            outcome is Ok ==> outcome->Ok_0.fails_configure() == self.fails_configure(),
    {
        if self.operate_fails {
            Err(TransitionError { me: self, error: cause("operate failed") })
        } else {
            Ok(
                FaultyOperate {
                    id: self.id,
                    configure_fails: self.configure_fails,
                    entered: Ghost(self.entered@.push(Mode::Operate)),
                },
            )
        }
    }
}

impl OperateMode for FaultyOperate {
    type Standby = FaultyHardware;

    fn standby(self) -> (standby: FaultyHardware)
        ensures
            !standby.fails_operate(),
            standby.fails_configure() == self.fails_configure(),
    {
        FaultyHardware {
            id: self.id,
            configure_fails: self.configure_fails,
            operate_fails: false,
            entered: Ghost(self.entered@.push(Mode::Standby)),
        }
    }
}

impl ConfigureMode for FaultyConfig {
    type Standby = FaultyHardware;

    fn standby(self) -> (standby: FaultyHardware)
        ensures
            !standby.fails_configure(),
            standby.fails_operate() == self.fails_operate(),
    {
        FaultyHardware {
            id: self.id,
            configure_fails: false,
            operate_fails: self.operate_fails,
            entered: Ghost(self.entered@.push(Mode::Standby)),
        }
    }
}

} // verus!
