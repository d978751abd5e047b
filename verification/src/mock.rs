use vstd::prelude::*;
use crate::device::{Device, DeviceModel, Mode};
use crate::{ConfigureMode, OperateMode, StandbyMode, TransitionError};

verus! {

/// A stand-in for real hardware, at rest. None of its transitions fails.
pub struct MockHardware {
    /// A representation of some sort of unique identifier specific to this hardware
    id: u32,
    entered: Ghost<Seq<Mode>>,
}

/// The mock in operation.
pub struct MockOperate {
    id: u32,
    entered: Ghost<Seq<Mode>>,
}

/// The mock under configuration.
pub struct MockConfig {
    id: u32,
    entered: Ghost<Seq<Mode>>,
}

impl Device for MockHardware {
    closed spec fn view(&self) -> DeviceModel {
        DeviceModel { identity: self.id as int, unfailing: true, entered: self.entered@ }
    }
}

impl Device for MockOperate {
    closed spec fn view(&self) -> DeviceModel {
        DeviceModel { identity: self.id as int, unfailing: true, entered: self.entered@ }
    }
}

impl Device for MockConfig {
    closed spec fn view(&self) -> DeviceModel {
        DeviceModel { identity: self.id as int, unfailing: true, entered: self.entered@ }
    }
}

/// A mock that has not been anywhere yet.
pub open spec fn fresh_mock(id: u32) -> DeviceModel {
    DeviceModel { identity: id as int, unfailing: true, entered: Seq::empty() }
}

impl MockHardware {
    pub fn new() -> (hardware: Self)
        ensures
            hardware@ == fresh_mock(0),
    {
        MockHardware { id: 0, entered: Ghost(Seq::empty()) }
    }

    /// A mock that stands for the resource `id`.
    pub fn with_id(id: u32) -> (hardware: Self)
        ensures
            hardware@ == fresh_mock(id),
    {
        MockHardware { id, entered: Ghost(Seq::empty()) }
    }

    pub fn id(&self) -> (id: u32)
        ensures
            id == self@.identity,
    {
        self.id
    }
}

impl Default for MockHardware {
    fn default() -> (hardware: Self)
        ensures
            hardware@ == fresh_mock(0),
    {
        MockHardware::new()
    }
}

impl MockOperate {
    pub fn id(&self) -> (id: u32)
        ensures
            id == self@.identity,
    {
        self.id
    }
}

impl MockConfig {
    pub fn id(&self) -> (id: u32)
        ensures
            id == self@.identity,
    {
        self.id
    }
}

impl StandbyMode for MockHardware {
    type Configure = MockConfig;

    type Operate = MockOperate;

    fn configure(self) -> (outcome: Result<MockConfig, TransitionError<MockHardware>>) {
        Ok(MockConfig { id: self.id, entered: Ghost(self.entered@.push(Mode::Configure)) })
    }

    fn operate(self) -> (outcome: Result<MockOperate, TransitionError<MockHardware>>) {
        Ok(MockOperate { id: self.id, entered: Ghost(self.entered@.push(Mode::Operate)) })
    }
}

impl OperateMode for MockOperate {
    type Standby = MockHardware;

    fn standby(self) -> (standby: MockHardware) {
        MockHardware { id: self.id, entered: Ghost(self.entered@.push(Mode::Standby)) }
    }
}

impl ConfigureMode for MockConfig {
    type Standby = MockHardware;

    fn standby(self) -> (standby: MockHardware) {
        MockHardware { id: self.id, entered: Ghost(self.entered@.push(Mode::Standby)) }
    }
}

} // verus!
