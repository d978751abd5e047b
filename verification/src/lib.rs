use vstd::prelude::*;

pub mod device;
pub mod faulty;
pub mod mock;
pub mod orchestration;
pub mod slot;

pub use device::{Device, DeviceModel, Mode};
pub use mock::{MockConfig, MockHardware, MockOperate};

verus! {

/// What a failed transition hands back: the handle it was asked to consume,
/// untouched, together with the cause of the failure.
pub struct TransitionError<ME> {
    pub me: ME,
    pub error: anyhow::Error,
}

/// `anyhow::Error`, carried through as the cause of a failed transition.
/// Nothing is known of what it holds.
#[verifier::external_type_specification]
#[verifier::external_body]
pub struct ExAnyhowError(anyhow::Error);

/// A device in operation. The only way out is back to standby, and that way
/// is always open.
pub trait OperateMode: Device {
    type Standby: Device;

    fn standby(self) -> (standby: Self::Standby)
        ensures
            standby@ == self@.enter(Mode::Standby),
    ;

    fn state(&self) -> (label: &'static str)
        ensures
            label@ == Mode::Operate.label_text(),
    {
        "operate"
    }
}

/// A device under configuration. The only way out is back to standby, and
/// that way is always open.
pub trait ConfigureMode: Device {
    type Standby: Device;

    fn standby(self) -> (standby: Self::Standby)
        ensures
            standby@ == self@.enter(Mode::Standby),
    ;

    fn state(&self) -> (label: &'static str)
        ensures
            label@ == Mode::Configure.label_text(),
    {
        "configure"
    }
}

/// A device at rest. From here it can be taken into configuration or into
/// operation. Either transition consumes the handle: on success the handle
/// lives on in the new mode, on failure it comes back unchanged.
pub trait StandbyMode: Device {
    type Configure: ConfigureMode<Standby = Self>;

    type Operate: OperateMode<Standby = Self>;

    fn configure(self) -> (outcome: Result<Self::Configure, TransitionError<Self>>)
        ensures
            self@.unfailing ==> outcome is Ok,
            match outcome {
                Ok(configure) => configure@ == self@.enter(Mode::Configure),
                Err(failure) => failure.me == self,
            },
    ;

    fn operate(self) -> (outcome: Result<Self::Operate, TransitionError<Self>>)
        ensures
            self@.unfailing ==> outcome is Ok,
            match outcome {
                Ok(operate) => operate@ == self@.enter(Mode::Operate),
                Err(failure) => failure.me == self,
            },
    ;

    fn state(&self) -> (label: &'static str)
        ensures
            label@ == Mode::Standby.label_text(),
    {
        "standby"
    }
}

} // verus!
