use vstd::prelude::*;

verus! {

/// The three modes a device can be in. It is always in exactly one of them.
#[derive(Clone, Copy, Debug, PartialEq, Eq, Structural)]
pub enum Mode {
    Standby,
    Configure,
    Operate,
}

impl Mode {
    /// The fixed label under which a mode is shown to observers.
    pub open spec fn label_text(self) -> Seq<char> {
        match self {
            Mode::Standby => "standby"@,
            Mode::Configure => "configure"@,
            Mode::Operate => "operate"@,
        }
    }

    pub fn label(self) -> (label: &'static str)
        ensures
            label@ == self.label_text(),
    {
        match self {
            Mode::Standby => "standby",
            Mode::Configure => "configure",
            Mode::Operate => "operate",
        }
    }
}

/// What contracts know of the resource behind a handle.
pub struct DeviceModel {
    /// Which physical resource this is. No transition changes it.
    pub identity: int,
    /// Whether no transition of this resource ever fails.
    pub unfailing: bool,
    /// The modes the resource has been taken into, oldest first.
    pub entered: Seq<Mode>,
}

impl DeviceModel {
    /// The same resource after one more successful transition, into `mode`.
    pub open spec fn enter(self, mode: Mode) -> DeviceModel {
        DeviceModel { entered: self.entered.push(mode), ..self }
    }

    /// The same resource after a walk through `modes`, in order.
    pub open spec fn walk(self, modes: Seq<Mode>) -> DeviceModel {
        DeviceModel { entered: self.entered + modes, ..self }
    }
}

/// A handle to the one physical resource, in whichever mode it is.
pub trait Device: Sized {
    spec fn view(&self) -> DeviceModel;
}

} // verus!
