use vstd::prelude::*;
use crate::device::Device;
use crate::orchestration::{announced_after, dance_hardware, script, spells};
use crate::{StandbyMode, TransitionError};

verus! {

/// The one place where the device lives between uses. It holds the device or
/// nothing: it is empty exactly while somebody has taken the device and not
/// yet brought it back.
pub struct Slot<D> {
    device: Option<D>,
}

/// Why a cycle on the slot did not run the whole script.
pub enum RunError {
    /// The slot was empty: somebody else holds the device.
    Busy,
    /// A transition failed. The device is back in the slot.
    TransitionFailure(anyhow::Error),
}

impl<D> Slot<D> {
    /// What the slot holds.
    pub closed spec fn view(&self) -> Option<D> {
        self.device
    }

    /// A take turns `self` into `after` and yields `taken`: it yields what
    /// the slot held and leaves nothing behind.
    pub open spec fn takes(self, taken: Option<D>, after: Self) -> bool {
        taken == self@ && after@ is None
    }

    /// Putting `device` back turns `self` into `after`: the slot was empty
    /// and now holds that device.
    pub open spec fn puts_back(self, device: D, after: Self) -> bool {
        self@ is None && after@ == Some(device)
    }

    /// A slot with the device in it.
    pub fn new(device: D) -> (slot: Self)
        ensures
            slot@ == Some(device),
    {
        Slot { device: Some(device) }
    }

    /// Whether the device is out.
    pub fn is_vacant(&self) -> (vacant: bool)
        ensures
            vacant == (self@ is None),
    {
        self.device.is_none()
    }

    /// Takes the device out if it is there. An empty slot yields nothing and
    /// stays empty: the caller is told at once and does not wait.
    pub fn try_take(&mut self) -> (taken: Option<D>)
        ensures
            old(self).takes(taken, *final(self)),
    {
        self.device.take()
    }

    /// Brings the device back. The slot must be empty: whoever took the
    /// device is the only one who can hold one to bring back.
    pub fn put_back(&mut self, device: D)
        requires
            old(self)@ is None,
        ensures
            old(self).puts_back(device, *final(self)),
    {
        self.device = Some(device);
    }
}

impl<H: StandbyMode> Slot<H> {
    /// Ends a cycle: brings back the device that a run of the script ended
    /// with, on success the device at rest, on failure the device that the
    /// failure carries, and hands on the cause of a failure.
    pub fn settle(&mut self, outcome: Result<H, TransitionError<H>>) -> (verdict: Result<
        (),
        anyhow::Error,
    >)
        requires
            old(self)@ is None,
        ensures
            match outcome {
                Ok(standby) => final(self)@ == Some(standby) && verdict is Ok,
                Err(failure) => final(self)@ == Some(failure.me) && verdict == Err::<
                    (),
                    anyhow::Error,
                >(failure.error),
            },
    {
        match outcome {
            Ok(standby) => {
                self.put_back(standby);
                Ok(())
            },
            Err(failure) => {
                let TransitionError { me, error } = failure;
                self.put_back(me);
                Err(error)
            },
        }
    }

    /// One whole cycle: takes the device, runs the script on it and brings
    /// it back, whichever way the script ended. An empty slot is reported as
    /// busy and left alone. On success the labels shown on the way come back.
    pub fn run(&mut self) -> (served: Result<Vec<&'static str>, RunError>)
        ensures
            old(self)@ is None <==> served == Err::<Vec<&'static str>, RunError>(RunError::Busy),
            old(self)@ is None ==> final(self)@ is None,
            old(self)@ is Some ==> {
                let before = old(self)@->Some_0;
                &&& final(self)@ is Some
                &&& final(self)@->Some_0@.identity == before@.identity
                &&& before@.unfailing ==> served is Ok
                &&& match served {
                    Ok(observed) => {
                        &&& final(self)@->Some_0@ == before@.walk(script())
                        &&& spells(observed@, announced_after(4))
                    },
                    Err(_) => {
                        ||| final(self)@ == Some(before)
                        ||| final(self)@->Some_0@ == before@.walk(script().take(2))
                    },
                }
            },
    {
        match self.try_take() {
            None => Err(RunError::Busy),
            Some(hardware) => {
                let report = dance_hardware(hardware);
                let observed = report.observed;
                match self.settle(report.outcome) {
                    Ok(()) => Ok(observed),
                    Err(cause) => Err(RunError::TransitionFailure(cause)),
                }
            },
        }
    }
}

/// Of any number of takes in a row, with nothing brought back in between,
/// only the first can yield the device: every later one finds the slot empty.
pub proof fn lemma_at_most_one_take_succeeds<D>(slots: Seq<Slot<D>>, taken: Seq<Option<D>>)
    requires
        slots.len() == taken.len() + 1,
        forall|i: int| 0 <= i < taken.len() ==> (#[trigger] slots[i]).takes(taken[i], slots[i + 1]),
    ensures
        forall|i: int| 1 <= i < taken.len() ==> (#[trigger] taken[i]) is None,
        slots[0]@ is None ==> forall|i: int| 0 <= i < taken.len() ==> (#[trigger] taken[i]) is None,
{
    assert forall|i: int| 1 <= i < taken.len() implies (#[trigger] taken[i]) is None by {
        assert(slots[i - 1].takes(taken[i - 1], slots[i]));
        assert(slots[i].takes(taken[i], slots[i + 1]));
    }
    if slots[0]@ is None {
        assert forall|i: int| 0 <= i < taken.len() implies (#[trigger] taken[i]) is None by {
            if i == 0 {
                assert(slots[0].takes(taken[0], slots[1]));
            }
        }
    }
}

/// A take that succeeds, followed by bringing the same device back, leaves
/// the slot holding what it held before: nothing is lost and nothing doubled.
pub proof fn lemma_take_then_put_back_restores<D>(
    before: Slot<D>,
    device: D,
    between: Slot<D>,
    after: Slot<D>,
)
    requires
        before.takes(Some(device), between),
        between.puts_back(device, after),
    ensures
        after@ == before@,
        between@ is None,
{
}

/// While the device is out, the slot takes it back exactly once: after one
/// put-back the slot is full, and no second put-back is allowed on it.
pub proof fn lemma_no_second_put_back<D>(
    before: Slot<D>,
    first: D,
    between: Slot<D>,
    second: D,
    after: Slot<D>,
)
    requires
        before.puts_back(first, between),
    ensures
        !between.puts_back(second, after),
{
}

} // verus!
