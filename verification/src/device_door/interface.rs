use crate::error::DeviceError;
use vstd::prelude::*;

verus! {

/// What a door reports of its link to the controller.
#[derive(Clone, Copy, Debug, PartialEq, Eq, Structural)]
pub enum DeviceDoorEvent {
    Connected,
    Disconnected,
}

/// A door that a magnet holds shut.
pub trait DeviceDoor {
    /// The magnet holds the door.
    spec fn locked(&self) -> bool;

    /// The door carries out every command. It holds of a door in memory,
    /// and of no hardware.
    spec fn never_fails(&self) -> bool;

    /// Has the magnet hold the door.
    fn lock(&mut self) -> (r: Result<(), DeviceError>)
        ensures
            old(self).never_fails() ==> r is Ok,
            r is Ok ==> final(self).locked(),
            final(self).never_fails() == old(self).never_fails(),
    ;

    /// Has the magnet let go of the door.
    fn unlock(&mut self) -> (r: Result<(), DeviceError>)
        ensures
            old(self).never_fails() ==> r is Ok,
            r is Ok ==> !final(self).locked(),
            final(self).never_fails() == old(self).never_fails(),
    ;

    /// Whether the magnet has let go of the door.
    fn is_unlocked(&self) -> (r: Result<bool, DeviceError>)
        ensures
            self.never_fails() ==> r is Ok,
            r is Ok ==> r->Ok_0 == !self.locked(),
    ;
}

} // verus!
