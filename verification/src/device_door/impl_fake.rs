use crate::device_door::interface::{DeviceDoor, DeviceDoorEvent};
use crate::error::DeviceError;
use crate::script::{play_round, random_round, round_script, ScriptStep, DRAWS};
use vstd::prelude::*;

verus! {

/// Of a million draws, those on which the simulated door goes away for a
/// while: one in a hundred.
pub const DOOR_AWAY_CHANCE: u32 = 10_000;

/// A door that exists in memory only.
#[derive(Clone, Copy, Debug, PartialEq, Eq)]
pub struct DeviceDoorFake {
    locked: bool,
}

impl DeviceDoorFake {
    /// A door that is not held.
    pub fn new() -> (d: DeviceDoorFake)
        ensures
            !d.locked(),
    {
        DeviceDoorFake { locked: false }
    }

    /// How the door's script opens: the door reports that it is there.
    pub fn events_opening(&self) -> (steps: Vec<ScriptStep<DeviceDoorEvent>>)
        ensures
            steps@ == seq![ScriptStep::Emit(DeviceDoorEvent::Connected)],
    {
        let steps = vec![ScriptStep::Emit(DeviceDoorEvent::Connected)];
        steps
    }

    /// One further round of the door's script, for a given draw: five
    /// minutes pass, and on a draw below the door's chance the door then
    /// goes away for five seconds.
    pub fn events_round_for(&self, drawn: u32) -> (steps: Vec<ScriptStep<DeviceDoorEvent>>)
        ensures
            steps@ == round_script(
                drawn,
                DOOR_AWAY_CHANCE,
                DeviceDoorEvent::Disconnected,
                DeviceDoorEvent::Connected,
            ),
    {
        play_round(drawn, DOOR_AWAY_CHANCE, DeviceDoorEvent::Disconnected, DeviceDoorEvent::Connected)
    }

    /// One further round of the door's script, for a fresh draw below a
    /// million: the door goes away on one draw in a hundred.
    pub fn events_round(&self) -> (steps: Vec<ScriptStep<DeviceDoorEvent>>)
        ensures
            exists|drawn: u32|
                drawn < DRAWS && steps@ == round_script(
                    drawn,
                    DOOR_AWAY_CHANCE,
                    DeviceDoorEvent::Disconnected,
                    DeviceDoorEvent::Connected,
                ),
    {
        random_round(DRAWS, DOOR_AWAY_CHANCE, DeviceDoorEvent::Disconnected, DeviceDoorEvent::Connected)
    }
}

impl DeviceDoor for DeviceDoorFake {
    closed spec fn locked(&self) -> bool {
        self.locked
    }

    open spec fn never_fails(&self) -> bool {
        true
    }

    fn lock(&mut self) -> (r: Result<(), DeviceError>) {
        self.locked = true;
        Ok(())
    }

    fn unlock(&mut self) -> (r: Result<(), DeviceError>) {
        self.locked = false;
        Ok(())
    }

    fn is_unlocked(&self) -> (r: Result<bool, DeviceError>) {
        Ok(!self.locked)
    }
}

} // verus!
