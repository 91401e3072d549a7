use crate::device_camera::interface::{DeviceCamera, DeviceCameraEvent, Frame};
use crate::error::DeviceError;
use crate::script::{play_round, random_round, round_script, ScriptStep, DRAWS};
use vstd::prelude::*;

verus! {

/// Of a million draws, those on which the simulated camera goes away for a
/// while: one in a thousand.
pub const CAMERA_AWAY_CHANCE: u32 = 1_000;

/// The bytes of a simulated frame: a hundred by a hundred pixels of three
/// bytes.
pub const FAKE_FRAME_BYTES: usize = 30_000;

/// A camera that exists in memory only. Its frames are black.
#[derive(Clone, Copy, Debug, PartialEq, Eq)]
pub struct DeviceCameraFake {}

/// The one frame that the simulated camera captures.
pub open spec fn black_frame() -> Seq<u8> {
    Seq::new(FAKE_FRAME_BYTES as nat, |i: int| 0u8)
}

impl DeviceCameraFake {
    pub fn new() -> (c: DeviceCameraFake) {
        DeviceCameraFake {  }
    }

    /// How the camera's script opens: the camera reports that it is there.
    pub fn events_opening(&self) -> (steps: Vec<ScriptStep<DeviceCameraEvent>>)
        ensures
            steps@ == seq![ScriptStep::Emit(DeviceCameraEvent::Connected)],
    {
        let steps = vec![ScriptStep::Emit(DeviceCameraEvent::Connected)];
        steps
    }

    /// One further round of the camera's script, for a given draw: five
    /// minutes pass, and on a draw below the camera's chance the camera then
    /// goes away for five seconds.
    pub fn events_round_for(&self, drawn: u32) -> (steps: Vec<ScriptStep<DeviceCameraEvent>>)
        ensures
            steps@ == round_script(
                drawn,
                CAMERA_AWAY_CHANCE,
                DeviceCameraEvent::Disconnected,
                DeviceCameraEvent::Connected,
            ),
    {
        play_round(drawn, CAMERA_AWAY_CHANCE, DeviceCameraEvent::Disconnected, DeviceCameraEvent::Connected)
    }

    /// One further round of the camera's script, for a fresh draw below a
    /// million: the camera goes away on one draw in a thousand.
    pub fn events_round(&self) -> (steps: Vec<ScriptStep<DeviceCameraEvent>>)
        ensures
            exists|drawn: u32|
                drawn < DRAWS && steps@ == round_script(
                    drawn,
                    CAMERA_AWAY_CHANCE,
                    DeviceCameraEvent::Disconnected,
                    DeviceCameraEvent::Connected,
                ),
    {
        random_round(DRAWS, CAMERA_AWAY_CHANCE, DeviceCameraEvent::Disconnected, DeviceCameraEvent::Connected)
    }
}

impl DeviceCamera for DeviceCameraFake {
    open spec fn never_fails(&self) -> bool {
        true
    }

    open spec fn can_start(&self, outcome: Result<(), Seq<char>>) -> bool {
        outcome is Ok
    }

    open spec fn can_stop(&self, outcome: Result<(), Seq<char>>) -> bool {
        outcome is Ok
    }

    open spec fn can_capture(&self, frames: Seq<Seq<u8>>) -> bool {
        frames == seq![black_frame()]
    }

    fn start(&self) -> (r: Result<(), DeviceError>) {
        Ok(())
    }

    fn stop(&self) -> (r: Result<(), DeviceError>) {
        Ok(())
    }

    fn capture_frame(&self) -> (r: Result<Vec<Frame>, DeviceError>) {
        let mut image: Vec<u8> = Vec::new();
        let mut i: usize = 0;
        while i < FAKE_FRAME_BYTES
            invariant
                i <= FAKE_FRAME_BYTES,
                image@.len() == i,
                forall|k: int| 0 <= k < i ==> image@[k] == 0u8,
            decreases FAKE_FRAME_BYTES - i,
        {
            image.push(0u8);
            i += 1;
        }
        assert(image.deep_view() =~= black_frame());
        let frames = vec![image];
        assert(frames.deep_view() =~= seq![black_frame()]);
        Ok(frames)
    }
}

} // verus!
