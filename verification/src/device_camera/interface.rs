use crate::error::{outcome_view, DeviceError};
use vstd::prelude::*;

verus! {

/// One captured image: bytes that only the camera and the classifier read.
pub type Frame = Vec<u8>;

/// What a camera reports of its link to the controller.
#[derive(Clone, Copy, Debug, PartialEq, Eq, Structural)]
pub enum DeviceCameraEvent {
    Disconnected,
    Connected,
}

/// A camera, or several that are used as one.
pub trait DeviceCamera {
    /// The camera carries out every call. It holds of a camera in memory,
    /// and of no hardware.
    spec fn never_fails(&self) -> bool;

    /// The frames are a capture that this camera can come back with.
    spec fn can_capture(&self, frames: Seq<Seq<u8>>) -> bool;

    /// The outcome is one that starting this camera can come to.
    spec fn can_start(&self, outcome: Result<(), Seq<char>>) -> bool;

    /// The outcome is one that stopping this camera can come to.
    spec fn can_stop(&self, outcome: Result<(), Seq<char>>) -> bool;

    /// Makes the camera ready to capture.
    fn start(&self) -> (r: Result<(), DeviceError>)
        ensures
            self.never_fails() ==> r is Ok,
            self.can_start(outcome_view(r)),
    ;

    /// Lets the camera rest.
    fn stop(&self) -> (r: Result<(), DeviceError>)
        ensures
            self.never_fails() ==> r is Ok,
            self.can_stop(outcome_view(r)),
    ;

    /// Captures what the camera sees now: no frame, one, or several.
    fn capture_frame(&self) -> (r: Result<Vec<Frame>, DeviceError>)
        ensures
            self.never_fails() ==> r is Ok,
            r is Ok ==> self.can_capture(r->Ok_0.deep_view()),
    ;
}

} // verus!
