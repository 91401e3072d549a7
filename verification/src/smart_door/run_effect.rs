use crate::device_camera::interface::{DeviceCamera, Frame};
use crate::device_door::interface::DeviceDoor;
use crate::image_classifier::interface::{all_valid, ImageClassifier};
use crate::smart_door::model::{Effect, EffectView, Msg, MsgView};
use vstd::prelude::*;

verus! {

/// The devices that effects are run against.
pub struct RunEffect<C: DeviceCamera, D: DeviceDoor, K: ImageClassifier> {
    pub device_camera: C,
    pub device_door: D,
    pub image_classifier: K,
}

/// The message answers the effect: a capture is answered by the end of a
/// capture, a classification by the end of a classification, a door command
/// by the end of that command. A subscription is answered by no message of
/// its own: it goes on for as long as the controller runs.
pub open spec fn answers(effect: EffectView, msg: Option<MsgView>) -> bool {
    match effect {
        EffectView::SubscribeCamera => msg is None,
        EffectView::SubscribeDoor => msg is None,
        EffectView::SubscribeTick => msg is None,
        EffectView::CaptureFrames => msg is Some && msg->Some_0 is FramesCaptureDone,
        EffectView::ClassifyFrames { .. } => msg is Some && msg->Some_0 is FramesClassifyDone,
        EffectView::LockDoor => msg is Some && msg->Some_0 is DoorLockDone,
        EffectView::UnlockDoor => msg is Some && msg->Some_0 is DoorUnlockDone,
    }
}

/// The message tells of a success.
pub open spec fn tells_success(msg: MsgView) -> bool {
    match msg {
        MsgView::DoorLockDone(r) => r is Ok,
        MsgView::DoorUnlockDone(r) => r is Ok,
        MsgView::FramesCaptureDone(r) => r is Ok,
        MsgView::FramesClassifyDone(r) => r is Ok,
        _ => true,
    }
}

/// Captures, and words the outcome as a message.
pub fn run_capture_frames<C: DeviceCamera>(camera: &C) -> (msg: Msg)
    ensures
        msg@ is FramesCaptureDone,
        camera.never_fails() ==> tells_success(msg@),
        tells_success(msg@) ==> camera.can_capture(msg@->FramesCaptureDone_0->Ok_0),
{
    Msg::FramesCaptureDone(camera.capture_frame())
}

/// Has the frames classified, and words the outcome as a message. A
/// success holds one list of findings for each frame.
pub fn run_classify_frames<K: ImageClassifier>(classifier: &mut K, frames: &Vec<Frame>) -> (msg:
    Msg)
    ensures
        msg@ is FramesClassifyDone,
        old(classifier).never_fails() ==> tells_success(msg@),
        tells_success(msg@) ==> msg@->FramesClassifyDone_0->Ok_0.len() == frames@.len()
            && all_valid(msg@->FramesClassifyDone_0->Ok_0) && old(classifier).can_find(
            frames.deep_view(),
            msg@->FramesClassifyDone_0->Ok_0,
        ),
        final(classifier).never_fails() == old(classifier).never_fails(),
{
    Msg::FramesClassifyDone(classifier.classify(frames))
}

/// Has the door locked, and words the outcome as a message. After a
/// success the door is held.
pub fn run_lock_door<D: DeviceDoor>(door: &mut D) -> (msg: Msg)
    ensures
        msg@ is DoorLockDone,
        old(door).never_fails() ==> tells_success(msg@),
        tells_success(msg@) ==> final(door).locked(),
        final(door).never_fails() == old(door).never_fails(),
{
    Msg::DoorLockDone(door.lock())
}

/// Has the door unlocked, and words the outcome as a message. After a
/// success the door is let go.
pub fn run_unlock_door<D: DeviceDoor>(door: &mut D) -> (msg: Msg)
    ensures
        msg@ is DoorUnlockDone,
        old(door).never_fails() ==> tells_success(msg@),
        tells_success(msg@) ==> !final(door).locked(),
        final(door).never_fails() == old(door).never_fails(),
{
    Msg::DoorUnlockDone(door.unlock())
}

impl<C: DeviceCamera, D: DeviceDoor, K: ImageClassifier> RunEffect<C, D, K> {
    /// No device of the three ever fails.
    pub open spec fn never_fails(&self) -> bool {
        self.device_camera.never_fails() && self.device_door.never_fails()
            && self.image_classifier.never_fails()
    }

    pub fn new(device_camera: C, device_door: D, image_classifier: K) -> (r: RunEffect<C, D, K>)
        ensures
            r.device_camera == device_camera,
            r.device_door == device_door,
            r.image_classifier == image_classifier,
    {
        RunEffect { device_camera, device_door, image_classifier }
    }

    /// Runs one effect against the devices, and gives the message that
    /// answers it. A failure of a device comes back as a message like a
    /// success. A device that the effect is not about stays as it is. A
    /// subscription is not run here: it has no end, and whoever drives the
    /// controller keeps it going.
    pub fn run_effect(&mut self, effect: Effect) -> (msg: Option<Msg>)
        ensures
            answers(
                effect@,
                match msg {
                    Some(m) => Some(m@),
                    None => None,
                },
            ),
            old(self).never_fails() && msg is Some ==> tells_success(msg->Some_0@),
            final(self).never_fails() == old(self).never_fails(),
            final(self).device_camera == old(self).device_camera,
            !(effect@ is LockDoor || effect@ is UnlockDoor) ==> final(self).device_door == old(
                self,
            ).device_door,
            !(effect@ is ClassifyFrames) ==> final(self).image_classifier == old(
                self,
            ).image_classifier,
            effect@ is LockDoor && tells_success(msg->Some_0@) ==> final(self).device_door.locked(),
            effect@ is UnlockDoor && tells_success(msg->Some_0@) ==> !final(self).device_door.locked(),
            effect@ is ClassifyFrames && tells_success(msg->Some_0@) ==> {
                &&& msg->Some_0@->FramesClassifyDone_0->Ok_0.len()
                    == effect@->ClassifyFrames_frames.len()
                &&& old(self).image_classifier.can_find(
                    effect@->ClassifyFrames_frames,
                    msg->Some_0@->FramesClassifyDone_0->Ok_0,
                )
            },
            effect@ is CaptureFrames && tells_success(msg->Some_0@) ==> old(
                self,
            ).device_camera.can_capture(msg->Some_0@->FramesCaptureDone_0->Ok_0),
    {
        match effect {
            Effect::SubscribeCamera => None,
            Effect::SubscribeDoor => None,
            Effect::SubscribeTick => None,
            Effect::CaptureFrames => Some(run_capture_frames(&self.device_camera)),
            Effect::ClassifyFrames { frames } => Some(
                run_classify_frames(&mut self.image_classifier, &frames),
            ),
            Effect::LockDoor => Some(run_lock_door(&mut self.device_door)),
            Effect::UnlockDoor => Some(run_unlock_door(&mut self.device_door)),
        }
    }
}

} // verus!
