use crate::device_camera::interface::{DeviceCamera, DeviceCameraEvent, Frame};
use crate::error::DeviceError;
use vstd::prelude::*;

verus! {

/// Several cameras that are used as one. They count as connected once
/// each of them has reported that it is there, and as disconnected once none
/// of them is left.
pub struct MultiDeviceCamera<C: DeviceCamera> {
    cameras: Vec<C>,
    connected_count: usize,
}

/// The count of connected cameras after an event of one of them.
pub open spec fn count_after(count: nat, event: DeviceCameraEvent) -> nat {
    match event {
        DeviceCameraEvent::Connected => count + 1,
        DeviceCameraEvent::Disconnected => if count > 0 {
            (count - 1) as nat
        } else {
            0
        },
    }
}

/// What the cameras as one report on an event of one of them: that they
/// are there when the count reaches their number, that they are gone when
/// it reaches zero, else nothing.
pub open spec fn report_after(cameras: nat, count: nat, event: DeviceCameraEvent) -> Option<
    DeviceCameraEvent,
> {
    match event {
        DeviceCameraEvent::Connected => if count + 1 == cameras {
            Some(DeviceCameraEvent::Connected)
        } else {
            None
        },
        DeviceCameraEvent::Disconnected => if count <= 1 {
            Some(DeviceCameraEvent::Disconnected)
        } else {
            None
        },
    }
}

/// The frames captured so far with those of one more camera behind them, or
/// the error of that camera.
pub fn gather_frames(so_far: Vec<Frame>, captured: Result<Vec<Frame>, DeviceError>) -> (r: Result<
    Vec<Frame>,
    DeviceError,
>)
    ensures
        captured is Ok ==> r is Ok && r->Ok_0.deep_view() == so_far.deep_view()
            + captured->Ok_0.deep_view(),
        captured is Err ==> r is Err && r->Err_0 == captured->Err_0,
{
    match captured {
        Ok(frames) => {
            let mut all = so_far;
            let mut more = frames;
            all.append(&mut more);
            Ok(all)
        },
        Err(e) => Err(e),
    }
}

impl<C: DeviceCamera> MultiDeviceCamera<C> {
    /// The cameras, in their order.
    pub closed spec fn devices(&self) -> Seq<C> {
        self.cameras@
    }

    /// The number of cameras.
    pub open spec fn cameras(&self) -> nat {
        self.devices().len()
    }

    /// How many cameras have reported that they are there and not, since,
    /// that they are gone.
    pub closed spec fn connected_count(&self) -> nat {
        self.connected_count as nat
    }

    /// The given cameras as one, none of them connected yet.
    pub fn new(cameras: Vec<C>) -> (m: MultiDeviceCamera<C>)
        ensures
            m.devices() == cameras@,
            m.connected_count() == 0,
    {
        MultiDeviceCamera { cameras, connected_count: 0 }
    }

    /// How many cameras have reported that they are there and not, since,
    /// that they are gone.
    pub fn connected(&self) -> (count: usize)
        ensures
            count == self.connected_count(),
    {
        self.connected_count
    }

    /// Takes in an event of one of the cameras, and tells what the cameras
    /// as one report on it.
    pub fn on_event(&mut self, event: DeviceCameraEvent) -> (report: Option<DeviceCameraEvent>)
        requires
            old(self).connected_count() < usize::MAX,
        ensures
            final(self).connected_count() == count_after(old(self).connected_count(), event),
            report == report_after(old(self).cameras(), old(self).connected_count(), event),
            final(self).devices() == old(self).devices(),
    {
        match event {
            DeviceCameraEvent::Connected => {
                self.connected_count = self.connected_count + 1;
                if self.connected_count == self.cameras.len() {
                    Some(DeviceCameraEvent::Connected)
                } else {
                    None
                }
            },
            DeviceCameraEvent::Disconnected => {
                if self.connected_count > 0 {
                    self.connected_count = self.connected_count - 1;
                }
                if self.connected_count == 0 {
                    Some(DeviceCameraEvent::Disconnected)
                } else {
                    None
                }
            },
        }
    }
}

impl<C: DeviceCamera> DeviceCamera for MultiDeviceCamera<C> {
    open spec fn never_fails(&self) -> bool {
        forall|i: int|
            0 <= i < self.devices().len() ==> (#[trigger] self.devices()[i]).never_fails()
    }

    /// The frames are captures of the cameras, one behind the other in the
    /// order of the cameras.
    open spec fn can_capture(&self, frames: Seq<Seq<u8>>) -> bool {
        exists|parts: Seq<Seq<Seq<u8>>>|
            parts.len() == self.devices().len() && (forall|i: int|
                0 <= i < parts.len() ==> self.devices()[i].can_capture(#[trigger] parts[i]))
                && frames == parts.flatten()
    }

    /// Starting comes to nothing gone wrong where each camera can start,
    /// and to an error where some camera can fail with it and each camera
    /// before that one can start.
    open spec fn can_start(&self, outcome: Result<(), Seq<char>>) -> bool {
        match outcome {
            Ok(_) => forall|i: int|
                0 <= i < self.devices().len() ==> (#[trigger] self.devices()[i]).can_start(Ok(())),
            Err(e) => exists|i: int|
                0 <= i < self.devices().len() && (#[trigger] self.devices()[i]).can_start(Err(e))
                    && forall|k: int|
                    0 <= k < i ==> (#[trigger] self.devices()[k]).can_start(Ok(())),
        }
    }

    /// Stopping comes to nothing gone wrong where each camera can stop, and
    /// to an error where some camera can fail with it and each camera before
    /// that one can stop.
    open spec fn can_stop(&self, outcome: Result<(), Seq<char>>) -> bool {
        match outcome {
            Ok(_) => forall|i: int|
                0 <= i < self.devices().len() ==> (#[trigger] self.devices()[i]).can_stop(Ok(())),
            Err(e) => exists|i: int|
                0 <= i < self.devices().len() && (#[trigger] self.devices()[i]).can_stop(Err(e))
                    && forall|k: int|
                    0 <= k < i ==> (#[trigger] self.devices()[k]).can_stop(Ok(())),
        }
    }

    /// Starts the cameras in order, up to the first that fails: its error
    /// comes back, and the cameras behind it are not started.
    fn start(&self) -> (r: Result<(), DeviceError>)
        ensures
            self.cameras() == 0 ==> r is Ok,
    {
        let mut i: usize = 0;
        while i < self.cameras.len()
            invariant
                i <= self.cameras@.len(),
                self.devices() == self.cameras@,
                forall|k: int| 0 <= k < i ==> (#[trigger] self.devices()[k]).can_start(Ok(())),
            decreases self.cameras@.len() - i,
        {
            match self.cameras[i].start() {
                Ok(_) => {},
                Err(e) => {
                    assert(self.devices()[i as int].can_start(Err(e@)));
                    return Err(e);
                },
            }
            i += 1;
        }
        Ok(())
    }

    /// Stops the cameras in order, up to the first that fails: its error
    /// comes back, and the cameras behind it are not stopped.
    fn stop(&self) -> (r: Result<(), DeviceError>)
        ensures
            self.cameras() == 0 ==> r is Ok,
    {
        let mut i: usize = 0;
        while i < self.cameras.len()
            invariant
                i <= self.cameras@.len(),
                self.devices() == self.cameras@,
                forall|k: int| 0 <= k < i ==> (#[trigger] self.devices()[k]).can_stop(Ok(())),
            decreases self.cameras@.len() - i,
        {
            match self.cameras[i].stop() {
                Ok(_) => {},
                Err(e) => {
                    assert(self.devices()[i as int].can_stop(Err(e@)));
                    return Err(e);
                },
            }
            i += 1;
        }
        Ok(())
    }

    /// The frames of all cameras, in the order of the cameras, or the error
    /// of the first camera that fails.
    fn capture_frame(&self) -> (r: Result<Vec<Frame>, DeviceError>)
        ensures
            self.cameras() == 0 ==> r is Ok,
    {
        let mut frames: Vec<Frame> = Vec::new();
        let ghost mut parts: Seq<Seq<Seq<u8>>> = Seq::empty();
        let mut i: usize = 0;
        while i < self.cameras.len()
            invariant
                i <= self.cameras@.len(),
                parts.len() == i,
                forall|k: int| 0 <= k < i ==> self.cameras@[k].can_capture(#[trigger] parts[k]),
                frames.deep_view() == parts.flatten(),
            decreases self.cameras@.len() - i,
        {
            assert(self.devices()[i as int] == self.cameras@[i as int]);
            let captured = self.cameras[i].capture_frame();
            let ghost so_far = frames.deep_view();
            match gather_frames(frames, captured) {
                Ok(all) => {
                    proof {
                        let part = captured->Ok_0.deep_view();
                        Seq::lemma_flatten_push(parts, part);
                        parts = parts.push(part);
                    }
                    frames = all;
                },
                Err(e) => {
                    return Err(e);
                },
            }
            i += 1;
        }
        Ok(frames)
    }
}

} // verus!
