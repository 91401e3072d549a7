use crate::device_camera::interface::{DeviceCameraEvent, Frame};
use crate::device_door::interface::DeviceDoorEvent;
use crate::error::DeviceError;
use crate::image_classifier::interface::{Classification, ClassificationView};
use crate::time::Instant;
use vstd::prelude::*;

verus! {

/// Whether a device has reported that it is there.
#[derive(Clone, Copy, Debug, PartialEq, Eq, Structural)]
pub enum ModelDeviceConnection {
    Connecting,
    Connected,
}

/// The controller while it waits for its devices.
#[derive(Clone, Copy, Debug, PartialEq, Eq, Structural)]
pub struct ModelConnecting {
    pub camera: ModelDeviceConnection,
    pub door: ModelDeviceConnection,
}

/// Where the camera is in its capture cycle. `since` is the tick at which
/// the cycle began.
#[derive(Clone, Copy, Debug, PartialEq, Eq, Structural)]
pub enum ModelCameraState {
    Idle { since: Instant },
    Capturing { since: Instant },
    Classifying { since: Instant },
}

/// The camera's side of the controller: its place in the cycle, and what the
/// classifier said of the frames of the last finished cycle, frame by frame.
#[derive(Clone, Debug, PartialEq, Eq)]
pub struct ModelCamera {
    pub state: ModelCameraState,
    pub latest_classifications: Vec<Vec<Classification>>,
}

/// The door's side of the controller. The two `Will..` states hold an intent
/// that has not been sent to the door yet, and the instant it dates from.
#[derive(Clone, Copy, Debug, PartialEq, Eq, Structural)]
pub enum ModelDoor {
    Locked,
    WillUnlock { since: Instant },
    Unlocked,
    WillLock { since: Instant },
}

/// The controller while both devices are there.
#[derive(Clone, Debug, PartialEq, Eq)]
pub struct ModelReady {
    pub camera: ModelCamera,
    pub door: ModelDoor,
}

/// Everything the controller knows at one point in time.
#[derive(Clone, Debug, PartialEq, Eq)]
pub enum Model {
    Connecting(ModelConnecting),
    Ready(ModelReady),
}

/// What can happen to the controller. Time reaches it through `Tick` alone.
#[derive(Debug, PartialEq, Eq)]
pub enum Msg {
    Tick(Instant),
    CameraEvent(DeviceCameraEvent),
    DoorEvent(DeviceDoorEvent),
    DoorLockDone(Result<(), DeviceError>),
    DoorUnlockDone(Result<(), DeviceError>),
    FramesCaptureDone(Result<Vec<Frame>, DeviceError>),
    FramesClassifyDone(Result<Vec<Vec<Classification>>, DeviceError>),
}

/// What the controller asks its surroundings to do.
#[derive(Clone, Debug, PartialEq, Eq)]
pub enum Effect {
    SubscribeCamera,
    SubscribeDoor,
    SubscribeTick,
    CaptureFrames,
    ClassifyFrames { frames: Vec<Frame> },
    LockDoor,
    UnlockDoor,
}

/// The mathematical value of a `ModelCamera`.
pub struct ModelCameraView {
    pub state: ModelCameraState,
    pub latest_classifications: Seq<Seq<ClassificationView>>,
}

/// The mathematical value of a `ModelReady`.
pub struct ModelReadyView {
    pub camera: ModelCameraView,
    pub door: ModelDoor,
}

/// The mathematical value of a `Model`.
pub enum ModelView {
    Connecting(ModelConnecting),
    Ready(ModelReadyView),
}

/// The mathematical value of a `Msg`. An error is its message.
pub enum MsgView {
    Tick(Instant),
    CameraEvent(DeviceCameraEvent),
    DoorEvent(DeviceDoorEvent),
    DoorLockDone(Result<(), Seq<char>>),
    DoorUnlockDone(Result<(), Seq<char>>),
    FramesCaptureDone(Result<Seq<Seq<u8>>, Seq<char>>),
    FramesClassifyDone(Result<Seq<Seq<ClassificationView>>, Seq<char>>),
}

/// The mathematical value of an `Effect`.
pub enum EffectView {
    SubscribeCamera,
    SubscribeDoor,
    SubscribeTick,
    CaptureFrames,
    ClassifyFrames { frames: Seq<Seq<u8>> },
    LockDoor,
    UnlockDoor,
}

impl ModelCameraState {
    /// The instant that the state carries.
    pub open spec fn spec_since(&self) -> Instant {
        match *self {
            ModelCameraState::Idle { since } => since,
            ModelCameraState::Capturing { since } => since,
            ModelCameraState::Classifying { since } => since,
        }
    }

    #[verifier::when_used_as_spec(spec_since)]
    pub fn since(&self) -> (t: Instant)
        ensures
            t == self.spec_since(),
    {
        match *self {
            ModelCameraState::Idle { since } => since,
            ModelCameraState::Capturing { since } => since,
            ModelCameraState::Classifying { since } => since,
        }
    }
}

impl View for ModelCamera {
    type V = ModelCameraView;

    open spec fn view(&self) -> ModelCameraView {
        ModelCameraView {
            state: self.state,
            latest_classifications: self.latest_classifications.deep_view(),
        }
    }
}

impl View for ModelReady {
    type V = ModelReadyView;

    open spec fn view(&self) -> ModelReadyView {
        ModelReadyView { camera: self.camera@, door: self.door }
    }
}

impl View for Model {
    type V = ModelView;

    open spec fn view(&self) -> ModelView {
        match *self {
            Model::Connecting(m) => ModelView::Connecting(m),
            Model::Ready(m) => ModelView::Ready(m@),
        }
    }
}

/// The value of the outcome of a door command.
pub open spec fn door_result_view(r: Result<(), DeviceError>) -> Result<(), Seq<char>> {
    match r {
        Ok(_) => Ok(()),
        Err(e) => Err(e@),
    }
}

/// The value of the outcome of a capture.
pub open spec fn capture_result_view(r: Result<Vec<Frame>, DeviceError>) -> Result<
    Seq<Seq<u8>>,
    Seq<char>,
> {
    match r {
        Ok(frames) => Ok(frames.deep_view()),
        Err(e) => Err(e@),
    }
}

/// The value of the outcome of a classification.
pub open spec fn classify_result_view(r: Result<Vec<Vec<Classification>>, DeviceError>) -> Result<
    Seq<Seq<ClassificationView>>,
    Seq<char>,
> {
    match r {
        Ok(cs) => Ok(cs.deep_view()),
        Err(e) => Err(e@),
    }
}

impl View for Msg {
    type V = MsgView;

    open spec fn view(&self) -> MsgView {
        match *self {
            Msg::Tick(now) => MsgView::Tick(now),
            Msg::CameraEvent(e) => MsgView::CameraEvent(e),
            Msg::DoorEvent(e) => MsgView::DoorEvent(e),
            Msg::DoorLockDone(r) => MsgView::DoorLockDone(door_result_view(r)),
            Msg::DoorUnlockDone(r) => MsgView::DoorUnlockDone(door_result_view(r)),
            Msg::FramesCaptureDone(r) => MsgView::FramesCaptureDone(capture_result_view(r)),
            Msg::FramesClassifyDone(r) => MsgView::FramesClassifyDone(classify_result_view(r)),
        }
    }
}

impl DeepView for Msg {
    type V = MsgView;

    open spec fn deep_view(&self) -> MsgView {
        self@
    }
}

impl View for Effect {
    type V = EffectView;

    open spec fn view(&self) -> EffectView {
        match *self {
            Effect::SubscribeCamera => EffectView::SubscribeCamera,
            Effect::SubscribeDoor => EffectView::SubscribeDoor,
            Effect::SubscribeTick => EffectView::SubscribeTick,
            Effect::CaptureFrames => EffectView::CaptureFrames,
            Effect::ClassifyFrames { frames } => EffectView::ClassifyFrames {
                frames: frames.deep_view(),
            },
            Effect::LockDoor => EffectView::LockDoor,
            Effect::UnlockDoor => EffectView::UnlockDoor,
        }
    }
}

/// An effect as the log shows it: its name, with the frames left out.
pub open spec fn effect_text(effect: EffectView) -> Seq<char> {
    match effect {
        EffectView::SubscribeCamera => "SubscribeCamera"@,
        EffectView::SubscribeDoor => "SubscribeDoor"@,
        EffectView::SubscribeTick => "SubscribeTick"@,
        EffectView::CaptureFrames => "CaptureFrames"@,
        EffectView::ClassifyFrames { .. } => "ClassifyFrames { frames: [] }"@,
        EffectView::LockDoor => "LockDoor"@,
        EffectView::UnlockDoor => "UnlockDoor"@,
    }
}

impl Effect {
    /// The effect as the log shows it: its name, with the frames left out.
    pub fn to_display_string(&self) -> (text: String)
        ensures
            text@ == effect_text(self@),
    {
        match self {
            Effect::SubscribeCamera => "SubscribeCamera".to_owned(),
            Effect::SubscribeDoor => "SubscribeDoor".to_owned(),
            Effect::SubscribeTick => "SubscribeTick".to_owned(),
            Effect::CaptureFrames => "CaptureFrames".to_owned(),
            Effect::ClassifyFrames { .. } => "ClassifyFrames { frames: [] }".to_owned(),
            Effect::LockDoor => "LockDoor".to_owned(),
            Effect::UnlockDoor => "UnlockDoor".to_owned(),
        }
    }
}

impl DeepView for Effect {
    type V = EffectView;

    open spec fn deep_view(&self) -> EffectView {
        self@
    }
}

/// The camera as the controller first sees it: idle since the clock's origin,
/// with no classifications.
pub open spec fn camera_at_start() -> ModelCameraView {
    ModelCameraView {
        state: ModelCameraState::Idle { since: Instant { nanos: 0 } },
        latest_classifications: Seq::empty(),
    }
}

/// The controller at the moment both devices are there: the camera idle, the
/// door locked.
pub open spec fn ready_at_start() -> ModelReadyView {
    ModelReadyView { camera: camera_at_start(), door: ModelDoor::Locked }
}

/// The controller at boot: both devices still to come.
pub open spec fn model_at_boot() -> ModelView {
    ModelView::Connecting(
        ModelConnecting {
            camera: ModelDeviceConnection::Connecting,
            door: ModelDeviceConnection::Connecting,
        },
    )
}

impl Default for ModelDeviceConnection {
    fn default() -> (c: ModelDeviceConnection)
        ensures
            c == ModelDeviceConnection::Connecting,
    {
        ModelDeviceConnection::Connecting
    }
}

impl Default for ModelConnecting {
    fn default() -> (m: ModelConnecting)
        ensures
            m.camera == ModelDeviceConnection::Connecting,
            m.door == ModelDeviceConnection::Connecting,
    {
        ModelConnecting {
            camera: ModelDeviceConnection::Connecting,
            door: ModelDeviceConnection::Connecting,
        }
    }
}

impl Default for ModelCameraState {
    fn default() -> (s: ModelCameraState)
        ensures
            s == (ModelCameraState::Idle { since: Instant { nanos: 0 } }),
    {
        ModelCameraState::Idle { since: Instant::origin() }
    }
}

impl Default for ModelCamera {
    fn default() -> (c: ModelCamera)
        ensures
            c@ == camera_at_start(),
    {
        let c = ModelCamera {
            state: ModelCameraState::Idle { since: Instant::origin() },
            latest_classifications: Vec::new(),
        };
        assert(c@.latest_classifications =~= Seq::empty());
        c
    }
}

impl Default for ModelDoor {
    fn default() -> (d: ModelDoor)
        ensures
            d == ModelDoor::Locked,
    {
        ModelDoor::Locked
    }
}

impl Default for ModelReady {
    fn default() -> (m: ModelReady)
        ensures
            m@ == ready_at_start(),
    {
        ModelReady { camera: ModelCamera::default(), door: ModelDoor::Locked }
    }
}

impl Default for Model {
    fn default() -> (m: Model)
        ensures
            m@ == model_at_boot(),
    {
        Model::Connecting(ModelConnecting::default())
    }
}

} // verus!
