use crate::config::{Config, ConfigView};
use crate::device_camera::interface::DeviceCameraEvent;
use crate::device_door::interface::DeviceDoorEvent;
use crate::smart_door::detection::{detection, to_detection, Detection};
use crate::smart_door::model::{
    model_at_boot, ready_at_start, Effect, EffectView, Model, ModelCamera, ModelCameraState,
    ModelCameraView, ModelConnecting, ModelDeviceConnection, ModelDoor, ModelReady,
    ModelReadyView, ModelView, Msg, MsgView,
};
use crate::time::{elapsed, Instant};
use vstd::prelude::*;

verus! {

/// A model together with the effects that the step to it asks for.
pub type Step = (ModelView, Seq<EffectView>);

/// The effects that the controller asks for at boot: the three
/// subscriptions that feed it for as long as it runs.
pub open spec fn effects_at_boot() -> Seq<EffectView> {
    seq![EffectView::SubscribeCamera, EffectView::SubscribeDoor, EffectView::SubscribeTick]
}

/// The camera's link after a message.
pub open spec fn camera_link_after(
    link: ModelDeviceConnection,
    msg: MsgView,
) -> ModelDeviceConnection {
    match msg {
        MsgView::CameraEvent(DeviceCameraEvent::Connected) => ModelDeviceConnection::Connected,
        MsgView::CameraEvent(DeviceCameraEvent::Disconnected) => ModelDeviceConnection::Connecting,
        _ => link,
    }
}

/// The door's link after a message.
pub open spec fn door_link_after(link: ModelDeviceConnection, msg: MsgView) -> ModelDeviceConnection {
    match msg {
        MsgView::DoorEvent(DeviceDoorEvent::Connected) => ModelDeviceConnection::Connected,
        MsgView::DoorEvent(DeviceDoorEvent::Disconnected) => ModelDeviceConnection::Connecting,
        _ => link,
    }
}

/// Both devices are there.
pub open spec fn all_connected(model: ModelConnecting) -> bool {
    model.camera == ModelDeviceConnection::Connected && model.door
        == ModelDeviceConnection::Connected
}

/// One step of the controller while it waits for its devices. It asks for
/// nothing, and becomes ready once both devices are there.
pub open spec fn step_connecting(model: ModelConnecting, msg: MsgView) -> Step {
    let next = ModelConnecting {
        camera: camera_link_after(model.camera, msg),
        door: door_link_after(model.door, msg),
    };
    if all_connected(next) {
        (ModelView::Ready(ready_at_start()), Seq::empty())
    } else {
        (ModelView::Connecting(next), Seq::empty())
    }
}

/// One step of the camera's capture cycle.
pub open spec fn step_camera(config: ConfigView, camera: ModelCameraView, msg: MsgView) -> (
    ModelCameraView,
    Seq<EffectView>,
) {
    match (camera.state, msg) {
        (ModelCameraState::Idle { since }, MsgView::Tick(now)) => {
            if elapsed(now, since) >= config.camera_process_rate {
                (
                    ModelCameraView { state: ModelCameraState::Capturing { since: now }, ..camera },
                    seq![EffectView::CaptureFrames],
                )
            } else {
                (camera, Seq::empty())
            }
        },
        (ModelCameraState::Capturing { since }, MsgView::FramesCaptureDone(Ok(frames))) => {
            if frames.len() == 0 {
                (
                    ModelCameraView { state: ModelCameraState::Idle { since }, ..camera },
                    Seq::empty(),
                )
            } else {
                (
                    ModelCameraView { state: ModelCameraState::Classifying { since }, ..camera },
                    seq![EffectView::ClassifyFrames { frames }],
                )
            }
        },
        (ModelCameraState::Capturing { since }, MsgView::FramesCaptureDone(Err(_))) => (
            ModelCameraView { state: ModelCameraState::Idle { since }, ..camera },
            Seq::empty(),
        ),
        (ModelCameraState::Classifying { since }, MsgView::FramesClassifyDone(Ok(found))) => (
            ModelCameraView {
                state: ModelCameraState::Idle { since },
                latest_classifications: found,
            },
            Seq::empty(),
        ),
        (ModelCameraState::Classifying { since }, MsgView::FramesClassifyDone(Err(_))) => (
            ModelCameraView { state: ModelCameraState::Idle { since }, ..camera },
            Seq::empty(),
        ),
        _ => (camera, Seq::empty()),
    }
}

/// What a change of the detection does to the door. An intent that it
/// raises is dated `now`. An animal of the lock list that turns up while an
/// unlock is pending calls the unlock off and has the lock commanded again.
pub open spec fn step_door_on_detection_change(
    door: ModelDoor,
    before: Detection,
    after: Detection,
    now: Instant,
) -> (ModelDoor, Seq<EffectView>) {
    if before == after {
        (door, Seq::empty())
    } else {
        match (door, after) {
            (ModelDoor::Locked, Detection::Dog) => (
                ModelDoor::WillUnlock { since: now },
                Seq::empty(),
            ),
            (ModelDoor::WillUnlock { .. }, Detection::Cat) => (
                ModelDoor::Locked,
                seq![EffectView::LockDoor],
            ),
            (ModelDoor::Unlocked, Detection::Nothing) => (
                ModelDoor::WillLock { since: now },
                Seq::empty(),
            ),
            (ModelDoor::Unlocked, Detection::Cat) => (
                ModelDoor::WillLock { since: now },
                Seq::empty(),
            ),
            _ => (door, Seq::empty()),
        }
    }
}

/// What a tick or the end of a door command does to the door. An intent
/// that has lasted its least duration is sent to the door on a tick. A
/// command that failed leaves the intent as it is, for the next tick.
pub open spec fn step_door_on_tick(config: ConfigView, door: ModelDoor, msg: MsgView) -> (
    ModelDoor,
    Seq<EffectView>,
) {
    match (door, msg) {
        (ModelDoor::WillUnlock { since }, MsgView::Tick(now)) => {
            if elapsed(now, since) >= config.min_duration_will_unlock {
                (ModelDoor::Unlocked, seq![EffectView::UnlockDoor])
            } else {
                (door, Seq::empty())
            }
        },
        (ModelDoor::WillLock { since }, MsgView::Tick(now)) => {
            if elapsed(now, since) >= config.min_duration_will_lock {
                (ModelDoor::Locked, seq![EffectView::LockDoor])
            } else {
                (door, Seq::empty())
            }
        },
        (ModelDoor::WillUnlock { .. }, MsgView::DoorUnlockDone(Ok(_))) => (
            ModelDoor::Unlocked,
            Seq::empty(),
        ),
        (ModelDoor::WillLock { .. }, MsgView::DoorLockDone(Ok(_))) => (
            ModelDoor::Locked,
            Seq::empty(),
        ),
        _ => (door, Seq::empty()),
    }
}

/// One step of the ready controller on a message that is no disconnect:
/// the camera steps, then the door answers a change of the detection, dated
/// from the start of the capture cycle, then the door answers the message.
/// The effects stand in that order.
pub open spec fn step_ready_main(config: ConfigView, model: ModelReadyView, msg: MsgView) -> (
    ModelReadyView,
    Seq<EffectView>,
) {
    let (camera, camera_effects) = step_camera(config, model.camera, msg);
    let before = detection(config, model.camera.latest_classifications);
    let after = detection(config, camera.latest_classifications);
    let (door_seen, seen_effects) = step_door_on_detection_change(
        model.door,
        before,
        after,
        camera.state.spec_since(),
    );
    let (door, door_effects) = step_door_on_tick(config, door_seen, msg);
    (ModelReadyView { camera, door }, camera_effects + seen_effects + door_effects)
}

/// One step of the ready controller. A device that goes back to waiting
/// takes the controller with it, the other device kept as connected.
pub open spec fn step_ready(config: ConfigView, model: ModelReadyView, msg: MsgView) -> Step {
    match msg {
        MsgView::CameraEvent(DeviceCameraEvent::Disconnected) => (
            ModelView::Connecting(
                ModelConnecting {
                    camera: ModelDeviceConnection::Connecting,
                    door: ModelDeviceConnection::Connected,
                },
            ),
            Seq::empty(),
        ),
        MsgView::DoorEvent(DeviceDoorEvent::Disconnected) => (
            ModelView::Connecting(
                ModelConnecting {
                    camera: ModelDeviceConnection::Connected,
                    door: ModelDeviceConnection::Connecting,
                },
            ),
            Seq::empty(),
        ),
        _ => {
            let (next, effects) = step_ready_main(config, model, msg);
            (ModelView::Ready(next), effects)
        },
    }
}

/// One step of the controller: the model and the effects that a message
/// leads to. It is defined for every model and every message.
pub open spec fn step(config: ConfigView, model: ModelView, msg: MsgView) -> Step {
    match model {
        ModelView::Connecting(m) => step_connecting(m, msg),
        ModelView::Ready(m) => step_ready(config, m, msg),
    }
}

/// `outcome` is what a step from `model` on `msg` comes to: its model and
/// its effects have the values that `step` gives for the values of the
/// three arguments.
pub open spec fn is_outcome(config: Config, model: Model, msg: Msg, outcome: (Model, Vec<Effect>)) -> bool {
    &&& outcome.0@ == step(config@, model@, msg@).0
    &&& outcome.1.deep_view() == step(config@, model@, msg@).1
}

/// The controller at boot, and the subscriptions it asks for.
pub fn init() -> (r: (Model, Vec<Effect>))
    ensures
        r.0@ == model_at_boot(),
        r.1.deep_view() == effects_at_boot(),
{
    let effects = vec![Effect::SubscribeCamera, Effect::SubscribeDoor, Effect::SubscribeTick];
    (Model::default(), effects)
}

/// Both devices are there.
pub fn is_all_devices_connected(model: &ModelConnecting) -> (r: bool)
    ensures
        r == all_connected(*model),
{
    model.camera == ModelDeviceConnection::Connected && model.door
        == ModelDeviceConnection::Connected
}

/// The camera's link after a message.
pub fn transition_connecting_camera(model: ModelDeviceConnection, msg: &Msg) -> (r:
    ModelDeviceConnection)
    ensures
        r == camera_link_after(model, msg@),
{
    match msg {
        Msg::CameraEvent(DeviceCameraEvent::Connected) => ModelDeviceConnection::Connected,
        Msg::CameraEvent(DeviceCameraEvent::Disconnected) => ModelDeviceConnection::Connecting,
        _ => model,
    }
}

/// The door's link after a message.
pub fn transition_connecting_door(model: ModelDeviceConnection, msg: &Msg) -> (r:
    ModelDeviceConnection)
    ensures
        r == door_link_after(model, msg@),
{
    match msg {
        Msg::DoorEvent(DeviceDoorEvent::Connected) => ModelDeviceConnection::Connected,
        Msg::DoorEvent(DeviceDoorEvent::Disconnected) => ModelDeviceConnection::Connecting,
        _ => model,
    }
}

/// One step of the controller while it waits for its devices.
pub fn transition_connecting(_config: &Config, model: ModelConnecting, msg: Msg) -> (r: (
    Model,
    Vec<Effect>,
))
    ensures
        r.0@ == step_connecting(model, msg@).0,
        r.1.deep_view() == step_connecting(model, msg@).1,
{
    let next = ModelConnecting {
        camera: transition_connecting_camera(model.camera, &msg),
        door: transition_connecting_door(model.door, &msg),
    };
    if is_all_devices_connected(&next) {
        (Model::Ready(ModelReady::default()), no_effects())
    } else {
        (Model::Connecting(next), no_effects())
    }
}

/// No effects.
fn no_effects() -> (effects: Vec<Effect>)
    ensures
        effects.deep_view() == Seq::<EffectView>::empty(),
{
    let effects: Vec<Effect> = Vec::new();
    effects
}

/// One effect.
fn one_effect(effect: Effect) -> (effects: Vec<Effect>)
    ensures
        effects.deep_view() == seq![effect@],
{
    let effects = vec![effect];
    effects
}

/// The effects of `first`, then those of `then`.
fn effects_in_order(first: Vec<Effect>, then: Vec<Effect>) -> (effects: Vec<Effect>)
    ensures
        effects.deep_view() == first.deep_view() + then.deep_view(),
{
    let mut effects = first;
    let mut rest = then;
    effects.append(&mut rest);
    effects
}

/// One step of the camera's capture cycle.
pub fn transition_ready_camera(config: &Config, model: ModelCamera, msg: Msg) -> (r: (
    ModelCamera,
    Vec<Effect>,
))
    ensures
        r.0@ == step_camera(config@, model@, msg@).0,
        r.1.deep_view() == step_camera(config@, model@, msg@).1,
{
    let ModelCamera { state, latest_classifications } = model;
    match (state, msg) {
        (ModelCameraState::Idle { since }, Msg::Tick(now)) => {
            if now.duration_since(since).nanos >= config.camera_process_rate.nanos {
                (
                    ModelCamera {
                        state: ModelCameraState::Capturing { since: now },
                        latest_classifications,
                    },
                    one_effect(Effect::CaptureFrames),
                )
            } else {
                (ModelCamera { state, latest_classifications }, no_effects())
            }
        },
        (ModelCameraState::Capturing { since }, Msg::FramesCaptureDone(Ok(frames))) => {
            if frames.len() == 0 {
                (
                    ModelCamera { state: ModelCameraState::Idle { since }, latest_classifications },
                    no_effects(),
                )
            } else {
                (
                    ModelCamera {
                        state: ModelCameraState::Classifying { since },
                        latest_classifications,
                    },
                    one_effect(Effect::ClassifyFrames { frames }),
                )
            }
        },
        (ModelCameraState::Capturing { since }, Msg::FramesCaptureDone(Err(_))) => (
            ModelCamera { state: ModelCameraState::Idle { since }, latest_classifications },
            no_effects(),
        ),
        (ModelCameraState::Classifying { since }, Msg::FramesClassifyDone(Ok(found))) => (
            ModelCamera { state: ModelCameraState::Idle { since }, latest_classifications: found },
            no_effects(),
        ),
        (ModelCameraState::Classifying { since }, Msg::FramesClassifyDone(Err(_))) => (
            ModelCamera { state: ModelCameraState::Idle { since }, latest_classifications },
            no_effects(),
        ),
        _ => (ModelCamera { state, latest_classifications }, no_effects()),
    }
}

/// What a change of the detection does to the door. An intent that it
/// raises is dated `now`.
pub fn transition_door_on_detection_change(
    model: ModelDoor,
    detection_before: Detection,
    detection_after: Detection,
    now: Instant,
) -> (r: (ModelDoor, Vec<Effect>))
    ensures
        r.0 == step_door_on_detection_change(model, detection_before, detection_after, now).0,
        r.1.deep_view() == step_door_on_detection_change(
            model,
            detection_before,
            detection_after,
            now,
        ).1,
{
    if detection_before == detection_after {
        return (model, no_effects());
    }
    match (model, detection_after) {
        (ModelDoor::Locked, Detection::Dog) => (ModelDoor::WillUnlock { since: now }, no_effects()),
        (ModelDoor::WillUnlock { .. }, Detection::Cat) => (
            ModelDoor::Locked,
            one_effect(Effect::LockDoor),
        ),
        (ModelDoor::Unlocked, Detection::Nothing) => (
            ModelDoor::WillLock { since: now },
            no_effects(),
        ),
        (ModelDoor::Unlocked, Detection::Cat) => (ModelDoor::WillLock { since: now }, no_effects()),
        (door, _) => (door, no_effects()),
    }
}

/// What a tick or the end of a door command does to the door.
pub fn transition_door_on_tick(config: &Config, door: ModelDoor, msg: &Msg) -> (r: (
    ModelDoor,
    Vec<Effect>,
))
    ensures
        r.0 == step_door_on_tick(config@, door, msg@).0,
        r.1.deep_view() == step_door_on_tick(config@, door, msg@).1,
{
    match (door, msg) {
        (ModelDoor::WillUnlock { since }, Msg::Tick(now)) => {
            if now.duration_since(since).nanos >= config.min_duration_will_unlock.nanos {
                (ModelDoor::Unlocked, one_effect(Effect::UnlockDoor))
            } else {
                (door, no_effects())
            }
        },
        (ModelDoor::WillLock { since }, Msg::Tick(now)) => {
            if now.duration_since(since).nanos >= config.min_duration_will_lock.nanos {
                (ModelDoor::Locked, one_effect(Effect::LockDoor))
            } else {
                (door, no_effects())
            }
        },
        (ModelDoor::WillUnlock { .. }, Msg::DoorUnlockDone(Ok(_))) => (
            ModelDoor::Unlocked,
            no_effects(),
        ),
        (ModelDoor::WillLock { .. }, Msg::DoorLockDone(Ok(_))) => (ModelDoor::Locked, no_effects()),
        _ => (door, no_effects()),
    }
}

/// One step of the ready controller on a message that is no disconnect.
pub fn transition_ready_main(config: &Config, model: ModelReady, msg: Msg) -> (r: (
    ModelReady,
    Vec<Effect>,
))
    ensures
        r.0@ == step_ready_main(config@, model@, msg@).0,
        r.1.deep_view() == step_ready_main(config@, model@, msg@).1,
{
    let ModelReady { camera, door } = model;
    let detection_before = to_detection(&camera, config);
    // The camera takes the message whole, so the door reads it first. The
    // order is free: a message that moves the door leaves the classifications
    // as they are, and the one that changes them does not move the door.
    let (door_told, door_effects) = transition_door_on_tick(config, door, &msg);
    let (camera, camera_effects) = transition_ready_camera(config, camera, msg);
    let detection_after = to_detection(&camera, config);
    let (door, seen_effects) = transition_door_on_detection_change(
        door_told,
        detection_before,
        detection_after,
        camera.state.since(),
    );
    let effects = effects_in_order(effects_in_order(camera_effects, seen_effects), door_effects);
    (ModelReady { camera, door }, effects)
}

/// One step of the ready controller.
pub fn transition_ready(config: &Config, model: ModelReady, msg: Msg) -> (r: (Model, Vec<Effect>))
    ensures
        r.0@ == step_ready(config@, model@, msg@).0,
        r.1.deep_view() == step_ready(config@, model@, msg@).1,
{
    match msg {
        Msg::CameraEvent(DeviceCameraEvent::Disconnected) => (
            Model::Connecting(
                ModelConnecting {
                    camera: ModelDeviceConnection::Connecting,
                    door: ModelDeviceConnection::Connected,
                },
            ),
            no_effects(),
        ),
        Msg::DoorEvent(DeviceDoorEvent::Disconnected) => (
            Model::Connecting(
                ModelConnecting {
                    camera: ModelDeviceConnection::Connected,
                    door: ModelDeviceConnection::Connecting,
                },
            ),
            no_effects(),
        ),
        msg => {
            let (next, effects) = transition_ready_main(config, model, msg);
            (Model::Ready(next), effects)
        },
    }
}

/// One step of the controller: the model and the effects that a message
/// leads to. Every message is taken in every model, and the outcome is a
/// function of the three arguments alone.
pub fn transition(config: &Config, model: Model, msg: Msg) -> (r: (Model, Vec<Effect>))
    ensures
        is_outcome(*config, model, msg, r),
{
    match model {
        Model::Connecting(child) => transition_connecting(config, child, msg),
        Model::Ready(child) => transition_ready(config, child, msg),
    }
}

} // verus!
