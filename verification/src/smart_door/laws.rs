use crate::config::{Config, ConfigView};
use crate::device_camera::interface::DeviceCameraEvent;
use crate::device_door::interface::DeviceDoorEvent;
use crate::image_classifier::interface::ClassificationView;
use crate::smart_door::detection::{cat_detected, detection, Detection};
use crate::smart_door::kernel::{
    all_connected, camera_link_after, door_link_after, is_outcome, step, step_camera,
    step_door_on_tick,
};
use crate::smart_door::model::{
    model_at_boot, ready_at_start, Effect, EffectView, Model, ModelCameraState,
    ModelCameraView, ModelConnecting, ModelDeviceConnection, ModelDoor, ModelReadyView,
    ModelView, Msg, MsgView,
};
use crate::smart_door::replay::{lemma_run_unfold, run};
use crate::time::{elapsed, Instant};
use vstd::prelude::*;

verus! {

/// A model that the controller can be in: while it waits, a device is still
/// to come; while an unlock is pending, no animal of the lock list is in the
/// latest classifications.
pub open spec fn is_consistent(config: ConfigView, model: ModelView) -> bool {
    match model {
        ModelView::Connecting(m) => !all_connected(m),
        ModelView::Ready(m) => m.door is WillUnlock ==> detection(
            config,
            m.camera.latest_classifications,
        ) != Detection::Cat,
    }
}

/// How often `effect` is asked for in `effects`.
pub open spec fn count(effects: Seq<EffectView>, effect: EffectView) -> nat
    decreases effects.len(),
{
    if effects.len() == 0 {
        0
    } else {
        count(effects.drop_last(), effect) + if effects.last() == effect {
            1nat
        } else {
            0nat
        }
    }
}

/// The ticks at the given instants, as messages.
pub open spec fn ticks_at(instants: Seq<Instant>) -> Seq<MsgView> {
    Seq::new(instants.len(), |k: int| MsgView::Tick(instants[k]))
}

/// A tick at which the camera, idle since `t`, is due to capture.
pub open spec fn is_due_tick(config: ConfigView, msg: MsgView, t: Instant) -> bool {
    msg is Tick && elapsed(msg->Tick_0, t) >= config.camera_process_rate
}

/// The loss of a device.
pub open spec fn is_disconnect(msg: MsgView) -> bool {
    msg == MsgView::CameraEvent(DeviceCameraEvent::Disconnected) || msg == MsgView::DoorEvent(
        DeviceDoorEvent::Disconnected,
    )
}

/// Some instant of the run lies at least `least` after `since`.
pub open spec fn reaches(instants: Seq<Instant>, since: Instant, least: nat) -> bool {
    exists|k: int| 0 <= k < instants.len() && elapsed(#[trigger] instants[k], since) >= least
}

/// A step has one outcome: where two calls of `transition` are given
/// settings, models and messages of the same values, what they give back has
/// the same values.
pub proof fn lemma_same_in_same_out(
    config: Config,
    model: Model,
    msg: Msg,
    outcome: (Model, Vec<Effect>),
    config_again: Config,
    model_again: Model,
    msg_again: Msg,
    outcome_again: (Model, Vec<Effect>),
)
    requires
        config@ == config_again@,
        model@ == model_again@,
        msg@ == msg_again@,
        is_outcome(config, model, msg, outcome),
        is_outcome(config_again, model_again, msg_again, outcome_again),
    ensures
        outcome.0@ == outcome_again.0@,
        outcome.1.deep_view() == outcome_again.1.deep_view(),
{
}

/// A capture is asked for only by the step that takes the camera from idle
/// to capturing, and a classification only by the step that takes it from
/// capturing to classifying, with the frames that were captured. So at most
/// one capture and one classification are under way at any time.
pub proof fn lemma_camera_effects_follow_the_cycle(
    config: ConfigView,
    model: ModelView,
    msg: MsgView,
    effect: EffectView,
)
    requires
        step(config, model, msg).1.contains(effect),
    ensures
        effect is CaptureFrames ==> {
            &&& model is Ready
            &&& model->Ready_0.camera.state is Idle
            &&& step(config, model, msg).0 is Ready
            &&& step(config, model, msg).0->Ready_0.camera.state is Capturing
        },
        effect is ClassifyFrames ==> {
            &&& model is Ready
            &&& model->Ready_0.camera.state is Capturing
            &&& step(config, model, msg).0 is Ready
            &&& step(config, model, msg).0->Ready_0.camera.state is Classifying
            &&& msg == MsgView::FramesCaptureDone(Ok(effect->ClassifyFrames_frames))
        },
        !(effect is SubscribeCamera || effect is SubscribeDoor || effect is SubscribeTick),
{
    let r = step(config, model, msg);
    let i = choose|i: int| 0 <= i < r.1.len() && r.1[i] == effect;
    assert(r.1[i] == effect);
}

/// The door is commanded by its own side of the controller alone, and an
/// unlock only on a tick: a step that asks for an unlock is the step of a
/// ready model with a pending unlock on a tick, and leaves the door unlocked.
/// A step that asks for a lock leaves the door locked.
pub proof fn lemma_door_commands_follow_the_door(
    config: ConfigView,
    model: ModelView,
    msg: MsgView,
    effect: EffectView,
)
    requires
        step(config, model, msg).1.contains(effect),
    ensures
        effect is UnlockDoor ==> {
            &&& msg is Tick
            &&& model is Ready
            &&& model->Ready_0.door is WillUnlock
            &&& step(config, model, msg).0 is Ready
            &&& step(config, model, msg).0->Ready_0.door == ModelDoor::Unlocked
        },
        effect is LockDoor ==> {
            &&& model is Ready
            &&& step(config, model, msg).0 is Ready
            &&& step(config, model, msg).0->Ready_0.door == ModelDoor::Locked
        },
{
    let r = step(config, model, msg);
    let i = choose|i: int| 0 <= i < r.1.len() && r.1[i] == effect;
    assert(r.1[i] == effect);
}

/// The model at boot is one that the controller can be in.
pub proof fn lemma_boot_is_consistent(config: ConfigView)
    ensures
        is_consistent(config, model_at_boot()),
{
}

/// A step leads from a model that the controller can be in to another such
/// model, whatever the message.
pub proof fn lemma_step_keeps_consistent(config: ConfigView, model: ModelView, msg: MsgView)
    requires
        is_consistent(config, model),
    ensures
        is_consistent(config, step(config, model, msg).0),
{
}

/// Every run of messages leads from a model that the controller can be in
/// to another such model. So every model that the controller reaches from
/// boot is one.
pub proof fn lemma_run_keeps_consistent(config: ConfigView, model: ModelView, msgs: Seq<MsgView>)
    requires
        is_consistent(config, model),
    ensures
        is_consistent(config, run(config, model, msgs).0),
    decreases msgs.len(),
{
    if msgs.len() > 0 {
        lemma_step_keeps_consistent(config, model, msgs[0]);
        lemma_run_keeps_consistent(config, step(config, model, msgs[0]).0, msgs.drop_first());
        lemma_run_unfold(config, model, msgs);
    }
}

/// While an animal of the lock list is in the latest classifications, no
/// step asks for the door to be unlocked.
pub proof fn lemma_no_unlock_while_a_cat_is_seen(
    config: ConfigView,
    model: ModelReadyView,
    msg: MsgView,
)
    requires
        is_consistent(config, ModelView::Ready(model)),
        cat_detected(config, model.camera.latest_classifications),
    ensures
        !step(config, ModelView::Ready(model), msg).1.contains(EffectView::UnlockDoor),
{
    if step(config, ModelView::Ready(model), msg).1.contains(EffectView::UnlockDoor) {
        lemma_door_commands_follow_the_door(
            config,
            ModelView::Ready(model),
            msg,
            EffectView::UnlockDoor,
        );
    }
}

/// While the controller waits for a device, no step asks for anything.
pub proof fn lemma_connecting_asks_for_nothing(
    config: ConfigView,
    model: ModelConnecting,
    msg: MsgView,
)
    ensures
        step(config, ModelView::Connecting(model), msg).1 == Seq::<EffectView>::empty(),
{
}

/// The controller becomes ready exactly when, with the message taken in,
/// both devices are there; it then starts idle and locked, and asks for
/// nothing.
pub proof fn lemma_ready_iff_all_connected(config: ConfigView, model: ModelConnecting, msg: MsgView)
    ensures
        step(config, ModelView::Connecting(model), msg).0 is Ready <==> all_connected(
            ModelConnecting {
                camera: camera_link_after(model.camera, msg),
                door: door_link_after(model.door, msg),
            },
        ),
        step(config, ModelView::Connecting(model), msg).0 is Ready ==> step(
            config,
            ModelView::Connecting(model),
            msg,
        ).0 == ModelView::Ready(ready_at_start()),
        step(config, ModelView::Connecting(model), msg).1 == Seq::<EffectView>::empty(),
{
}

/// While the controller waits, a message that is no device event changes
/// nothing.
pub proof fn lemma_connecting_ignores_the_rest(
    config: ConfigView,
    model: ModelConnecting,
    msg: MsgView,
)
    requires
        !all_connected(model),
        !(msg is CameraEvent),
        !(msg is DoorEvent),
    ensures
        step(config, ModelView::Connecting(model), msg) == (
            ModelView::Connecting(model),
            Seq::<EffectView>::empty(),
        ),
{
}

/// While the controller waits, the loss of the one device that was there
/// leaves it waiting for both, and asks for nothing.
pub proof fn lemma_connecting_loses_its_device(config: ConfigView, model: ModelConnecting)
    requires
        !all_connected(model),
    ensures
        model.door == ModelDeviceConnection::Connecting ==> step(
            config,
            ModelView::Connecting(model),
            MsgView::CameraEvent(DeviceCameraEvent::Disconnected),
        ) == (model_at_boot(), Seq::<EffectView>::empty()),
        model.camera == ModelDeviceConnection::Connecting ==> step(
            config,
            ModelView::Connecting(model),
            MsgView::DoorEvent(DeviceDoorEvent::Disconnected),
        ) == (model_at_boot(), Seq::<EffectView>::empty()),
{
}

/// From every ready model, the loss of the camera leads to waiting for the
/// camera with the door kept as connected, and the loss of the door to
/// waiting for the door with the camera kept; neither asks for anything.
pub proof fn lemma_disconnect_leaves_ready(config: ConfigView, model: ModelReadyView)
    ensures
        step(
            config,
            ModelView::Ready(model),
            MsgView::CameraEvent(DeviceCameraEvent::Disconnected),
        ) == (
            ModelView::Connecting(
                ModelConnecting {
                    camera: ModelDeviceConnection::Connecting,
                    door: ModelDeviceConnection::Connected,
                },
            ),
            Seq::<EffectView>::empty(),
        ),
        step(config, ModelView::Ready(model), MsgView::DoorEvent(DeviceDoorEvent::Disconnected))
            == (
            ModelView::Connecting(
                ModelConnecting {
                    camera: ModelDeviceConnection::Connected,
                    door: ModelDeviceConnection::Connecting,
                },
            ),
            Seq::<EffectView>::empty(),
        ),
{
}

/// While the controller waits, what comes back from a device command
/// changes nothing.
pub proof fn lemma_stale_completions_are_absorbed(
    config: ConfigView,
    model: ModelConnecting,
    msg: MsgView,
)
    requires
        !all_connected(model),
        msg is DoorLockDone || msg is DoorUnlockDone || msg is FramesCaptureDone
            || msg is FramesClassifyDone,
    ensures
        step(config, ModelView::Connecting(model), msg) == (
            ModelView::Connecting(model),
            Seq::<EffectView>::empty(),
        ),
{
}

/// A door command that failed changes nothing and asks for nothing: an
/// intent that is still pending stays, and the next tick at which it is due
/// sends it to the door.
pub proof fn lemma_failed_commands_change_nothing(
    config: ConfigView,
    model: ModelView,
    msg: MsgView,
)
    requires
        is_consistent(config, model),
        msg is DoorLockDone && msg->DoorLockDone_0 is Err || msg is DoorUnlockDone
            && msg->DoorUnlockDone_0 is Err,
    ensures
        step(config, model, msg) == (model, Seq::<EffectView>::empty()),
{

}

/// A capture or a classification that failed takes the camera back to
/// idle, with the classifications it had, and asks for nothing, so that the
/// next tick at which the camera is due starts a new cycle.
pub proof fn lemma_failed_camera_work_returns_to_idle(
    config: ConfigView,
    model: ModelReadyView,
    since: Instant,
    error: Seq<char>,
)
    ensures
        model.camera.state == (ModelCameraState::Capturing { since }) ==> step(
            config,
            ModelView::Ready(model),
            MsgView::FramesCaptureDone(Err(error)),
        ) == (
            ModelView::Ready(
                ModelReadyView {
                    camera: ModelCameraView {
                        state: ModelCameraState::Idle { since },
                        latest_classifications: model.camera.latest_classifications,
                    },
                    door: model.door,
                },
            ),
            Seq::<EffectView>::empty(),
        ),
        model.camera.state == (ModelCameraState::Classifying { since }) ==> step(
            config,
            ModelView::Ready(model),
            MsgView::FramesClassifyDone(Err(error)),
        ) == (
            ModelView::Ready(
                ModelReadyView {
                    camera: ModelCameraView {
                        state: ModelCameraState::Idle { since },
                        latest_classifications: model.camera.latest_classifications,
                    },
                    door: model.door,
                },
            ),
            Seq::<EffectView>::empty(),
        ),
{

}

/// A classification that shows an animal of the lock list, arriving while
/// an unlock is pending, calls the unlock off: the door is locked, and the
/// one effect asked for is to lock it.
pub proof fn lemma_cat_aborts_pending_unlock(
    config: ConfigView,
    model: ModelReadyView,
    found: Seq<Seq<ClassificationView>>,
)
    requires
        is_consistent(config, ModelView::Ready(model)),
        model.door is WillUnlock,
        model.camera.state is Classifying,
        cat_detected(config, found),
    ensures
        step(config, ModelView::Ready(model), MsgView::FramesClassifyDone(Ok(found))).0
            == ModelView::Ready(
            ModelReadyView {
                camera: step_camera(
                    config,
                    model.camera,
                    MsgView::FramesClassifyDone(Ok(found)),
                ).0,
                door: ModelDoor::Locked,
            },
        ),
        step(config, ModelView::Ready(model), MsgView::FramesClassifyDone(Ok(found))).1
            == seq![EffectView::LockDoor],
{

}

/// In a ready model whose camera is idle since `t`, a step asks for a
/// capture exactly on a tick at which the time since `t` has reached the
/// camera's rate. On every other message that is no disconnect the camera
/// stays idle since `t`.
pub proof fn lemma_capture_waits_for_its_tick(
    config: ConfigView,
    model: ModelReadyView,
    t: Instant,
    msg: MsgView,
)
    requires
        model.camera.state == (ModelCameraState::Idle { since: t }),
    ensures
        step(config, ModelView::Ready(model), msg).1.contains(EffectView::CaptureFrames) <==> (
        msg is Tick && elapsed(msg->Tick_0, t) >= config.camera_process_rate),
        !(msg is Tick && elapsed(msg->Tick_0, t) >= config.camera_process_rate) && step(
            config,
            ModelView::Ready(model),
            msg,
        ).0 is Ready ==> step(config, ModelView::Ready(model), msg).0->Ready_0.camera.state
            == (ModelCameraState::Idle { since: t }),
{
    let r = step(config, ModelView::Ready(model), msg);
    if is_due_tick(config, msg, t) {
        assert(r.1[0] == EffectView::CaptureFrames);
    }
}

/// A pending unlock is sent to the door by the first tick at which it has
/// lasted its least duration: the door is then unlocked, and the step asks
/// for the unlock once. A tick before that leaves the intent as it is. The
/// same holds of a pending lock.
pub proof fn lemma_due_tick_commands_the_door(
    config: ConfigView,
    model: ModelReadyView,
    since: Instant,
    now: Instant,
)
    ensures
        model.door == (ModelDoor::WillUnlock { since }) ==> {
            let r = step(config, ModelView::Ready(model), MsgView::Tick(now));
            &&& r.0 is Ready
            &&& r.0->Ready_0.door == if elapsed(now, since) >= config.min_duration_will_unlock {
                ModelDoor::Unlocked
            } else {
                model.door
            }
            &&& count(r.1, EffectView::UnlockDoor) == if elapsed(now, since)
                >= config.min_duration_will_unlock {
                1nat
            } else {
                0nat
            }
            &&& count(r.1, EffectView::LockDoor) == 0
        },
        model.door == (ModelDoor::WillLock { since }) ==> {
            let r = step(config, ModelView::Ready(model), MsgView::Tick(now));
            &&& r.0 is Ready
            &&& r.0->Ready_0.door == if elapsed(now, since) >= config.min_duration_will_lock {
                ModelDoor::Locked
            } else {
                model.door
            }
            &&& count(r.1, EffectView::LockDoor) == if elapsed(now, since)
                >= config.min_duration_will_lock {
                1nat
            } else {
                0nat
            }
            &&& count(r.1, EffectView::UnlockDoor) == 0
        },
{
    let msg = MsgView::Tick(now);
    let cam = step_camera(config, model.camera, msg);
    let told = step_door_on_tick(config, model.door, msg);
    lemma_count_concat(cam.1, told.1, EffectView::UnlockDoor);
    lemma_count_concat(cam.1, told.1, EffectView::LockDoor);
    lemma_count_short(cam.1, EffectView::UnlockDoor);
    lemma_count_short(cam.1, EffectView::LockDoor);
    lemma_count_short(told.1, EffectView::UnlockDoor);
    lemma_count_short(told.1, EffectView::LockDoor);
}

/// The count of an effect in at most one effect.
proof fn lemma_count_short(effects: Seq<EffectView>, effect: EffectView)
    requires
        effects.len() <= 1,
    ensures
        count(effects, effect) == if effects.len() == 1 && effects[0] == effect {
            1nat
        } else {
            0nat
        },
{
    if effects.len() == 1 {
        assert(count(effects.drop_last(), effect) == 0);
    }
}

/// Counting goes through concatenation.
pub proof fn lemma_count_concat(first: Seq<EffectView>, then: Seq<EffectView>, effect: EffectView)
    ensures
        count(first + then, effect) == count(first, effect) + count(then, effect),
    decreases then.len(),
{
    if then.len() > 0 {
        assert((first + then).drop_last() =~= first + then.drop_last());
        lemma_count_concat(first, then.drop_last(), effect);
    }
}

/// While the camera is idle since `t`, no run of messages asks for a
/// capture unless one of them is a tick at which the time since `t` has
/// reached the camera's rate; the camera is then still idle since `t`. (The
/// loss of a device ends the idle period, so such messages are left out.)
pub proof fn lemma_no_capture_until_due(
    config: ConfigView,
    model: ModelReadyView,
    t: Instant,
    msgs: Seq<MsgView>,
)
    requires
        model.camera.state == (ModelCameraState::Idle { since: t }),
        forall|k: int|
            0 <= k < msgs.len() ==> !is_due_tick(config, #[trigger] msgs[k], t) && !is_disconnect(
                msgs[k],
            ),
    ensures
        run(config, ModelView::Ready(model), msgs).0 is Ready,
        run(config, ModelView::Ready(model), msgs).0->Ready_0.camera.state == (
        ModelCameraState::Idle { since: t }),
        !run(config, ModelView::Ready(model), msgs).1.contains(EffectView::CaptureFrames),
    decreases msgs.len(),
{
    if msgs.len() > 0 {
        let first = step(config, ModelView::Ready(model), msgs[0]);
        let rest = msgs.drop_first();
        lemma_capture_waits_for_its_tick(config, model, t, msgs[0]);
        lemma_no_capture_until_due(config, first.0->Ready_0, t, rest);
        lemma_run_unfold(config, ModelView::Ready(model), msgs);
    }
}

/// An unlocked door stays unlocked through any run of ticks, and no tick
/// asks for it to be unlocked or locked.
pub proof fn lemma_unlocked_stays_on_ticks(
    config: ConfigView,
    model: ModelReadyView,
    instants: Seq<Instant>,
)
    requires
        model.door == ModelDoor::Unlocked,
    ensures
        run(config, ModelView::Ready(model), ticks_at(instants)).0 is Ready,
        run(config, ModelView::Ready(model), ticks_at(instants)).0->Ready_0.door
            == ModelDoor::Unlocked,
        count(run(config, ModelView::Ready(model), ticks_at(instants)).1, EffectView::UnlockDoor)
            == 0,
        count(run(config, ModelView::Ready(model), ticks_at(instants)).1, EffectView::LockDoor)
            == 0,
    decreases instants.len(),
{
    let msgs = ticks_at(instants);
    if instants.len() > 0 {
        let first = step(config, ModelView::Ready(model), msgs[0]);
        let cam = step_camera(config, model.camera, msgs[0]);
        lemma_count_short(cam.1, EffectView::UnlockDoor);
        lemma_count_short(cam.1, EffectView::LockDoor);
        assert(msgs.drop_first() =~= ticks_at(instants.drop_first()));
        lemma_unlocked_stays_on_ticks(config, first.0->Ready_0, instants.drop_first());
        lemma_run_unfold(config, ModelView::Ready(model), msgs);
        let more = run(config, first.0, msgs.drop_first());
        lemma_count_concat(first.1, more.1, EffectView::UnlockDoor);
        lemma_count_concat(first.1, more.1, EffectView::LockDoor);
    }
}

/// Through any run of ticks, a pending unlock is sent to the door at most
/// once: exactly once, and the door ends unlocked, where some tick comes
/// when the intent has lasted its least duration; not at all, and the intent
/// stays, where none does.
pub proof fn lemma_one_unlock_on_ticks(
    config: ConfigView,
    model: ModelReadyView,
    since: Instant,
    instants: Seq<Instant>,
)
    requires
        model.door == (ModelDoor::WillUnlock { since }),
    ensures
        run(config, ModelView::Ready(model), ticks_at(instants)).0 is Ready,
        reaches(instants, since, config.min_duration_will_unlock) ==> {
            &&& run(config, ModelView::Ready(model), ticks_at(instants)).0->Ready_0.door
                == ModelDoor::Unlocked
            &&& count(
                run(config, ModelView::Ready(model), ticks_at(instants)).1,
                EffectView::UnlockDoor,
            ) == 1
        },
        !reaches(instants, since, config.min_duration_will_unlock) ==> {
            &&& run(config, ModelView::Ready(model), ticks_at(instants)).0->Ready_0.door
                == model.door
            &&& count(
                run(config, ModelView::Ready(model), ticks_at(instants)).1,
                EffectView::UnlockDoor,
            ) == 0
        },
    decreases instants.len(),
{
    let least = config.min_duration_will_unlock;
    let msgs = ticks_at(instants);
    if instants.len() > 0 {
        let first = step(config, ModelView::Ready(model), msgs[0]);
        lemma_due_tick_commands_the_door(config, model, since, instants[0]);
        let rest = instants.drop_first();
        assert(msgs.drop_first() =~= ticks_at(rest));
        lemma_run_unfold(config, ModelView::Ready(model), msgs);
        let more = run(config, first.0, msgs.drop_first());
        lemma_count_concat(first.1, more.1, EffectView::UnlockDoor);
        if elapsed(instants[0], since) >= least {
            lemma_unlocked_stays_on_ticks(config, first.0->Ready_0, rest);
        } else {
            lemma_one_unlock_on_ticks(config, first.0->Ready_0, since, rest);
            if reaches(instants, since, least) {
                let k = choose|k: int|
                    0 <= k < instants.len() && elapsed(#[trigger] instants[k], since) >= least;
                assert(rest[k - 1] == instants[k]);
            }
            if reaches(rest, since, least) {
                let k = choose|k: int|
                    0 <= k < rest.len() && elapsed(#[trigger] rest[k], since) >= least;
                assert(instants[k + 1] == rest[k]);
            }
        }
    }
}

/// The first instant of the run that lies at least `least` after `since`.
proof fn first_reaching(instants: Seq<Instant>, since: Instant, least: nat) -> (k: int)
    requires
        reaches(instants, since, least),
    ensures
        0 <= k < instants.len(),
        elapsed(instants[k], since) >= least,
        forall|j: int| 0 <= j < k ==> elapsed(#[trigger] instants[j], since) < least,
    decreases instants.len(),
{
    let w = choose|k: int| 0 <= k < instants.len() && elapsed(#[trigger] instants[k], since) >= least;
    if elapsed(instants[0], since) >= least {
        0
    } else {
        let rest = instants.drop_first();
        assert(rest[w - 1] == instants[w]);
        let k = first_reaching(rest, since, least);
        assert forall|j: int| 0 <= j < k + 1 implies elapsed(#[trigger] instants[j], since)
            < least by {
            if j > 0 {
                assert(rest[j - 1] == instants[j]);
            }
        }
        k + 1
    }
}

/// Where ticks come at the configured rate, a pending unlock is sent to the
/// door once, and no later than the least duration plus one tick after the
/// detection changed. The intent dates from `since`, which is not after the
/// change; the first tick comes no later than one tick after the change, each
/// further tick no later than one tick after the one before, and the ticks
/// go on until the intent has lasted its least duration.
pub proof fn lemma_unlock_comes_in_time(
    config: ConfigView,
    model: ModelReadyView,
    since: Instant,
    change: nat,
    instants: Seq<Instant>,
) -> (k: int)
    requires
        model.door == (ModelDoor::WillUnlock { since }),
        since@ <= change,
        instants.len() > 0,
        instants[0]@ <= change + config.tick_rate,
        forall|j: int|
            0 <= j < instants.len() - 1 ==> (#[trigger] instants[j + 1])@ <= instants[j]@
                + config.tick_rate,
        elapsed(instants.last(), since) >= config.min_duration_will_unlock,
    ensures
        0 <= k < instants.len(),
        instants[k]@ <= change + config.min_duration_will_unlock + config.tick_rate,
        count(
            run(config, ModelView::Ready(model), ticks_at(instants.take(k))).1,
            EffectView::UnlockDoor,
        ) == 0,
        count(
            run(config, ModelView::Ready(model), ticks_at(instants.take(k + 1))).1,
            EffectView::UnlockDoor,
        ) == 1,
        count(run(config, ModelView::Ready(model), ticks_at(instants)).1, EffectView::UnlockDoor)
            == 1,
{
    let least = config.min_duration_will_unlock;
    let k = first_reaching(instants, since, least);
    if k > 0 {
        assert(instants[k - 1 + 1]@ <= instants[k - 1]@ + config.tick_rate);
    }
    let before = instants.take(k);
    assert(!reaches(before, since, least)) by {
        if reaches(before, since, least) {
            let j = choose|j: int|
                0 <= j < before.len() && elapsed(#[trigger] before[j], since) >= least;
            assert(before[j] == instants[j]);
        }
    }
    let upto = instants.take(k + 1);
    assert(upto[k] == instants[k]);
    lemma_one_unlock_on_ticks(config, model, since, before);
    lemma_one_unlock_on_ticks(config, model, since, upto);
    lemma_one_unlock_on_ticks(config, model, since, instants);
    k
}

/// A locked door stays locked through any run of ticks, and no tick
/// asks for it to be locked or unlocked.
pub proof fn lemma_locked_stays_on_ticks(
    config: ConfigView,
    model: ModelReadyView,
    instants: Seq<Instant>,
)
    requires
        model.door == ModelDoor::Locked,
    ensures
        run(config, ModelView::Ready(model), ticks_at(instants)).0 is Ready,
        run(config, ModelView::Ready(model), ticks_at(instants)).0->Ready_0.door
            == ModelDoor::Locked,
        count(run(config, ModelView::Ready(model), ticks_at(instants)).1, EffectView::LockDoor)
            == 0,
        count(run(config, ModelView::Ready(model), ticks_at(instants)).1, EffectView::UnlockDoor)
            == 0,
    decreases instants.len(),
{
    let msgs = ticks_at(instants);
    if instants.len() > 0 {
        let first = step(config, ModelView::Ready(model), msgs[0]);
        let cam = step_camera(config, model.camera, msgs[0]);
        lemma_count_short(cam.1, EffectView::LockDoor);
        lemma_count_short(cam.1, EffectView::UnlockDoor);
        assert(msgs.drop_first() =~= ticks_at(instants.drop_first()));
        lemma_locked_stays_on_ticks(config, first.0->Ready_0, instants.drop_first());
        lemma_run_unfold(config, ModelView::Ready(model), msgs);
        let more = run(config, first.0, msgs.drop_first());
        lemma_count_concat(first.1, more.1, EffectView::LockDoor);
        lemma_count_concat(first.1, more.1, EffectView::UnlockDoor);
    }
}

/// Through any run of ticks, a pending lock is sent to the door at most
/// once: exactly once, and the door ends locked, where some tick comes
/// when the intent has lasted its least duration; not at all, and the intent
/// stays, where none does.
pub proof fn lemma_one_lock_on_ticks(
    config: ConfigView,
    model: ModelReadyView,
    since: Instant,
    instants: Seq<Instant>,
)
    requires
        model.door == (ModelDoor::WillLock { since }),
    ensures
        run(config, ModelView::Ready(model), ticks_at(instants)).0 is Ready,
        reaches(instants, since, config.min_duration_will_lock) ==> {
            &&& run(config, ModelView::Ready(model), ticks_at(instants)).0->Ready_0.door
                == ModelDoor::Locked
            &&& count(
                run(config, ModelView::Ready(model), ticks_at(instants)).1,
                EffectView::LockDoor,
            ) == 1
        },
        !reaches(instants, since, config.min_duration_will_lock) ==> {
            &&& run(config, ModelView::Ready(model), ticks_at(instants)).0->Ready_0.door
                == model.door
            &&& count(
                run(config, ModelView::Ready(model), ticks_at(instants)).1,
                EffectView::LockDoor,
            ) == 0
        },
    decreases instants.len(),
{
    let least = config.min_duration_will_lock;
    let msgs = ticks_at(instants);
    if instants.len() > 0 {
        let first = step(config, ModelView::Ready(model), msgs[0]);
        lemma_due_tick_commands_the_door(config, model, since, instants[0]);
        let rest = instants.drop_first();
        assert(msgs.drop_first() =~= ticks_at(rest));
        lemma_run_unfold(config, ModelView::Ready(model), msgs);
        let more = run(config, first.0, msgs.drop_first());
        lemma_count_concat(first.1, more.1, EffectView::LockDoor);
        if elapsed(instants[0], since) >= least {
            lemma_locked_stays_on_ticks(config, first.0->Ready_0, rest);
        } else {
            lemma_one_lock_on_ticks(config, first.0->Ready_0, since, rest);
            if reaches(instants, since, least) {
                let k = choose|k: int|
                    0 <= k < instants.len() && elapsed(#[trigger] instants[k], since) >= least;
                assert(rest[k - 1] == instants[k]);
            }
            if reaches(rest, since, least) {
                let k = choose|k: int|
                    0 <= k < rest.len() && elapsed(#[trigger] rest[k], since) >= least;
                assert(instants[k + 1] == rest[k]);
            }
        }
    }
}

/// Where ticks come at the configured rate, a pending lock is sent to the
/// door once, and no later than the least duration plus one tick after the
/// detection changed. The intent dates from `since`, which is not after the
/// change; the first tick comes no later than one tick after the change, each
/// further tick no later than one tick after the one before, and the ticks
/// go on until the intent has lasted its least duration.
pub proof fn lemma_lock_comes_in_time(
    config: ConfigView,
    model: ModelReadyView,
    since: Instant,
    change: nat,
    instants: Seq<Instant>,
) -> (k: int)
    requires
        model.door == (ModelDoor::WillLock { since }),
        since@ <= change,
        instants.len() > 0,
        instants[0]@ <= change + config.tick_rate,
        forall|j: int|
            0 <= j < instants.len() - 1 ==> (#[trigger] instants[j + 1])@ <= instants[j]@
                + config.tick_rate,
        elapsed(instants.last(), since) >= config.min_duration_will_lock,
    ensures
        0 <= k < instants.len(),
        instants[k]@ <= change + config.min_duration_will_lock + config.tick_rate,
        count(
            run(config, ModelView::Ready(model), ticks_at(instants.take(k))).1,
            EffectView::LockDoor,
        ) == 0,
        count(
            run(config, ModelView::Ready(model), ticks_at(instants.take(k + 1))).1,
            EffectView::LockDoor,
        ) == 1,
        count(run(config, ModelView::Ready(model), ticks_at(instants)).1, EffectView::LockDoor)
            == 1,
{
    let least = config.min_duration_will_lock;
    let k = first_reaching(instants, since, least);
    if k > 0 {
        assert(instants[k - 1 + 1]@ <= instants[k - 1]@ + config.tick_rate);
    }
    let before = instants.take(k);
    assert(!reaches(before, since, least)) by {
        if reaches(before, since, least) {
            let j = choose|j: int|
                0 <= j < before.len() && elapsed(#[trigger] before[j], since) >= least;
            assert(before[j] == instants[j]);
        }
    }
    let upto = instants.take(k + 1);
    assert(upto[k] == instants[k]);
    lemma_one_lock_on_ticks(config, model, since, before);
    lemma_one_lock_on_ticks(config, model, since, upto);
    lemma_one_lock_on_ticks(config, model, since, instants);
    k
}

} // verus!
