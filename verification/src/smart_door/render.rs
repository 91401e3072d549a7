use crate::config::{Config, ConfigView};
use crate::device_display::interface::{fit_to_row, DeviceDisplay, DISPLAY_COLUMNS};
use crate::error::DeviceError;
use crate::smart_door::detection::{detection, to_detection, Detection};
use crate::smart_door::model::{Model, ModelDeviceConnection, ModelDoor, ModelView};
use vstd::prelude::*;

verus! {

/// What the display says of the camera's link.
pub open spec fn camera_link_text(link: ModelDeviceConnection) -> Seq<char> {
    match link {
        ModelDeviceConnection::Connected => "camera connected"@,
        ModelDeviceConnection::Connecting => "camera connecting"@,
    }
}

/// What the display says of the door's link.
pub open spec fn door_link_text(link: ModelDeviceConnection) -> Seq<char> {
    match link {
        ModelDeviceConnection::Connected => "door connected"@,
        ModelDeviceConnection::Connecting => "door connecting"@,
    }
}

/// What the display says of a detection.
pub open spec fn detection_text(d: Detection) -> Seq<char> {
    match d {
        Detection::Cat => "cat"@,
        Detection::Dog => "dog"@,
        Detection::Nothing => "none"@,
    }
}

/// What the display says of the door.
pub open spec fn door_text(door: ModelDoor) -> Seq<char> {
    match door {
        ModelDoor::Locked => "locked"@,
        ModelDoor::WillUnlock { .. } => "unlocking..."@,
        ModelDoor::Unlocked => "unlocked"@,
        ModelDoor::WillLock { .. } => "locking..."@,
    }
}

/// The two lines that show a model: the links of the two devices while
/// the controller waits for them, the detection and the door once it is
/// ready.
pub open spec fn rendered(config: ConfigView, model: ModelView) -> (Seq<char>, Seq<char>) {
    match model {
        ModelView::Connecting(m) => (camera_link_text(m.camera), door_link_text(m.door)),
        ModelView::Ready(m) => (
            detection_text(detection(config, m.camera.latest_classifications)),
            door_text(m.door),
        ),
    }
}

/// What the display shows once the two lines of a model have been written
/// to it: each line cut to the width of the display.
pub open spec fn shown(config: ConfigView, model: ModelView) -> Seq<Seq<char>> {
    seq![fit_to_row(rendered(config, model).0), fit_to_row(rendered(config, model).1)]
}

/// Every line of every model fits a row of the display but one: the line
/// that tells that the camera is connecting is one character too long, and
/// loses its last.
pub proof fn lemma_one_line_is_cut(config: ConfigView, model: ModelView)
    ensures
        rendered(config, model).1.len() <= DISPLAY_COLUMNS,
        rendered(config, model).0.len() <= DISPLAY_COLUMNS || rendered(config, model).0
            == "camera connecting"@,
        fit_to_row("camera connecting"@) == "camera connectin"@,
{
    reveal_strlit("camera connected");
    reveal_strlit("camera connecting");
    reveal_strlit("camera connectin");
    reveal_strlit("door connected");
    reveal_strlit("door connecting");
    reveal_strlit("cat");
    reveal_strlit("dog");
    reveal_strlit("none");
    reveal_strlit("locked");
    reveal_strlit("unlocking...");
    reveal_strlit("unlocked");
    reveal_strlit("locking...");
}

/// The two lines that show a model.
pub fn render_lines(model: &Model, config: &Config) -> (lines: (&'static str, &'static str))
    ensures
        lines.0@ == rendered(config@, model@).0,
        lines.1@ == rendered(config@, model@).1,
{
    match model {
        Model::Connecting(connecting) => {
            let camera_text = match connecting.camera {
                ModelDeviceConnection::Connected => "camera connected",
                ModelDeviceConnection::Connecting => "camera connecting",
            };
            let door_text = match connecting.door {
                ModelDeviceConnection::Connected => "door connected",
                ModelDeviceConnection::Connecting => "door connecting",
            };
            (camera_text, door_text)
        },
        Model::Ready(ready) => {
            let camera_text = match to_detection(&ready.camera, config) {
                Detection::Cat => "cat",
                Detection::Dog => "dog",
                Detection::Nothing => "none",
            };
            let door_text = match ready.door {
                ModelDoor::WillLock { .. } => "locking...",
                ModelDoor::Locked => "locked",
                ModelDoor::WillUnlock { .. } => "unlocking...",
                ModelDoor::Unlocked => "unlocked",
            };
            (camera_text, door_text)
        },
    }
}

/// Shows a model on the display: clears it, then writes the two lines. The
/// first call that the display fails ends the rendering with that error.
/// Where all three succeed, as they do on a display that never fails, the
/// display shows the two lines of the model.
pub fn render<D: DeviceDisplay>(display: &mut D, model: &Model, config: &Config) -> (r: Result<
    (),
    DeviceError,
>)
    ensures
        old(display).never_fails() ==> r is Ok,
        r is Ok ==> final(display).rows() == shown(config@, model@),
        final(display).never_fails() == old(display).never_fails(),
{
    let (camera_text, door_text) = render_lines(model, config);
    match display.clear() {
        Ok(_) => {},
        Err(e) => {
            return Err(e);
        },
    }
    match display.write_line(0, camera_text) {
        Ok(_) => {},
        Err(e) => {
            return Err(e);
        },
    }
    match display.write_line(1, door_text) {
        Ok(_) => {},
        Err(e) => {
            return Err(e);
        },
    }
    Ok(())
}

} // verus!
