use smart_pet_door::device_camera::impl_fake::{
    DeviceCameraFake, CAMERA_AWAY_CHANCE, FAKE_FRAME_BYTES,
};
use smart_pet_door::device_camera::impl_multi::{gather_frames, MultiDeviceCamera};
use smart_pet_door::device_camera::interface::{DeviceCamera, DeviceCameraEvent};
use smart_pet_door::device_door::impl_fake::{DeviceDoorFake, DOOR_AWAY_CHANCE};
use smart_pet_door::device_door::impl_raspberry_pi_relay::{
    DogDoorRaspberryPiConfig, DogDoorRaspberryPiRelay, RelayLevel,
};
use smart_pet_door::device_door::interface::{DeviceDoor, DeviceDoorEvent};
use smart_pet_door::error::DeviceError;
use smart_pet_door::image_classifier::impl_fake::ImageClassifierFake;
use smart_pet_door::image_classifier::interface::{Classification, ImageClassifier};
use smart_pet_door::script::{
    play_round, random_round, ScriptStep, AWAY_NANOS, DRAWS, ROUND_NANOS,
};
use smart_pet_door::time::Duration;

fn seen(label: &str, confidence: u32) -> Classification {
    Classification { confidence, label: label.to_string() }
}

#[test]
fn fake_door_follows_its_commands() {
    let mut door = DeviceDoorFake::new();
    assert_eq!(door.is_unlocked(), Ok(true));
    assert_eq!(door.lock(), Ok(()));
    assert_eq!(door.is_unlocked(), Ok(false));
    assert_eq!(door.lock(), Ok(()));
    assert_eq!(door.is_unlocked(), Ok(false));
    assert_eq!(door.unlock(), Ok(()));
    assert_eq!(door.is_unlocked(), Ok(true));
    assert_eq!(door.unlock(), Ok(()));
    assert_eq!(door.is_unlocked(), Ok(true));
}

#[test]
fn fake_door_script() {
    let door = DeviceDoorFake::new();
    assert_eq!(door.events_opening(), vec![ScriptStep::Emit(DeviceDoorEvent::Connected)]);
    let quiet = vec![ScriptStep::Wait(Duration::from_secs(300))];
    let away = vec![
        ScriptStep::Wait(Duration::from_secs(300)),
        ScriptStep::Emit(DeviceDoorEvent::Disconnected),
        ScriptStep::Wait(Duration::from_secs(5)),
        ScriptStep::Emit(DeviceDoorEvent::Connected),
    ];
    assert_eq!(DOOR_AWAY_CHANCE, 10_000);
    assert_eq!(door.events_round_for(0), away);
    assert_eq!(door.events_round_for(9_999), away);
    assert_eq!(door.events_round_for(10_000), quiet);
    assert_eq!(door.events_round_for(999_999), quiet);
    assert_eq!(door.events_round_for(u32::MAX), quiet);
}

#[test]
fn fake_camera_script() {
    let camera = DeviceCameraFake::new();
    assert_eq!(camera.events_opening(), vec![ScriptStep::Emit(DeviceCameraEvent::Connected)]);
    let quiet = vec![ScriptStep::Wait(Duration::from_secs(300))];
    let away = vec![
        ScriptStep::Wait(Duration::from_secs(300)),
        ScriptStep::Emit(DeviceCameraEvent::Disconnected),
        ScriptStep::Wait(Duration::from_secs(5)),
        ScriptStep::Emit(DeviceCameraEvent::Connected),
    ];
    assert_eq!(CAMERA_AWAY_CHANCE, 1_000);
    assert_eq!(camera.events_round_for(0), away);
    assert_eq!(camera.events_round_for(999), away);
    assert_eq!(camera.events_round_for(1_000), quiet);
    assert_eq!(camera.events_round_for(500_000), quiet);
}

#[test]
fn script_round_on_given_values() {
    assert_eq!(DRAWS, 1_000_000);
    assert_eq!(ROUND_NANOS, 300 * 1_000_000_000);
    assert_eq!(AWAY_NANOS, 5 * 1_000_000_000);
    assert_eq!(
        play_round(3, 4, 'g', 'b'),
        vec![
            ScriptStep::Wait(Duration::from_nanos(ROUND_NANOS)),
            ScriptStep::Emit('g'),
            ScriptStep::Wait(Duration::from_nanos(AWAY_NANOS)),
            ScriptStep::Emit('b'),
        ]
    );
    assert_eq!(play_round(4, 4, 'g', 'b'), vec![ScriptStep::Wait(Duration::from_nanos(ROUND_NANOS))]);
    assert_eq!(play_round(0, 0, 'g', 'b'), vec![ScriptStep::Wait(Duration::from_nanos(ROUND_NANOS))]);
}

#[test]
fn fake_camera_captures_one_black_frame() {
    let camera = DeviceCameraFake::new();
    assert_eq!(camera.start(), Ok(()));
    let frames = camera.capture_frame().unwrap();
    assert_eq!(frames.len(), 1);
    assert_eq!(frames[0].len(), 100 * 100 * 3);
    assert_eq!(FAKE_FRAME_BYTES, 30_000);
    assert!(frames[0].iter().all(|b| *b == 0));
    assert_eq!(camera.stop(), Ok(()));
}

#[test]
fn multi_camera_gathers_all_frames() {
    let none: MultiDeviceCamera<DeviceCameraFake> = MultiDeviceCamera::new(vec![]);
    assert_eq!(none.start(), Ok(()));
    assert_eq!(none.stop(), Ok(()));
    assert_eq!(none.capture_frame(), Ok(vec![]));

    let two = MultiDeviceCamera::new(vec![DeviceCameraFake::new(), DeviceCameraFake::new()]);
    assert_eq!(two.start(), Ok(()));
    let frames = two.capture_frame().unwrap();
    assert_eq!(frames, vec![vec![0u8; 30_000], vec![0u8; 30_000]]);
    assert_eq!(two.stop(), Ok(()));

    let nested = MultiDeviceCamera::new(vec![
        MultiDeviceCamera::new(vec![DeviceCameraFake::new(), DeviceCameraFake::new()]),
        MultiDeviceCamera::new(vec![DeviceCameraFake::new()]),
    ]);
    assert_eq!(nested.capture_frame().unwrap().len(), 3);
}

#[test]
fn gather_frames_on_given_values() {
    assert_eq!(
        gather_frames(vec![vec![1], vec![2, 3]], Ok(vec![vec![4], vec![]])),
        Ok(vec![vec![1], vec![2, 3], vec![4], vec![]])
    );
    assert_eq!(gather_frames(vec![], Ok(vec![])), Ok(vec![]));
    assert_eq!(gather_frames(vec![vec![9]], Ok(vec![])), Ok(vec![vec![9]]));
    assert_eq!(
        gather_frames(vec![vec![1]], Err(DeviceError::new("lens cap"))),
        Err(DeviceError::new("lens cap"))
    );
}

#[test]
fn multi_camera_reports_when_all_are_there() {
    let mut cameras = MultiDeviceCamera::new(vec![
        DeviceCameraFake::new(),
        DeviceCameraFake::new(),
        DeviceCameraFake::new(),
    ]);
    assert_eq!(cameras.on_event(DeviceCameraEvent::Connected), None);
    assert_eq!(cameras.on_event(DeviceCameraEvent::Connected), None);
    assert_eq!(cameras.on_event(DeviceCameraEvent::Connected), Some(DeviceCameraEvent::Connected));
    assert_eq!(cameras.on_event(DeviceCameraEvent::Disconnected), None);
    assert_eq!(cameras.on_event(DeviceCameraEvent::Connected), Some(DeviceCameraEvent::Connected));
    assert_eq!(cameras.on_event(DeviceCameraEvent::Connected), None);
    assert_eq!(cameras.on_event(DeviceCameraEvent::Disconnected), None);
    assert_eq!(cameras.on_event(DeviceCameraEvent::Disconnected), None);
    assert_eq!(cameras.on_event(DeviceCameraEvent::Disconnected), None);
    assert_eq!(
        cameras.on_event(DeviceCameraEvent::Disconnected),
        Some(DeviceCameraEvent::Disconnected)
    );
    assert_eq!(
        cameras.on_event(DeviceCameraEvent::Disconnected),
        Some(DeviceCameraEvent::Disconnected)
    );
    assert_eq!(cameras.on_event(DeviceCameraEvent::Connected), None);
}

#[test]
fn multi_camera_of_one() {
    let mut cameras = MultiDeviceCamera::new(vec![DeviceCameraFake::new()]);
    assert_eq!(cameras.on_event(DeviceCameraEvent::Connected), Some(DeviceCameraEvent::Connected));
    assert_eq!(
        cameras.on_event(DeviceCameraEvent::Disconnected),
        Some(DeviceCameraEvent::Disconnected)
    );
    assert_eq!(cameras.on_event(DeviceCameraEvent::Connected), Some(DeviceCameraEvent::Connected));
}

#[test]
fn fake_classifier_goes_round() {
    let mut classifier = ImageClassifierFake::new();
    let one = vec![vec![0u8; 4]];
    assert_eq!(classifier.classify(&one), Ok(vec![vec![seen("dog", 900_000)]]));
    assert_eq!(classifier.classify(&one), Ok(vec![vec![seen("cat", 800_000)]]));
    assert_eq!(classifier.classify(&one), Ok(vec![vec![seen("dog", 300_000)]]));
    assert_eq!(classifier.classify(&one), Ok(vec![vec![seen("cat", 200_000)]]));
    assert_eq!(classifier.classify(&one), Ok(vec![vec![seen("dog", 900_000)]]));
}

#[test]
fn fake_classifier_gives_one_list_for_each_frame() {
    let mut classifier = ImageClassifierFake::new();
    assert_eq!(classifier.classify(&vec![]), Ok(vec![]));
    let three = vec![vec![1u8], vec![], vec![2u8, 3]];
    assert_eq!(
        classifier.classify(&three),
        Ok(vec![
            vec![seen("cat", 800_000)],
            vec![seen("cat", 800_000)],
            vec![seen("cat", 800_000)],
        ])
    );
}

#[test]
fn relay_config_default_pin() {
    assert_eq!(DogDoorRaspberryPiConfig::default(), DogDoorRaspberryPiConfig { gpio_pin: 17 });
}

#[test]
fn relay_powers_the_magnet_to_lock() {
    let mut relay = DogDoorRaspberryPiRelay::new(DogDoorRaspberryPiConfig { gpio_pin: 4 });
    assert_eq!(relay.config.gpio_pin, 4);
    assert!(relay.is_unlocked());
    assert_eq!(relay.unlock(), None);
    assert_eq!(relay.lock(), Some(RelayLevel::High));
    assert!(!relay.is_unlocked());
    assert_eq!(relay.lock(), None);
    assert!(!relay.is_unlocked());
    assert_eq!(relay.unlock(), Some(RelayLevel::Low));
    assert!(relay.is_unlocked());
    assert_eq!(relay.unlock(), None);
}

#[test]
fn relay_locks_on_shutdown() {
    let mut relay = DogDoorRaspberryPiRelay::new(DogDoorRaspberryPiConfig::default());
    assert_eq!(relay.shutdown(), Some(RelayLevel::High));
    assert!(!relay.is_unlocked());
    assert_eq!(relay.shutdown(), None);
    assert!(!relay.is_unlocked());
}

#[test]
fn relay_reads_its_link() {
    assert_eq!(DogDoorRaspberryPiRelay::link_event(0), DeviceDoorEvent::Connected);
    assert_eq!(DogDoorRaspberryPiRelay::link_event(1), DeviceDoorEvent::Disconnected);
    assert_eq!(DogDoorRaspberryPiRelay::link_event(255), DeviceDoorEvent::Disconnected);
}

#[test]
fn random_round_draws_below_the_bound() {
    let quiet = vec![ScriptStep::Wait(Duration::from_nanos(ROUND_NANOS))];
    let away = vec![
        ScriptStep::Wait(Duration::from_nanos(ROUND_NANOS)),
        ScriptStep::Emit('g'),
        ScriptStep::Wait(Duration::from_nanos(AWAY_NANOS)),
        ScriptStep::Emit('b'),
    ];
    for _ in 0..50 {
        assert_eq!(random_round(1, 1, 'g', 'b'), away);
        assert_eq!(random_round(7, 7, 'g', 'b'), away);
        assert_eq!(random_round(7, 0, 'g', 'b'), quiet);
        assert_eq!(random_round(DRAWS, DRAWS, 'g', 'b'), away);
        assert_eq!(random_round(u32::MAX, u32::MAX, 'g', 'b'), away);
    }
    let mut seen_away = false;
    let mut seen_quiet = false;
    for _ in 0..2_000 {
        let steps = random_round(2, 1, 'g', 'b');
        assert!(steps == away || steps == quiet);
        seen_away = seen_away || steps == away;
        seen_quiet = seen_quiet || steps == quiet;
    }
    assert!(seen_away && seen_quiet);
}

#[test]
fn fake_devices_draw_their_rounds() {
    let door = DeviceDoorFake::new();
    let camera = DeviceCameraFake::new();
    for _ in 0..200 {
        let steps = door.events_round();
        assert!(steps == door.events_round_for(0) || steps == door.events_round_for(DRAWS - 1));
        let steps = camera.events_round();
        assert!(
            steps == camera.events_round_for(0) || steps == camera.events_round_for(DRAWS - 1)
        );
    }
}

struct CountingCamera {
    fails_with: Option<&'static str>,
    calls: std::rc::Rc<std::cell::Cell<u32>>,
}

impl CountingCamera {
    fn call(&self) -> Result<(), DeviceError> {
        self.calls.set(self.calls.get() + 1);
        match self.fails_with {
            Some(message) => Err(DeviceError::new(message)),
            None => Ok(()),
        }
    }
}

impl DeviceCamera for CountingCamera {
    fn never_fails(&self) -> bool {
        unreachable!()
    }

    fn can_capture(&self, _frames: vstd::seq::Seq<vstd::seq::Seq<u8>>) -> bool {
        unreachable!()
    }

    fn can_start(&self, _outcome: Result<(), vstd::seq::Seq<char>>) -> bool {
        unreachable!()
    }

    fn can_stop(&self, _outcome: Result<(), vstd::seq::Seq<char>>) -> bool {
        unreachable!()
    }

    fn start(&self) -> Result<(), DeviceError> {
        self.call()
    }

    fn stop(&self) -> Result<(), DeviceError> {
        self.call()
    }

    fn capture_frame(&self) -> Result<Vec<Vec<u8>>, DeviceError> {
        self.call().map(|_| vec![vec![1u8]])
    }
}

struct Counters {
    counters: Vec<std::rc::Rc<std::cell::Cell<u32>>>,
}

fn calls(counters: &Counters) -> Vec<u32> {
    counters.counters.iter().map(|c| c.get()).collect()
}

fn counting(fails: Vec<Option<&'static str>>) -> (Vec<CountingCamera>, Counters) {
    let mut cameras = vec![];
    let mut counters = vec![];
    for fails_with in fails {
        let calls = std::rc::Rc::new(std::cell::Cell::new(0));
        counters.push(calls.clone());
        cameras.push(CountingCamera { fails_with, calls });
    }
    (cameras, Counters { counters })
}

#[test]
fn multi_camera_starts_up_to_the_first_failure() {
    let (cameras, counters) = counting(vec![None, Some("lens cap"), Some("no power"), None]);
    let multi = MultiDeviceCamera::new(cameras);
    assert_eq!(multi.start(), Err(DeviceError::new("lens cap")));
    assert_eq!(calls(&counters), vec![1, 1, 0, 0]);

    let (cameras, counters) = counting(vec![None, None, None]);
    let multi = MultiDeviceCamera::new(cameras);
    assert_eq!(multi.start(), Ok(()));
    assert_eq!(calls(&counters), vec![1, 1, 1]);

    let (cameras, counters) = counting(vec![Some("first"), None]);
    let multi = MultiDeviceCamera::new(cameras);
    assert_eq!(multi.start(), Err(DeviceError::new("first")));
    assert_eq!(calls(&counters), vec![1, 0]);
}

#[test]
fn multi_camera_stops_up_to_the_first_failure() {
    let (cameras, counters) = counting(vec![None, None, Some("stuck")]);
    let multi = MultiDeviceCamera::new(cameras);
    assert_eq!(multi.stop(), Err(DeviceError::new("stuck")));
    assert_eq!(calls(&counters), vec![1, 1, 1]);

    let (cameras, counters) = counting(vec![Some("stuck"), Some("later")]);
    let multi = MultiDeviceCamera::new(cameras);
    assert_eq!(multi.stop(), Err(DeviceError::new("stuck")));
    assert_eq!(calls(&counters), vec![1, 0]);

    let (cameras, counters) = counting(vec![None, None]);
    let multi = MultiDeviceCamera::new(cameras);
    assert_eq!(multi.stop(), Ok(()));
    assert_eq!(calls(&counters), vec![1, 1]);
}

#[test]
fn multi_camera_captures_up_to_the_first_failure() {
    let (cameras, counters) = counting(vec![None, Some("dark"), None]);
    let multi = MultiDeviceCamera::new(cameras);
    assert_eq!(multi.capture_frame(), Err(DeviceError::new("dark")));
    assert_eq!(calls(&counters), vec![1, 1, 0]);
}
