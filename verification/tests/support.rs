use smart_pet_door::config::{mountain_standard_time, ClassificationConfig, Config};
use smart_pet_door::error::DeviceError;
use smart_pet_door::logger::impl_console::{stamp_line, LoggerConsole};
use smart_pet_door::logger::interface::Logger;
use smart_pet_door::time::{Duration, Instant, NANOS_PER_MILLI, NANOS_PER_SEC};

#[test]
fn config_default_values() {
    let config = Config::default();
    assert_eq!(config.tick_rate, Duration::from_secs(1));
    assert_eq!(config.camera_process_rate, Duration::from_secs(1));
    assert_eq!(config.min_duration_will_unlock, Duration::from_secs(1));
    assert_eq!(config.min_duration_will_lock, Duration::from_secs(3));
    assert_eq!(
        config.lock_list,
        vec![ClassificationConfig { label: "cat".to_string(), min_confidence: 500_000 }]
    );
    assert_eq!(
        config.unlock_list,
        vec![ClassificationConfig { label: "dog".to_string(), min_confidence: 500_000 }]
    );
    assert_eq!(config.logger_timezone, -7 * 3600);
    assert_eq!(mountain_standard_time(), -25_200);
}

#[test]
fn durations() {
    assert_eq!(NANOS_PER_SEC, 1_000_000_000);
    assert_eq!(NANOS_PER_MILLI, 1_000_000);
    assert_eq!(Duration::from_secs(0).as_nanos(), 0);
    assert_eq!(Duration::from_secs(3).as_nanos(), 3_000_000_000);
    assert_eq!(Duration::from_millis(1_500).as_nanos(), 1_500_000_000);
    assert_eq!(Duration::from_millis(0).as_nanos(), 0);
    assert_eq!(Duration::from_nanos(17).as_nanos(), 17);
    assert_eq!(Duration::from_secs(18_446_744_073).as_nanos(), 18_446_744_073_000_000_000);
    assert_eq!(Duration::from_millis(18_446_744_073_709).as_nanos(), 18_446_744_073_709_000_000);
}

#[test]
fn instants() {
    assert_eq!(Instant::origin(), Instant::from_nanos(0));
    let early = Instant::from_nanos(1_000);
    let late = Instant::from_nanos(4_500);
    assert_eq!(late.duration_since(early), Duration::from_nanos(3_500));
    assert_eq!(early.duration_since(late), Duration::from_nanos(0));
    assert_eq!(early.duration_since(early), Duration::from_nanos(0));
    assert_eq!(
        Instant::from_nanos(u64::MAX).duration_since(Instant::origin()),
        Duration::from_nanos(u64::MAX)
    );
}

#[test]
fn device_error_keeps_its_message() {
    let e = DeviceError::new("Invalid line number");
    assert_eq!(e.to_string(), "Invalid line number");
    assert_eq!(e, DeviceError { message: "Invalid line number".to_string() });
    assert_eq!(DeviceError::new("").to_string(), "");
}

fn is_timestamp(stamp: &str) -> bool {
    let shape = "dddd-dd-dd dd:dd:dd.ddd ?M";
    stamp.chars().count() == shape.chars().count()
        && stamp.chars().zip(shape.chars()).all(|(c, s)| match s {
            'd' => c.is_ascii_digit(),
            '?' => c == 'A' || c == 'P',
            other => c == other,
        })
}

fn parts(line: &str) -> (String, String) {
    assert!(line.starts_with('['));
    let end = line.find("] ").unwrap();
    (line[1..end].to_string(), line[end + 2..].to_string())
}

#[test]
fn logger_without_namespace() {
    let mut logger = LoggerConsole::new(-25_200);
    assert_eq!(logger.timezone(), -25_200);
    assert_eq!(logger.take_pending(), Vec::<String>::new());
    assert_eq!(logger.info("Starting camera..."), Ok(()));
    assert_eq!(logger.info(""), Ok(()));
    let lines = logger.take_pending();
    assert_eq!(lines.len(), 2);
    let (stamp, text) = parts(&lines[0]);
    assert!(is_timestamp(&stamp), "{}", stamp);
    assert_eq!(text, "Starting camera...");
    let (stamp, text) = parts(&lines[1]);
    assert!(is_timestamp(&stamp), "{}", stamp);
    assert_eq!(text, "");
    assert_eq!(logger.take_pending(), Vec::<String>::new());
}

#[test]
fn logger_namespaces_are_joined_by_colons() {
    let root = LoggerConsole::new(3_600);
    let mut camera = root.with_namespace("camera");
    let mut fake = camera.with_namespace("fake");
    let mut deeper = fake.with_namespace("").with_namespace("x");
    assert_eq!(fake.timezone(), 3_600);
    assert_eq!(camera.info("Camera started"), Ok(()));
    assert_eq!(fake.info("Frame captured"), Ok(()));
    assert_eq!(fake.info("again"), Ok(()));
    assert_eq!(deeper.info("m"), Ok(()));
    let texts = |lines: Vec<String>| lines.iter().map(|l| parts(l).1).collect::<Vec<String>>();
    assert_eq!(texts(camera.take_pending()), vec!["camera: Camera started".to_string()]);
    assert_eq!(
        texts(fake.take_pending()),
        vec!["camera:fake: Frame captured".to_string(), "camera:fake: again".to_string()]
    );
    assert_eq!(texts(deeper.take_pending()), vec!["camera:fake::x: m".to_string()]);
}

#[test]
fn logger_with_namespace_starts_with_nothing_pending() {
    let mut root = LoggerConsole::new(0);
    assert_eq!(root.info("kept by the root"), Ok(()));
    let mut child = root.with_namespace("door");
    assert_eq!(child.take_pending(), Vec::<String>::new());
    assert_eq!(parts(&root.take_pending()[0]).1, "kept by the root");
}

#[test]
fn logger_stamps_in_its_time_zone() {
    let mut east = LoggerConsole::new(86_399);
    let mut west = LoggerConsole::new(-86_399);
    assert_eq!(east.info("x"), Ok(()));
    assert_eq!(west.info("x"), Ok(()));
    let east_day = parts(&east.take_pending()[0]).0[..10].to_string();
    let west_day = parts(&west.take_pending()[0]).0[..10].to_string();
    assert!(east_day > west_day, "{} {}", east_day, west_day);
}

#[test]
fn logger_refuses_a_time_zone_that_does_not_exist() {
    for zone in [86_400, -86_400, i32::MAX, i32::MIN] {
        let mut logger = LoggerConsole::new(zone).with_namespace("n");
        assert_eq!(logger.info("lost").unwrap_err().to_string(), "Invalid time zone");
        assert_eq!(logger.take_pending(), Vec::<String>::new());
    }
}

#[test]
fn stamp_line_puts_the_time_in_brackets() {
    assert_eq!(
        stamp_line("2024-01-02 03:04:05.678 PM", "camera: Camera started"),
        "[2024-01-02 03:04:05.678 PM] camera: Camera started"
    );
    assert_eq!(stamp_line("", ""), "[] ");
}

#[test]
fn logger_records_a_message_behind_its_stamp() {
    let mut logger = LoggerConsole::new(0).with_namespace("door").with_namespace("fake");
    assert_eq!(logger.record(Some("2024-01-02 03:04:05.678 PM".to_string()), "Door locked"), Ok(()));
    assert_eq!(logger.record(Some("".to_string()), ""), Ok(()));
    assert_eq!(
        logger.take_pending(),
        vec![
            "[2024-01-02 03:04:05.678 PM] door:fake: Door locked".to_string(),
            "[] door:fake: ".to_string(),
        ]
    );
    let mut plain = LoggerConsole::new(0);
    assert_eq!(plain.record(Some("now".to_string()), "m"), Ok(()));
    assert_eq!(plain.take_pending(), vec!["[now] m".to_string()]);
}

#[test]
fn logger_records_nothing_without_a_stamp() {
    let mut logger = LoggerConsole::new(0);
    assert_eq!(logger.record(Some("now".to_string()), "kept"), Ok(()));
    assert_eq!(logger.record(None, "lost").unwrap_err().to_string(), "Invalid time zone");
    assert_eq!(logger.take_pending(), vec!["[now] kept".to_string()]);
}
