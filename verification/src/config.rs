use crate::time::Duration;
use vstd::prelude::*;

verus! {

/// One entry of a list of animals: a label to look for, and the least
/// confidence at which a classification counts.
#[derive(Clone, Debug, PartialEq, Eq)]
pub struct ClassificationConfig {
    pub label: String,
    /// In millionths: a million stands for certainty.
    pub min_confidence: u32,
}

/// The mathematical value of a `ClassificationConfig`.
pub struct ClassificationConfigView {
    pub label: Seq<char>,
    pub min_confidence: nat,
}

impl View for ClassificationConfig {
    type V = ClassificationConfigView;

    open spec fn view(&self) -> ClassificationConfigView {
        ClassificationConfigView {
            label: self.label@,
            min_confidence: self.min_confidence as nat,
        }
    }
}

impl DeepView for ClassificationConfig {
    type V = ClassificationConfigView;

    open spec fn deep_view(&self) -> ClassificationConfigView {
        self@
    }
}

/// The settings of the controller. They are fixed once it has started.
#[derive(Clone, Debug, PartialEq, Eq)]
pub struct Config {
    /// The time between two ticks.
    pub tick_rate: Duration,
    /// The least time between the starts of two capture cycles.
    pub camera_process_rate: Duration,
    /// Animals that lock the door.
    pub lock_list: Vec<ClassificationConfig>,
    /// Animals that unlock the door.
    pub unlock_list: Vec<ClassificationConfig>,
    /// The time zone of the log's timestamps, in seconds east of UTC.
    pub logger_timezone: i32,
    /// How long an intent to unlock must last before the door is unlocked.
    pub min_duration_will_unlock: Duration,
    /// How long an intent to lock must last before the door is locked.
    pub min_duration_will_lock: Duration,
}

/// The mathematical value of a `Config`: durations in nanoseconds, lists as
/// sequences.
pub struct ConfigView {
    pub tick_rate: nat,
    pub camera_process_rate: nat,
    pub lock_list: Seq<ClassificationConfigView>,
    pub unlock_list: Seq<ClassificationConfigView>,
    pub logger_timezone: int,
    pub min_duration_will_unlock: nat,
    pub min_duration_will_lock: nat,
}

impl View for Config {
    type V = ConfigView;

    open spec fn view(&self) -> ConfigView {
        ConfigView {
            tick_rate: self.tick_rate@,
            camera_process_rate: self.camera_process_rate@,
            lock_list: self.lock_list.deep_view(),
            unlock_list: self.unlock_list.deep_view(),
            logger_timezone: self.logger_timezone as int,
            min_duration_will_unlock: self.min_duration_will_unlock@,
            min_duration_will_lock: self.min_duration_will_lock@,
        }
    }
}

/// Nanoseconds in a second, as a number without a machine width.
pub open spec fn second() -> nat {
    1_000_000_000
}

/// The settings that `Config::default` gives.
pub open spec fn default_config() -> ConfigView {
    ConfigView {
        tick_rate: second(),
        camera_process_rate: second(),
        lock_list: seq![ClassificationConfigView { label: "cat"@, min_confidence: 500_000 }],
        unlock_list: seq![ClassificationConfigView { label: "dog"@, min_confidence: 500_000 }],
        logger_timezone: -25_200,
        min_duration_will_unlock: second(),
        min_duration_will_lock: 3 * second(),
    }
}

/// Mountain Standard Time: seven hours west of UTC.
pub fn mountain_standard_time() -> (offset: i32)
    ensures
        offset == -7 * 3600,
{
    -25_200
}

impl Default for Config {
    fn default() -> (c: Config)
        ensures
            c@ == default_config(),
    {
        let c = Config {
            tick_rate: Duration::from_secs(1),
            camera_process_rate: Duration::from_secs(1),
            logger_timezone: mountain_standard_time(),
            min_duration_will_unlock: Duration::from_secs(1),
            min_duration_will_lock: Duration::from_secs(3),
            lock_list: vec![ClassificationConfig {
                label: "cat".to_owned(),
                min_confidence: 500_000,
            }],
            unlock_list: vec![ClassificationConfig {
                label: "dog".to_owned(),
                min_confidence: 500_000,
            }],
        };
        assert(c@.lock_list =~= default_config().lock_list);
        assert(c@.unlock_list =~= default_config().unlock_list);
        c
    }
}

} // verus!
