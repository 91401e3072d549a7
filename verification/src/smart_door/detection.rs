use crate::config::{ClassificationConfig, ClassificationConfigView, Config, ConfigView};
use crate::image_classifier::interface::{Classification, ClassificationView};
use crate::smart_door::model::ModelCamera;
use crate::text::{is_substring, lowercase, str_contains};
use vstd::prelude::*;

verus! {

/// What the latest classifications amount to under the configured lists.
#[derive(Clone, Copy, Debug, PartialEq, Eq, Structural)]
pub enum Detection {
    Cat,
    Dog,
    /// Neither of the two.
    Nothing,
}

/// The classification meets the entry: its label, in lowercase, holds the
/// entry's label, in lowercase, and its confidence is at least the entry's.
pub open spec fn entry_accepts(entry: ClassificationConfigView, c: ClassificationView) -> bool {
    is_substring(lowercase(entry.label), lowercase(c.label)) && c.confidence
        >= entry.min_confidence
}

/// Some entry of the list is met by the classification.
pub open spec fn list_accepts(list: Seq<ClassificationConfigView>, c: ClassificationView) -> bool {
    exists|k: int| 0 <= k < list.len() && entry_accepts(#[trigger] list[k], c)
}

/// Some classification of the frame meets an entry of the list.
pub open spec fn frame_shows(
    list: Seq<ClassificationConfigView>,
    frame: Seq<ClassificationView>,
) -> bool {
    exists|j: int| 0 <= j < frame.len() && list_accepts(list, #[trigger] frame[j])
}

/// Some frame holds a classification that meets an entry of the list.
pub open spec fn frames_show(
    list: Seq<ClassificationConfigView>,
    frames: Seq<Seq<ClassificationView>>,
) -> bool {
    exists|i: int| 0 <= i < frames.len() && frame_shows(list, #[trigger] frames[i])
}

/// An animal of the lock list is in the frames.
pub open spec fn cat_detected(config: ConfigView, frames: Seq<Seq<ClassificationView>>) -> bool {
    frames_show(config.lock_list, frames)
}

/// An animal of the unlock list is in the frames.
pub open spec fn dog_detected(config: ConfigView, frames: Seq<Seq<ClassificationView>>) -> bool {
    frames_show(config.unlock_list, frames)
}

/// The detection that the classifications amount to. An animal of the lock
/// list counts before one of the unlock list.
pub open spec fn detection(config: ConfigView, frames: Seq<Seq<ClassificationView>>) -> Detection {
    if cat_detected(config, frames) {
        Detection::Cat
    } else if dog_detected(config, frames) {
        Detection::Dog
    } else {
        Detection::Nothing
    }
}

/// Decides one entry against one classification, where both labels have been
/// put in lowercase already.
pub fn accepts_lowered(
    wanted: &str,
    min_confidence: u32,
    label: &str,
    confidence: u32,
) -> (accepted: bool)
    ensures
        accepted == (is_substring(wanted@, label@) && confidence >= min_confidence),
{
    str_contains(label, wanted) && confidence >= min_confidence
}

/// Decides one entry against one classification.
pub fn does_entry_accept(entry: &ClassificationConfig, c: &Classification) -> (accepted: bool)
    ensures
        accepted == entry_accepts(entry@, c@),
{
    let label = c.label.as_str().to_lowercase();
    let wanted = entry.label.as_str().to_lowercase();
    accepts_lowered(wanted.as_str(), entry.min_confidence, label.as_str(), c.confidence)
}

/// Decides a list against one classification.
pub fn does_list_accept(list: &Vec<ClassificationConfig>, c: &Classification) -> (accepted: bool)
    ensures
        accepted == list_accepts(list.deep_view(), c@),
{
    let mut k: usize = 0;
    while k < list.len()
        invariant
            k <= list.len(),
            forall|n: int| 0 <= n < k ==> !entry_accepts(#[trigger] list.deep_view()[n], c@),
        decreases list.len() - k,
    {
        if does_entry_accept(&list[k], c) {
            assert(entry_accepts(list.deep_view()[k as int], c@));
            return true;
        }
        k += 1;
    }
    false
}

/// Decides a list against the classifications of one frame.
pub fn does_frame_show(list: &Vec<ClassificationConfig>, frame: &Vec<Classification>) -> (shown:
    bool)
    ensures
        shown == frame_shows(list.deep_view(), frame.deep_view()),
{
    let mut j: usize = 0;
    while j < frame.len()
        invariant
            j <= frame.len(),
            forall|n: int|
                0 <= n < j ==> !list_accepts(list.deep_view(), #[trigger] frame.deep_view()[n]),
        decreases frame.len() - j,
    {
        if does_list_accept(list, &frame[j]) {
            assert(list_accepts(list.deep_view(), frame.deep_view()[j as int]));
            return true;
        }
        j += 1;
    }
    false
}

/// Decides a list against the classifications of all frames.
pub fn do_frames_show(list: &Vec<ClassificationConfig>, frames: &Vec<Vec<Classification>>) -> (shown:
    bool)
    ensures
        shown == frames_show(list.deep_view(), frames.deep_view()),
{
    let mut i: usize = 0;
    while i < frames.len()
        invariant
            i <= frames.len(),
            forall|n: int|
                0 <= n < i ==> !frame_shows(list.deep_view(), #[trigger] frames.deep_view()[n]),
        decreases frames.len() - i,
    {
        if does_frame_show(list, &frames[i]) {
            assert(frame_shows(list.deep_view(), frames.deep_view()[i as int]));
            return true;
        }
        i += 1;
    }
    false
}

/// The detection that the camera's latest classifications amount to.
pub fn to_detection(camera: &ModelCamera, config: &Config) -> (d: Detection)
    ensures
        d == detection(config@, camera@.latest_classifications),
        cat_detected(config@, camera@.latest_classifications) ==> d == Detection::Cat,
{
    if do_frames_show(&config.lock_list, &camera.latest_classifications) {
        Detection::Cat
    } else if do_frames_show(&config.unlock_list, &camera.latest_classifications) {
        Detection::Dog
    } else {
        Detection::Nothing
    }
}

/// Where an animal of the lock list is in the frames the detection is `Cat`,
/// whether or not an animal of the unlock list is there too.
pub proof fn lemma_cat_overrides_dog(config: ConfigView, frames: Seq<Seq<ClassificationView>>)
    requires
        cat_detected(config, frames),
    ensures
        detection(config, frames) == Detection::Cat,
{
}

/// Without classifications nothing is detected.
pub proof fn lemma_empty_frames_show_nothing(config: ConfigView, frames: Seq<Seq<ClassificationView>>)
    requires
        forall|i: int| 0 <= i < frames.len() ==> (#[trigger] frames[i]).len() == 0,
    ensures
        detection(config, frames) == Detection::Nothing,
{
}

} // verus!
