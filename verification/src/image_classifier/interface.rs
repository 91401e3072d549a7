use crate::device_camera::interface::Frame;
use crate::error::DeviceError;
use vstd::prelude::*;

verus! {

/// The confidence that stands for certainty: confidences are counted in
/// millionths.
pub const CONFIDENCE_ONE: u32 = 1_000_000;

/// What the classifier saw in one place of one frame, and how sure it is.
#[derive(Clone, Debug, PartialEq, Eq)]
pub struct Classification {
    /// In millionths, from 0 to `CONFIDENCE_ONE`.
    pub confidence: u32,
    pub label: String,
}

/// The mathematical value of a `Classification`.
pub struct ClassificationView {
    pub confidence: nat,
    pub label: Seq<char>,
}

impl View for Classification {
    type V = ClassificationView;

    open spec fn view(&self) -> ClassificationView {
        ClassificationView { confidence: self.confidence as nat, label: self.label@ }
    }
}

impl DeepView for Classification {
    type V = ClassificationView;

    open spec fn deep_view(&self) -> ClassificationView {
        self@
    }
}

/// Every confidence is a probability.
pub open spec fn all_valid(found: Seq<Seq<ClassificationView>>) -> bool {
    forall|i: int, j: int|
        0 <= i < found.len() && 0 <= j < found[i].len() ==> (#[trigger] found[i][j]).confidence
            <= CONFIDENCE_ONE
}

/// What tells the animals in a frame.
pub trait ImageClassifier {
    /// The classifier carries out every call. It holds of a classifier in
    /// memory, and of no model that has to be loaded and run.
    spec fn never_fails(&self) -> bool;

    /// The findings are a result that this classifier, as it is now, can
    /// come back with for the frames.
    spec fn can_find(&self, frames: Seq<Seq<u8>>, found: Seq<Seq<ClassificationView>>) -> bool;

    /// Classifies the frames. The result holds one list for each frame, in
    /// the order of the frames: what was found in that frame.
    fn classify(&mut self, frames: &Vec<Frame>) -> (r: Result<Vec<Vec<Classification>>, DeviceError>)
        ensures
            old(self).never_fails() ==> r is Ok,
            r is Ok ==> r->Ok_0@.len() == frames@.len(),
            r is Ok ==> all_valid(r->Ok_0.deep_view()),
            r is Ok ==> old(self).can_find(frames.deep_view(), r->Ok_0.deep_view()),
            final(self).never_fails() == old(self).never_fails(),
    ;
}

} // verus!
