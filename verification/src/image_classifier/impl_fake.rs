use crate::device_camera::interface::Frame;
use crate::error::DeviceError;
use crate::image_classifier::interface::{Classification, ClassificationView, ImageClassifier};
use vstd::prelude::*;

verus! {

/// A classifier that exists in memory only. It does not look at the
/// frames: call by call it finds a dog, a cat, a doubtful dog, a doubtful
/// cat, and then starts over.
#[derive(Clone, Copy, Debug, PartialEq, Eq)]
pub struct ImageClassifierFake {
    counter: usize,
}

/// What the simulated classifier finds in every frame on its call number
/// `call`, counted from 0.
pub open spec fn fake_finding(call: nat) -> ClassificationView {
    if call % 4 == 0 {
        ClassificationView { confidence: 900_000, label: "dog"@ }
    } else if call % 4 == 1 {
        ClassificationView { confidence: 800_000, label: "cat"@ }
    } else if call % 4 == 2 {
        ClassificationView { confidence: 300_000, label: "dog"@ }
    } else {
        ClassificationView { confidence: 200_000, label: "cat"@ }
    }
}

/// The call number after `call`: it starts over where the machine's
/// numbers end.
pub open spec fn next_call(call: nat) -> nat {
    if call == usize::MAX {
        0
    } else {
        call + 1
    }
}

impl ImageClassifierFake {
    /// The number of calls made so far.
    pub closed spec fn calls(&self) -> nat {
        self.counter as nat
    }

    /// A classifier that has not been called yet.
    pub fn new() -> (c: ImageClassifierFake)
        ensures
            c.calls() == 0,
    {
        ImageClassifierFake { counter: 0 }
    }

    /// What the classifier finds on its next call.
    fn finding(&self) -> (c: Classification)
        ensures
            c@ == fake_finding(self.calls()),
    {
        let turn = self.counter % 4;
        if turn == 0 {
            Classification { confidence: 900_000, label: "dog".to_owned() }
        } else if turn == 1 {
            Classification { confidence: 800_000, label: "cat".to_owned() }
        } else if turn == 2 {
            Classification { confidence: 300_000, label: "dog".to_owned() }
        } else {
            Classification { confidence: 200_000, label: "cat".to_owned() }
        }
    }
}

impl ImageClassifier for ImageClassifierFake {
    open spec fn never_fails(&self) -> bool {
        true
    }

    open spec fn can_find(
        &self,
        frames: Seq<Seq<u8>>,
        found: Seq<Seq<ClassificationView>>,
    ) -> bool {
        found == Seq::new(frames.len(), |i: int| seq![fake_finding(self.calls())])
    }

    fn classify(&mut self, frames: &Vec<Frame>) -> (r: Result<Vec<Vec<Classification>>, DeviceError>)
        ensures
            final(self).calls() == next_call(old(self).calls()),
    {
        let mut found: Vec<Vec<Classification>> = Vec::new();
        let mut i: usize = 0;
        while i < frames.len()
            invariant
                i <= frames@.len(),
                found@.len() == i,
                *self == *old(self),
                forall|k: int|
                    0 <= k < i ==> (#[trigger] found.deep_view()[k]) == seq![
                        fake_finding(self.calls()),
                    ],
            decreases frames@.len() - i,
        {
            let ghost before = found.deep_view();
            let in_frame = vec![self.finding()];
            found.push(in_frame);
            assert forall|k: int| 0 <= k < i + 1 implies (#[trigger] found.deep_view()[k]) == seq![
                fake_finding(self.calls()),
            ] by {
                if k < i {
                    assert(found.deep_view()[k] == before[k]);
                }
            }
            i += 1;
        }
        self.counter = self.counter.wrapping_add(1);
        assert(found.deep_view() =~= Seq::new(
            frames.deep_view().len(),
            |i: int| seq![fake_finding(old(self).calls())],
        ));
        Ok(found)
    }
}

} // verus!
