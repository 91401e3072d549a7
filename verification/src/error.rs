use vstd::prelude::*;

verus! {

/// Why a device call failed. The controller only ever asks whether a call
/// failed, never why: the message is for people.
#[derive(Clone, Debug, PartialEq, Eq)]
pub struct DeviceError {
    pub message: String,
}

impl View for DeviceError {
    type V = Seq<char>;

    open spec fn view(&self) -> Seq<char> {
        self.message@
    }
}

/// The value of the outcome of a call that gives nothing back but may
/// fail: nothing, or the message of the error.
pub open spec fn outcome_view(r: Result<(), DeviceError>) -> Result<(), Seq<char>> {
    match r {
        Ok(_) => Ok(()),
        Err(e) => Err(e@),
    }
}

impl DeviceError {
    pub fn new(message: &str) -> (e: DeviceError)
        ensures
            e@ == message@,
    {
        DeviceError { message: message.to_owned() }
    }

    /// The message, as it would be shown to a person.
    pub fn to_string(&self) -> (s: String)
        ensures
            s@ == self@,
    {
        self.message.clone()
    }
}

} // verus!
