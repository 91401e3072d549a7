use crate::error::DeviceError;
use vstd::prelude::*;

verus! {

/// A namespace with one more name behind it, after a colon.
pub open spec fn joined(namespace: Option<Seq<char>>, name: Seq<char>) -> Seq<char> {
    match namespace {
        Some(current) => current + seq![':'] + name,
        None => name,
    }
}

/// A message as a logger with the given namespace words it: the
/// namespace, a colon and a space before the message.
pub open spec fn worded(namespace: Option<Seq<char>>, message: Seq<char>) -> Seq<char> {
    match namespace {
        Some(current) => current + seq![':', ' '] + message,
        None => message,
    }
}

/// Where the controller and its devices tell what they do.
pub trait Logger: Sized {
    /// The namespace that this logger puts before its messages.
    spec fn namespace(&self) -> Option<Seq<char>>;

    /// Takes a message in. The namespace stays.
    fn info(&mut self, message: &str) -> (r: Result<(), DeviceError>)
        ensures
            final(self).namespace() == old(self).namespace(),
    ;

    /// A logger like this one whose namespace has one more name.
    fn with_namespace(&self, namespace: &str) -> (l: Self)
        ensures
            l.namespace() == Some(joined(self.namespace(), namespace@)),
    ;
}

} // verus!
