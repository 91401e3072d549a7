use crate::error::DeviceError;
use crate::logger::interface::{worded, Logger};
use std::fmt::Write;
use vstd::prelude::*;
use vstd::string::StringExecFns;

verus! {

/// How the console's timestamps are written: the day, the time of day on
/// a clock of twelve hours to the millisecond, and the half of the day.
pub const TIMESTAMP_PATTERN: &'static str = "%Y-%m-%d %I:%M:%S%.3f %p";

/// A logger for the console. It words each message, puts the time of the
/// call before it, in the logger's time zone, and keeps the line until it is
/// taken to be printed.
#[derive(Clone, Debug, PartialEq, Eq)]
pub struct LoggerConsole {
    namespace: Option<String>,
    timezone: i32,
    pending: Vec<String>,
}

/// A worded message behind its timestamp, as the console shows it.
pub open spec fn stamped(timestamp: Seq<char>, text: Seq<char>) -> Seq<char> {
    seq!['['] + timestamp + seq![']', ' '] + text
}

/// chrono has a zone for the seconds east of UTC: less than a day to either
/// side.
pub open spec fn is_zone(seconds_east: int) -> bool {
    -86_400 < seconds_east < 86_400
}

/// `chrono::Utc::now`, moved by `DateTime::with_timezone` to the zone that
/// `FixedOffset::east_opt` makes of the seconds east of UTC, and written out
/// by `DateTime::format` with the pattern. The text that comes back depends
/// on the time of the call, so nothing is claimed of it. Nothing comes back
/// where chrono cannot write the pattern out, and where it has no such zone:
/// `east_opt` makes a zone only of less than a day to either side.
#[verifier::external_body]
fn timestamp_now(seconds_east: i32, pattern: &str) -> (stamp: Option<String>)
    ensures
        !is_zone(seconds_east as int) ==> stamp is None,
{
    let zone = chrono::FixedOffset::east_opt(seconds_east)?;
    let mut stamp = String::new();
    match write!(stamp, "{}", chrono::Utc::now().with_timezone(&zone).format(pattern)) {
        Ok(_) => Some(stamp),
        Err(_) => None,
    }
}

/// A worded message behind its timestamp, as the console shows it.
pub fn stamp_line(timestamp: &str, text: &str) -> (line: String)
    ensures
        line@ == stamped(timestamp@, text@),
{
    let mut line = String::new();
    line.push('[');
    line.append(timestamp);
    line.push(']');
    line.push(' ');
    line.append(text);
    line
}

impl LoggerConsole {
    /// The time zone of the timestamps, in seconds east of UTC.
    pub closed spec fn zone(&self) -> int {
        self.timezone as int
    }

    /// The lines that have not been taken yet, oldest first.
    pub closed spec fn pending(&self) -> Seq<Seq<char>> {
        self.pending.deep_view()
    }

    /// A logger without a namespace, with nothing pending.
    pub fn new(timezone: i32) -> (l: LoggerConsole)
        ensures
            l.namespace() == None::<Seq<char>>,
            l.zone() == timezone,
            l.pending() == Seq::<Seq<char>>::empty(),
    {
        let l = LoggerConsole { namespace: None, timezone, pending: Vec::new() };
        l
    }

    /// The time zone of the timestamps, in seconds east of UTC.
    pub fn timezone(&self) -> (zone: i32)
        ensures
            zone == self.zone(),
    {
        self.timezone
    }

    /// Takes a message in with the stamp that was made for it: words the
    /// message and keeps it behind the stamp. Where no stamp could be made,
    /// nothing is kept, and the error says so.
    pub fn record(&mut self, stamp: Option<String>, message: &str) -> (r: Result<(), DeviceError>)
        ensures
            stamp is Some ==> r is Ok && final(self).pending() == old(self).pending().push(
                stamped(stamp->Some_0@, worded(old(self).namespace(), message@)),
            ),
            stamp is None ==> r is Err && r->Err_0@ == "Invalid time zone"@,
            stamp is None ==> final(self).pending() == old(self).pending(),
            final(self).namespace() == old(self).namespace(),
            final(self).zone() == old(self).zone(),
    {
        match stamp {
            Some(stamp) => {
                let text = match &self.namespace {
                    Some(current) => {
                        let mut text = current.clone();
                        text.push(':');
                        text.push(' ');
                        text.append(message);
                        assert(text@ =~= worded(self.namespace(), message@));
                        text
                    },
                    None => message.to_owned(),
                };
                let line = stamp_line(stamp.as_str(), text.as_str());
                self.pending.push(line);
                assert(self.pending() =~= old(self).pending().push(
                    stamped(stamp@, worded(old(self).namespace(), message@)),
                ));
                Ok(())
            },
            None => Err(DeviceError::new("Invalid time zone")),
        }
    }

    /// Hands out the pending lines, oldest first, and keeps none.
    pub fn take_pending(&mut self) -> (lines: Vec<String>)
        ensures
            lines.deep_view() == old(self).pending(),
            final(self).pending() == Seq::<Seq<char>>::empty(),
            final(self).namespace() == old(self).namespace(),
            final(self).zone() == old(self).zone(),
    {
        let mut lines: Vec<String> = Vec::new();
        lines.append(&mut self.pending);
        lines
    }
}

impl Logger for LoggerConsole {
    closed spec fn namespace(&self) -> Option<Seq<char>> {
        match self.namespace {
            Some(current) => Some(current@),
            None => None,
        }
    }

    /// Words the message, puts the time of the call before it, and keeps
    /// the line. Where the time cannot be written out, as it cannot in a
    /// zone that does not exist, nothing is kept and the error says so.
    fn info(&mut self, message: &str) -> (r: Result<(), DeviceError>)
        ensures
            !is_zone(old(self).zone()) ==> r is Err,
            r is Ok ==> exists|stamp: Seq<char>|
                final(self).pending() == old(self).pending().push(
                    stamped(stamp, worded(old(self).namespace(), message@)),
                ),
            r is Err ==> r->Err_0@ == "Invalid time zone"@,
            r is Err ==> final(self).pending() == old(self).pending(),
            final(self).zone() == old(self).zone(),
    {
        let stamp = timestamp_now(self.timezone, TIMESTAMP_PATTERN);
        self.record(stamp, message)
    }

    fn with_namespace(&self, namespace: &str) -> (l: LoggerConsole)
        ensures
            l.zone() == self.zone(),
            l.pending() == Seq::<Seq<char>>::empty(),
    {
        let name = match &self.namespace {
            Some(current) => {
                let mut name = current.clone();
                name.push(':');
                name.append(namespace);
                name
            },
            None => namespace.to_owned(),
        };
        let l = LoggerConsole { namespace: Some(name), timezone: self.timezone, pending: Vec::new() };
        l
    }
}

} // verus!
