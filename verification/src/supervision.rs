//! What the supervising service decides: how it answers the system's
//! control events, whether the agent runs, and how the scheduled task that
//! starts the agent is set up.
//!
//! The service itself, its processes and its log are the host's. What is
//! decided from plain text and plain events is decided here.

use vstd::prelude::*;
use vstd::string::{StrSliceExecFns, StringExecFns};
use crate::text::chars_of;

verus! {

/// The user-defined control code that stops the service.
pub const STOP_CODE: u32 = 130;

/// A control event that the system sends to the service.
#[derive(Clone, Copy, Debug, PartialEq, Eq, Structural)]
pub enum ControlEvent {
    /// The service is asked to report its status.
    Interrogate,
    /// The service is asked to stop.
    Stop,
    /// A user-defined event with its code.
    UserEvent(u32),
    /// Any other event.
    Other,
}

/// What the service answers to a control event.
#[derive(Clone, Copy, Debug, PartialEq, Eq, Structural)]
pub enum ControlReply {
    NoError,
    NotImplemented,
}

/// What became of the wait for a stop request.
#[derive(Clone, Copy, Debug, PartialEq, Eq, Structural)]
pub enum Poll {
    /// A stop request arrived.
    Stopped,
    /// Nobody is left who could send one.
    Disconnected,
    /// The wait timed out.
    TimedOut,
}

/// The answer to a control event: interrogation, stop and user-defined
/// events are accepted, nothing else is implemented.
pub open spec fn reply_to(event: ControlEvent) -> ControlReply {
    match event {
        ControlEvent::Interrogate => ControlReply::NoError,
        ControlEvent::Stop => ControlReply::NoError,
        ControlEvent::UserEvent(_) => ControlReply::NoError,
        ControlEvent::Other => ControlReply::NotImplemented,
    }
}

/// A control event asks the service to shut down: a stop does, and so does
/// the user-defined event with the stop code.
pub open spec fn asks_to_stop(event: ControlEvent) -> bool {
    match event {
        ControlEvent::Stop => true,
        ControlEvent::UserEvent(code) => code == STOP_CODE,
        _ => false,
    }
}

/// `pattern` stands in `text` at index `at`.
pub open spec fn occurs_at(text: Seq<char>, at: int, pattern: Seq<char>) -> bool {
    0 <= at && at + pattern.len() <= text.len() && text.subrange(at, at + pattern.len())
        == pattern
}

/// `pattern` stands somewhere in `text`.
pub open spec fn occurs_in(text: Seq<char>, pattern: Seq<char>) -> bool {
    exists|at: int| occurs_at(text, at, pattern)
}

/// `text` with every occurrence of `from` replaced by `to`. Occurrences are
/// taken from the left and do not overlap; an empty pattern occurs nowhere.
pub open spec fn replaced(text: Seq<char>, from: Seq<char>, to: Seq<char>) -> Seq<char>
    decreases text.len(),
{
    if from.len() == 0 || text.len() < from.len() {
        text
    } else if occurs_at(text, 0, from) {
        to + replaced(text.skip(from.len() as int), from, to)
    } else {
        seq![text[0]] + replaced(text.skip(1), from, to)
    }
}

/// The description of a scheduled task, changed so that the task also
/// starts and keeps running on battery power.
pub open spec fn allowed_on_batteries(task: Seq<char>) -> Seq<char> {
    replaced(
        replaced(
            task,
            "<DisallowStartIfOnBatteries>true</DisallowStartIfOnBatteries>"@,
            "<DisallowStartIfOnBatteries>false</DisallowStartIfOnBatteries>"@,
        ),
        "<StopIfGoingOnBatteries>true</StopIfGoingOnBatteries>"@,
        "<StopIfGoingOnBatteries>false</StopIfGoingOnBatteries>"@,
    )
}

impl ControlEvent {
    /// What the service answers to the event.
    pub fn reply(&self) -> (reply: ControlReply)
        ensures
            reply == reply_to(*self),
    {
        match self {
            ControlEvent::Interrogate => ControlReply::NoError,
            ControlEvent::Stop => ControlReply::NoError,
            ControlEvent::UserEvent(_) => ControlReply::NoError,
            ControlEvent::Other => ControlReply::NotImplemented,
        }
    }

    /// Whether the event asks the service to shut down.
    pub fn stops(&self) -> (stop: bool)
        ensures
            stop == asks_to_stop(*self),
    {
        match self {
            ControlEvent::Stop => true,
            ControlEvent::UserEvent(code) => *code == STOP_CODE,
            _ => false,
        }
    }
}

impl Poll {
    /// Whether the service goes on: it does while nothing but the time-out
    /// ends its wait.
    pub fn keeps_running(&self) -> (running: bool)
        ensures
            running == (*self == Poll::TimedOut),
    {
        match self {
            Poll::TimedOut => true,
            _ => false,
        }
    }
}

/// Whether `pattern` stands in `text` at index `at`.
pub fn matches_at(text: &Vec<char>, at: usize, pattern: &Vec<char>) -> (found: bool)
    requires
        at + pattern.len() <= text.len(),
    ensures
        found == occurs_at(text@, at as int, pattern@),
{
    let mut i: usize = 0;
    while i < pattern.len()
        invariant
            i <= pattern.len(),
            at + pattern.len() <= text.len(),
            forall|j: int| 0 <= j < i ==> text@[at + j] == pattern@[j],
        decreases pattern.len() - i,
    {
        if text[at + i] != pattern[i] {
            proof {
                let stretch = text@.subrange(at as int, at + pattern@.len());
                assert(stretch[i as int] == text@[at + i]);
            }
            return false;
        }
        i += 1;
    }
    proof {
        assert(text@.subrange(at as int, at + pattern@.len()) =~= pattern@);
    }
    true
}

/// Whether `name` stands somewhere in `output`: whether a listing of
/// processes or services mentions the one that is asked for.
pub fn mentions(output: &str, name: &str) -> (found: bool)
    ensures
        found == occurs_in(output@, name@),
{
    let text = chars_of(output);
    let pattern = chars_of(name);
    if pattern.len() > text.len() {
        return false;
    }
    let last: usize = text.len() - pattern.len();
    let mut at: usize = 0;
    loop
        invariant
            at <= last,
            last + pattern.len() == text.len(),
            text@ == output@,
            pattern@ == name@,
            forall|earlier: int| 0 <= earlier < at ==> !occurs_at(output@, earlier, name@),
        decreases last - at,
    {
        if matches_at(&text, at, &pattern) {
            return true;
        }
        if at == last {
            return false;
        }
        at += 1;
    }
}

/// `text` with every occurrence of `from` replaced by `to`.
pub fn replace_all(text: &str, from: &str, to: &str) -> (out: String)
    ensures
        out@ == replaced(text@, from@, to@),
{
    let chars = chars_of(text);
    let pattern = chars_of(from);
    if pattern.len() == 0 || chars.len() < pattern.len() {
        return String::from_str(text);
    }
    let mut out = String::new();
    let mut kept: usize = 0;
    let mut at: usize = 0;
    proof {
        assert(text@.subrange(0, 0) =~= Seq::<char>::empty());
        assert(text@.skip(0) =~= text@);
        assert(out@ + text@.subrange(0, 0) + replaced(text@.skip(0), from@, to@) =~= replaced(
            text@,
            from@,
            to@,
        ));
    }
    while chars.len() - at >= pattern.len()
        invariant
            kept <= at <= chars.len(),
            pattern.len() > 0,
            chars@ == text@,
            pattern@ == from@,
            out@ + text@.subrange(kept as int, at as int) + replaced(
                text@.skip(at as int),
                from@,
                to@,
            ) == replaced(text@, from@, to@),
        decreases chars.len() - at,
    {
        let ghost rest = text@.skip(at as int);
        let found = matches_at(&chars, at, &pattern);
        proof {
            assert(rest.subrange(0, from@.len() as int) =~= text@.subrange(
                at as int,
                at + from@.len(),
            ));
            assert(found == occurs_at(rest, 0, from@));
            assert(rest[0] == text@[at as int]);
            assert(rest.skip(1) =~= text@.skip(at + 1));
            assert(rest.skip(from@.len() as int) =~= text@.skip(at + from@.len()));
        }
        if found {
            let ghost before = out@ + text@.subrange(kept as int, at as int);
            out.append(text.substring_char(kept, at));
            out.append(to);
            at += pattern.len();
            kept = at;
            proof {
                assert(text@.subrange(kept as int, at as int) =~= Seq::<char>::empty());
                assert(out@ + text@.subrange(kept as int, at as int) + replaced(
                    text@.skip(at as int),
                    from@,
                    to@,
                ) =~= before + (to@ + replaced(text@.skip(at as int), from@, to@)));
            }
        } else {
            proof {
                assert(text@.subrange(kept as int, at + 1) =~= text@.subrange(
                    kept as int,
                    at as int,
                ) + seq![text@[at as int]]);
                assert(out@ + text@.subrange(kept as int, at + 1) + replaced(
                    text@.skip(at + 1),
                    from@,
                    to@,
                ) =~= out@ + text@.subrange(kept as int, at as int) + (seq![text@[at as int]]
                    + replaced(text@.skip(at + 1), from@, to@)));
            }
            at += 1;
        }
    }
    out.append(text.substring_char(kept, chars.len()));
    proof {
        assert(text@.subrange(kept as int, at as int) + text@.skip(at as int) =~= text@.subrange(
            kept as int,
            chars@.len() as int,
        ));
        assert(out@ =~= replaced(text@, from@, to@));
    }
    out
}

/// Changes the description of a scheduled task so that the task also
/// starts and keeps running on battery power.
pub fn allow_on_batteries(task: &str) -> (changed: String)
    ensures
        changed@ == allowed_on_batteries(task@),
{
    let started = replace_all(
        task,
        "<DisallowStartIfOnBatteries>true</DisallowStartIfOnBatteries>",
        "<DisallowStartIfOnBatteries>false</DisallowStartIfOnBatteries>",
    );
    replace_all(
        started.as_str(),
        "<StopIfGoingOnBatteries>true</StopIfGoingOnBatteries>",
        "<StopIfGoingOnBatteries>false</StopIfGoingOnBatteries>",
    )
}

} // verus!
