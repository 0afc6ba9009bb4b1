//! The decisions of the file tailer. The loop that performs them (opening,
//! reading, sleeping between ticks, sending) runs outside the library and
//! reports back what happened.

use vstd::prelude::*;

verus! {

/// A command to the tailer.
#[derive(Debug, Clone)]
pub enum TailCmd {
    /// Switch to the file at this path.
    Open(String),
    /// Send an empty delta.
    ForceUpdate,
    Stop,
}

/// What the tailer sends to the parser.
#[derive(Debug, Clone)]
pub enum TailMsg {
    Content(String),
    NewFile,
    Stop,
}

/// What the tailer's loop is to do next.
#[derive(Debug, Clone)]
pub enum TailAction {
    /// Close the current file, if any, and open this one.
    OpenFile(String),
    /// Send this message downstream.
    Send(TailMsg),
    /// Send this message downstream, then end the loop.
    SendAndStop(TailMsg),
}

/// The tailer's state: whether a file is open and whether it has stopped.
#[derive(Debug, Clone, Copy, PartialEq, Eq, Structural)]
pub struct Tail {
    pub open: bool,
    pub stopped: bool,
}

impl Tail {
    pub fn new() -> (r: Tail)
        ensures
            r == (Tail { open: false, stopped: false }),
    {
        Tail { open: false, stopped: false }
    }

    /// What a command asks of the loop.
    pub fn command(&mut self, cmd: TailCmd) -> (r: TailAction)
        ensures
            match cmd {
                TailCmd::Open(p) => r == TailAction::OpenFile(p) && *final(self) == *old(self),
                TailCmd::ForceUpdate => (r matches TailAction::Send(TailMsg::Content(s))
                    && s@.len() == 0) && *final(self) == *old(self),
                TailCmd::Stop => (r matches TailAction::SendAndStop(TailMsg::Stop))
                    && final(self).stopped && final(self).open == old(self).open,
            },
    {
        match cmd {
            TailCmd::Open(p) => TailAction::OpenFile(p),
            TailCmd::ForceUpdate => TailAction::Send(TailMsg::Content(String::new())),
            TailCmd::Stop => {
                self.stopped = true;
                TailAction::SendAndStop(TailMsg::Stop)
            },
        }
    }

    /// The outcome of opening a file: on success the parser is told that a
    /// new file begins; a failure stops the tailer, and the loop reports it.
    pub fn opened(&mut self, ok: bool) -> (r: Option<TailMsg>)
        ensures
            ok ==> (r matches Some(TailMsg::NewFile)) && final(self).open
                && final(self).stopped == old(self).stopped,
            !ok ==> r is None && !final(self).open && final(self).stopped,
    {
        if ok {
            self.open = true;
            Some(TailMsg::NewFile)
        } else {
            self.open = false;
            self.stopped = true;
            None
        }
    }

    /// Whether the loop should read on this tick.
    pub fn wants_read(&self) -> (r: bool)
        ensures
            r == (self.open && !self.stopped),
    {
        self.open && !self.stopped
    }

    /// The outcome of a read on one tick: what was appended since the last
    /// read, or `None` when the file could not be read. New text is sent;
    /// nothing is sent for an empty read; a file that cannot be read any
    /// more is dropped until the next `Open`.
    pub fn read(&mut self, appended: Option<String>) -> (r: Option<TailMsg>)
        ensures
            match appended {
                Some(s) => *final(self) == *old(self) && if s@.len() == 0 {
                    r is None
                } else {
                    r == Some(TailMsg::Content(s))
                },
                None => r is None && !final(self).open
                    && final(self).stopped == old(self).stopped,
            },
    {
        match appended {
            Some(s) => {
                if s.as_str().is_empty() {
                    None
                } else {
                    Some(TailMsg::Content(s))
                }
            },
            None => {
                self.open = false;
                None
            },
        }
    }
}

} // verus!
