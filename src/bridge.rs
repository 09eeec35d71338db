use vstd::prelude::*;

use crate::command::{expects_response, line_expects_response};

verus! {

/// Where a connection stands, and so which side is read next.
#[derive(Clone, Copy, Debug, PartialEq, Eq, Structural)]
pub enum Phase {
    /// The next line is read from the client.
    AwaitCommand,
    /// The next line is read from the upstream server: the reply to the
    /// command just forwarded.
    AwaitReply,
    /// The connection pair is torn down; nothing more is read.
    Closed,
}

/// What a read brought, or that an I/O operation failed.
#[derive(Clone, Debug, PartialEq, Eq)]
pub enum Event {
    /// The bytes of one line read from the client, terminator included;
    /// empty at the end of the client's stream.
    FromClient(Vec<u8>),
    /// The bytes of one line read from the upstream server, terminator
    /// included; empty at the end of the upstream's stream.
    FromUpstream(Vec<u8>),
    /// A read, a write or the upstream connection failed.
    Failed,
}

/// What the connection's owner does next.
#[derive(Clone, Debug, PartialEq, Eq)]
pub enum Action {
    /// Write these bytes to the upstream server.
    ToUpstream(Vec<u8>),
    /// Write these bytes to the client.
    ToClient(Vec<u8>),
    /// The client closed its side: release both transports.
    Finish,
    /// A fatal error for this connection: release both transports.
    Abort,
}

/// The relay's decision: from the phase and what was read, the next phase and
/// the action to perform.
pub open spec fn transition(phase: Phase, event: Event) -> (Phase, Action) {
    match (phase, event) {
        (Phase::AwaitCommand, Event::FromClient(line)) => {
            if line@.len() == 0 {
                (Phase::Closed, Action::Finish)
            } else if line_expects_response(line@) {
                (Phase::AwaitReply, Action::ToUpstream(line))
            } else {
                (Phase::AwaitCommand, Action::ToUpstream(line))
            }
        },
        (Phase::AwaitReply, Event::FromUpstream(reply)) => {
            if reply@.len() == 0 {
                (Phase::Closed, Action::Abort)
            } else {
                (Phase::AwaitCommand, Action::ToClient(reply))
            }
        },
        (Phase::Closed, _) => (Phase::Closed, Action::Finish),
        _ => (Phase::Closed, Action::Abort),
    }
}

/// A command line is forwarded to the upstream byte for byte, terminator
/// included, and the connection stays open.
pub proof fn lemma_forwarded_verbatim(line: Vec<u8>)
    requires
        line@.len() > 0,
    ensures
        transition(Phase::AwaitCommand, Event::FromClient(line)).1 == Action::ToUpstream(line),
        transition(Phase::AwaitCommand, Event::FromClient(line)).0 != Phase::Closed,
{
}

/// After a command whose name the upstream answers has been forwarded, exactly
/// one reply line is read from the upstream and handed to the client before
/// the next client line is taken: the only way back to reading the client is
/// one non-empty upstream line, which goes to the client as it is; anything
/// else ends the connection.
pub proof fn lemma_reply_relayed_before_next_command(line: Vec<u8>, next: Event)
    requires
        line@.len() > 0,
        line_expects_response(line@),
    ensures
        transition(Phase::AwaitCommand, Event::FromClient(line)) == (
        Phase::AwaitReply,
        Action::ToUpstream(line),
        ),
        (transition(Phase::AwaitReply, next).0 == Phase::AwaitCommand) <==> (next is FromUpstream
            && next->FromUpstream_0@.len() > 0),
        transition(Phase::AwaitReply, next).0 == Phase::AwaitCommand ==> transition(
            Phase::AwaitReply,
            next,
        ).1 == Action::ToClient(next->FromUpstream_0),
        transition(Phase::AwaitReply, next).0 != Phase::AwaitCommand ==> transition(
            Phase::AwaitReply,
            next,
        ) == (Phase::Closed, Action::Abort),
{
}

/// After a command whose name the upstream does not answer has been
/// forwarded, nothing is read from the upstream: the next read is the
/// client's next line.
pub proof fn lemma_no_reply_awaited(line: Vec<u8>)
    requires
        line@.len() > 0,
        !line_expects_response(line@),
    ensures
        transition(Phase::AwaitCommand, Event::FromClient(line)) == (
        Phase::AwaitCommand,
        Action::ToUpstream(line),
        ),
{
}

/// The end of the client's stream closes the connection in order, and a
/// closed connection stays closed whatever comes after.
pub proof fn lemma_client_end_closes(end: Vec<u8>, later: Event)
    requires
        end@.len() == 0,
    ensures
        transition(Phase::AwaitCommand, Event::FromClient(end)) == (Phase::Closed, Action::Finish),
        transition(Phase::Closed, later).0 == Phase::Closed,
{
}

/// One client connection paired with its own upstream connection.
#[derive(Debug)]
pub struct Bridge {
    phase: Phase,
}

impl View for Bridge {
    type V = Phase;

    closed spec fn view(&self) -> Phase {
        self.phase
    }
}

impl Bridge {
    /// A bridge whose upstream connection has just been opened: it waits for
    /// the client's first command.
    pub fn new() -> (b: Bridge)
        ensures
            b@ == Phase::AwaitCommand,
    {
        Bridge { phase: Phase::AwaitCommand }
    }

    /// The current phase.
    pub fn phase(&self) -> (p: Phase)
        ensures
            p == self@,
    {
        self.phase
    }

    /// Whether the connection pair is still open.
    pub fn is_open(&self) -> (r: bool)
        ensures
            r == (self@ != Phase::Closed),
    {
        self.phase != Phase::Closed
    }

    /// Takes in what was read (or a failure) and returns what to do next.
    pub fn step(&mut self, event: Event) -> (action: Action)
        ensures
            (final(self)@, action) == transition(old(self)@, event),
    {
        let (phase, action) = match (self.phase, event) {
            (Phase::AwaitCommand, Event::FromClient(line)) => {
                if line.len() == 0 {
                    (Phase::Closed, Action::Finish)
                } else if expects_response(line.as_slice()) {
                    (Phase::AwaitReply, Action::ToUpstream(line))
                } else {
                    (Phase::AwaitCommand, Action::ToUpstream(line))
                }
            },
            (Phase::AwaitReply, Event::FromUpstream(reply)) => {
                if reply.len() == 0 {
                    (Phase::Closed, Action::Abort)
                } else {
                    (Phase::AwaitCommand, Action::ToClient(reply))
                }
            },
            (Phase::Closed, _) => (Phase::Closed, Action::Finish),
            _ => (Phase::Closed, Action::Abort),
        };
        self.phase = phase;
        action
    }
}

} // verus!
