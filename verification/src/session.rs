//! One connected session, from the bytes of the transport to the frames for
//! the sink, and the life cycle of the connection around it.

use crate::framer::{is_noise, step, Framing, ItmHeader, ItmPacket, UnknownHeader};
use crate::pipeline::{reaction, Answer, Pipeline, PipelineModel, Reaction};
use crate::symbols::Symbols;
use vstd::prelude::*;

verus! {

/// Where the connection to the trace source stands.
#[derive(Clone, Copy, Debug, PartialEq, Eq)]
pub enum Link {
    /// A connection attempt is under way or due.
    Connecting,
    /// Bytes are being read.
    Connected,
    /// The transport ended; the session is over and a new attempt is due.
    LostConnection,
    /// The session ended on corrupted input that cannot be recovered from.
    Terminated,
}

/// What can happen to the connection.
#[derive(Clone, Copy, Debug, PartialEq, Eq)]
pub enum LinkEvent {
    ConnectSucceeded,
    /// The attempt failed or timed out.
    ConnectFailed,
    ByteRead,
    /// A read returned no byte or an error.
    ReadEnded,
    /// The decoder met corrupted input and cannot recover.
    Corruption,
}

/// What the caller does next.
#[derive(Clone, Copy, Debug, PartialEq, Eq)]
pub enum Directive {
    /// Attempt a connection, and start a fresh session when it succeeds.
    Connect,
    /// Read the next byte and hand it to the session.
    Serve,
    /// Stop, and report the corruption.
    Exit,
}

/// The life cycle of a connection. A failed attempt is retried; a session
/// that loses its transport is followed by a new attempt; unrecoverable
/// corruption is final. An event that cannot happen in a state leaves it
/// as it is.
pub open spec fn next_link(link: Link, event: LinkEvent) -> Link {
    match (link, event) {
        (Link::Connecting, LinkEvent::ConnectSucceeded) => Link::Connected,
        (Link::LostConnection, LinkEvent::ConnectSucceeded) => Link::Connected,
        (Link::LostConnection, LinkEvent::ConnectFailed) => Link::Connecting,
        (Link::Connected, LinkEvent::ReadEnded) => Link::LostConnection,
        (Link::Connected, LinkEvent::Corruption) => Link::Terminated,
        (unchanged, _) => unchanged,
    }
}

/// What is due in a state.
pub open spec fn due(link: Link) -> Directive {
    match link {
        Link::Connecting => Directive::Connect,
        Link::LostConnection => Directive::Connect,
        Link::Connected => Directive::Serve,
        Link::Terminated => Directive::Exit,
    }
}

/// The state after all of `events`, from `link`.
pub open spec fn link_after(link: Link, events: Seq<LinkEvent>) -> Link
    decreases events.len(),
{
    if events.len() == 0 {
        link
    } else {
        link_after(next_link(link, events[0]), events.skip(1))
    }
}

/// Moves the connection on by one event.
pub fn advance(link: Link, event: LinkEvent) -> (next: Link)
    ensures
        next == next_link(link, event),
{
    match link {
        Link::Connecting => match event {
            LinkEvent::ConnectSucceeded => Link::Connected,
            _ => Link::Connecting,
        },
        Link::LostConnection => match event {
            LinkEvent::ConnectSucceeded => Link::Connected,
            LinkEvent::ConnectFailed => Link::Connecting,
            _ => Link::LostConnection,
        },
        Link::Connected => match event {
            LinkEvent::ReadEnded => Link::LostConnection,
            LinkEvent::Corruption => Link::Terminated,
            _ => Link::Connected,
        },
        Link::Terminated => Link::Terminated,
    }
}

/// Says what the caller does in a state.
pub fn directive(link: Link) -> (out: Directive)
    ensures
        out == due(link),
{
    match link {
        Link::Connecting => Directive::Connect,
        Link::LostConnection => Directive::Connect,
        Link::Connected => Directive::Serve,
        Link::Terminated => Directive::Exit,
    }
}

/// Unrecoverable corruption is a hard stop: whatever happens afterwards,
/// the connection stays terminated and nothing but the exit is due.
pub proof fn termination_is_final(events: Seq<LinkEvent>)
    ensures
        link_after(Link::Terminated, events) == Link::Terminated,
        due(link_after(Link::Terminated, events)) == Directive::Exit,
    decreases events.len(),
{
    if events.len() > 0 {
        termination_is_final(events.skip(1));
    }
}

/// A session that loses its transport is followed by connection attempts,
/// and the first that succeeds, after any number that fail, leads back to
/// a connected session.
pub proof fn lost_connection_reconnects(failures: nat)
    ensures
        due(next_link(Link::Connected, LinkEvent::ReadEnded)) == Directive::Connect,
        link_after(
            Link::Connected,
            seq![LinkEvent::ReadEnded] + Seq::new(failures, |i: int| LinkEvent::ConnectFailed)
                + seq![LinkEvent::ConnectSucceeded],
        ) == Link::Connected,
{
    let retries = Seq::new(failures, |i: int| LinkEvent::ConnectFailed) + seq![
        LinkEvent::ConnectSucceeded,
    ];
    let events = seq![LinkEvent::ReadEnded] + Seq::new(failures, |i: int| LinkEvent::ConnectFailed)
        + seq![LinkEvent::ConnectSucceeded];
    assert(events.skip(1) == retries);
    assert(events[0] == LinkEvent::ReadEnded);
    retries_end_connected(Link::LostConnection, failures);
}

/// From a state in which a connection is due, failed attempts followed by a
/// successful one end in a connected session.
proof fn retries_end_connected(link: Link, failures: nat)
    requires
        link == Link::Connecting || link == Link::LostConnection,
    ensures
        link_after(
            link,
            Seq::new(failures, |i: int| LinkEvent::ConnectFailed) + seq![
                LinkEvent::ConnectSucceeded,
            ],
        ) == Link::Connected,
    decreases failures,
{
    let events = Seq::new(failures, |i: int| LinkEvent::ConnectFailed) + seq![
        LinkEvent::ConnectSucceeded,
    ];
    if failures == 0 {
        assert(events[0] == LinkEvent::ConnectSucceeded);
        assert(events.skip(1).len() == 0);
        assert(link_after(Link::Connected, events.skip(1)) == Link::Connected);
    } else {
        let fewer = Seq::new((failures - 1) as nat, |i: int| LinkEvent::ConnectFailed) + seq![
            LinkEvent::ConnectSucceeded,
        ];
        assert(events[0] == LinkEvent::ConnectFailed);
        assert(events.skip(1) == fewer);
        retries_end_connected(Link::Connecting, (failures - 1) as nat);
    }
}

/// What a byte of the transport led to.
#[derive(Clone, Copy, Debug, PartialEq, Eq)]
pub enum Accepted<'a> {
    /// The byte was expected to be a header and is none: it was dropped.
    Noise(UnknownHeader),
    /// The byte was taken in and completed nothing.
    Quiet,
    /// The byte completed this payload: it goes to the decoder, which is
    /// then drained.
    Payload(&'a [u8]),
}

/// A session as mathematical values.
pub struct SessionModel {
    /// The stimulus port that is listened to.
    pub port: u8,
    pub framing: Framing,
    pub pipeline: PipelineModel,
}

/// What `accept` answers, by the state of the framer that takes the byte.
pub open spec fn acceptance(framing: Framing, port: u8, byte: u8, out: Accepted<'_>) -> bool {
    match step(framing, port, byte).1 {
        Some(payload) => out matches Accepted::Payload(bytes) && bytes@ == payload,
        None => if is_noise(framing, byte) {
            out == Accepted::Noise(UnknownHeader { byte })
        } else {
            out == Accepted::Quiet
        },
    }
}

/// The state of one connected session: a framer of its own, and the
/// pipeline that the answers of its decoder go through.
pub struct Session<'t> {
    port: u8,
    framer: ItmPacket,
    pipeline: Pipeline<'t>,
}

impl<'t> View for Session<'t> {
    type V = SessionModel;

    closed spec fn view(&self) -> SessionModel {
        SessionModel { port: self.port, framing: self.framer@, pipeline: self.pipeline@ }
    }
}

impl<'t> Session<'t> {
    /// Starts a session from a clean slate: the framer waits for a header.
    pub fn new(
        symbols: &'t Symbols,
        port: u8,
        current_dir: String,
        show_skipped_frames: bool,
        verbose: bool,
    ) -> (session: Session<'t>)
        ensures
            session@ == (SessionModel {
                port,
                framing: Framing::AwaitingHeader,
                pipeline: PipelineModel {
                    symbols: symbols@,
                    current_dir: current_dir@,
                    show_skipped_frames,
                    verbose,
                },
            }),
    {
        Session {
            port,
            framer: ItmPacket::new(),
            pipeline: Pipeline::new(symbols, current_dir, show_skipped_frames, verbose),
        }
    }

    /// Takes one byte of the transport: the framer makes its step, and a
    /// payload that the byte completed is handed out for the decoder. A
    /// byte that is noise to the framer is reported as such, and changes
    /// nothing.
    pub fn accept(&mut self, byte: u8) -> (out: Accepted<'_>)
        ensures
            acceptance(old(self)@.framing, old(self)@.port, byte, out),
            final(self)@ == (SessionModel {
                framing: step(old(self)@.framing, old(self)@.port, byte).0,
                ..old(self)@
            }),
    {
        let noise = if self.framer.awaits_header() {
            match ItmHeader::from_byte(byte) {
                Ok(_) => None,
                Err(unknown) => Some(unknown),
            }
        } else {
            None
        };
        match self.framer.receive(self.port, byte) {
            Some(payload) => Accepted::Payload(payload),
            None => match noise {
                Some(unknown) => Accepted::Noise(unknown),
                None => Accepted::Quiet,
            },
        }
    }

    /// What is to be done about an answer of the decoder, as
    /// `Pipeline::react` has it.
    pub fn react(&self, answer: Answer) -> (out: Reaction)
        ensures
            reaction(self@.pipeline, answer, out),
    {
        self.pipeline.react(answer)
    }
}

} // verus!
