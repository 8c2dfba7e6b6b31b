use vstd::prelude::*;
use crate::channel::Channel;
use crate::error::Error;
use crate::rpc::{create_session_text, Rpc};

verus! {

/// Settings of a logical connection.
pub struct ChannelBuilder {
    subchan_count: usize,
    phy_port: u8,
    timeout_ms: usize,
}

impl ChannelBuilder {
    pub closed spec fn count(&self) -> usize {
        self.subchan_count
    }

    pub closed spec fn port(&self) -> u8 {
        self.phy_port
    }

    pub closed spec fn timeout(&self) -> usize {
        self.timeout_ms
    }

    /// A connection over the physical port `port`, with 128 sessions and no
    /// time budget per poll window.
    pub fn new(port: u8) -> (r: ChannelBuilder)
        ensures
            r.count() == 128,
            r.port() == port,
            r.timeout() == 0,
    {
        ChannelBuilder { subchan_count: 128, phy_port: port, timeout_ms: 0 }
    }

    /// Sets the number of sessions.
    pub fn subchan_count(self, count: usize) -> (r: ChannelBuilder)
        requires
            count > 0,
        ensures
            r.count() == count,
            r.port() == self.port(),
            r.timeout() == self.timeout(),
    {
        ChannelBuilder { subchan_count: count, ..self }
    }

    /// Sets the time budget of a poll window, in milliseconds.
    pub fn timeout_ms(self, timeout_ms: usize) -> (r: ChannelBuilder)
        ensures
            r.timeout() == timeout_ms,
            r.count() == self.count(),
            r.port() == self.port(),
    {
        ChannelBuilder { timeout_ms, ..self }
    }

    /// The number of sessions.
    pub fn get_subchan_count(&self) -> (r: usize)
        ensures
            r == self.count(),
    {
        self.subchan_count
    }

    /// The physical port.
    pub fn get_phy_port(&self) -> (r: u8)
        ensures
            r == self.port(),
    {
        self.phy_port
    }

    /// The time budget of a poll window, in milliseconds.
    pub fn get_timeout_ms(&self) -> (r: usize)
        ensures
            r == self.timeout(),
    {
        self.timeout_ms
    }

    /// The bring-up of the connection's sessions.
    pub fn connector(&self) -> (r: Connector)
        requires
            self.count() > 0,
        ensures
            r.count() == self.count(),
            r.connected() == Seq::<i32>::empty(),
            r.waiting() is None,
    {
        Connector::new(self.subchan_count)
    }
}

/// What the engine thread is asked to do while a connection comes up.
#[derive(Clone, Copy, Debug, PartialEq, Eq, Structural)]
pub enum ConnectStep {
    /// Ask the engine for a new session; answer with `ConnectEvent::Created`.
    CreateSession,
    /// Run the engine's event loop once and answer with
    /// `ConnectEvent::Polled`, telling whether the session is connected.
    PollEngine(i32),
    /// Every session is connected.
    Ready,
}

/// What the engine reported of the step asked for.
#[derive(Clone, Copy, Debug, PartialEq, Eq, Structural)]
pub enum ConnectEvent {
    /// The engine's return code for a session creation: a session number,
    /// or a negated error number.
    Created(i32),
    /// Whether the session is connected after a poll.
    Polled(bool),
}

/// Brings up the sessions of a connection one after the other: each is
/// created, then the engine is polled until it is connected, with no pause.
/// A failed creation ends the bring-up.
pub struct Connector {
    count: usize,
    sids: Vec<i32>,
    waiting: Option<i32>,
}

impl Connector {
    /// The number of sessions to bring up.
    pub closed spec fn count(&self) -> usize {
        self.count
    }

    /// The sessions connected so far, in order.
    pub closed spec fn connected(&self) -> Seq<i32> {
        self.sids@
    }

    /// The session created and not connected yet, if any.
    pub closed spec fn waiting(&self) -> Option<i32> {
        self.waiting
    }

    /// The step asked for in the current state.
    pub open spec fn step_of(&self) -> ConnectStep {
        match self.waiting() {
            Some(sid) => ConnectStep::PollEngine(sid),
            None => if self.connected().len() >= self.count() {
                ConnectStep::Ready
            } else {
                ConnectStep::CreateSession
            },
        }
    }

    /// A bring-up of `count` sessions, none created yet.
    pub fn new(count: usize) -> (r: Connector)
        requires
            count > 0,
        ensures
            r.count() == count,
            r.connected() == Seq::<i32>::empty(),
            r.waiting() is None,
    {
        Connector { count, sids: Vec::new(), waiting: None }
    }

    /// The step asked for now; `CreateSession` for a new bring-up.
    pub fn current(&self) -> (r: ConnectStep)
        ensures
            r == self.step_of(),
    {
        match self.waiting {
            Some(sid) => ConnectStep::PollEngine(sid),
            None => if self.sids.len() >= self.count {
                ConnectStep::Ready
            } else {
                ConnectStep::CreateSession
            },
        }
    }

    /// Takes what the engine reported and gives the next step, recording
    /// sessions in `rpc`. A failed creation is an internal error, and
    /// changes nothing. An event that does not answer the current step
    /// changes nothing, and that step is asked again.
    pub fn next(&mut self, rpc: &mut Rpc, ev: ConnectEvent) -> (r: Result<ConnectStep, Error>)
        ensures
            final(self).count() == old(self).count(),
            final(rpc).id() == old(rpc).id(),
            final(rpc).port() == old(rpc).port(),
            match (old(self).step_of(), ev) {
                (ConnectStep::CreateSession, ConnectEvent::Created(rc)) => if rc < 0 {
                    &&& r is Err
                    &&& r->Err_0.is_internal()
                    &&& r->Err_0.text() == create_session_text(rc)
                    &&& final(self).connected() == old(self).connected()
                    &&& final(self).waiting() == old(self).waiting()
                    &&& final(rpc).sessions() == old(rpc).sessions()
                } else {
                    &&& r == Ok::<ConnectStep, Error>(ConnectStep::PollEngine(rc))
                    &&& final(self).connected() == old(self).connected()
                    &&& final(self).waiting() == Some(rc)
                    &&& final(rpc).sessions() == old(rpc).sessions().insert(rc, false)
                },
                (ConnectStep::PollEngine(sid), ConnectEvent::Polled(false)) => {
                    &&& r == Ok::<ConnectStep, Error>(ConnectStep::PollEngine(sid))
                    &&& final(self).connected() == old(self).connected()
                    &&& final(self).waiting() == old(self).waiting()
                    &&& final(rpc).sessions() == old(rpc).sessions()
                },
                (ConnectStep::PollEngine(sid), ConnectEvent::Polled(true)) => {
                    &&& final(self).connected() == old(self).connected().push(sid)
                    &&& final(self).waiting() is None
                    &&& r == Ok::<ConnectStep, Error>(final(self).step_of())
                    &&& old(rpc).sessions().contains_key(sid) ==> final(rpc).sessions() == old(
                        rpc,
                    ).sessions().insert(sid, true)
                    &&& !old(rpc).sessions().contains_key(sid) ==> final(rpc).sessions() == old(
                        rpc,
                    ).sessions()
                },
                _ => {
                    &&& r == Ok::<ConnectStep, Error>(old(self).step_of())
                    &&& final(self).connected() == old(self).connected()
                    &&& final(self).waiting() == old(self).waiting()
                    &&& final(rpc).sessions() == old(rpc).sessions()
                },
            },
    {
        let step = self.current();
        match (step, ev) {
            (ConnectStep::CreateSession, ConnectEvent::Created(rc)) => {
                let sid = rpc.create_session(rc)?;
                self.waiting = Some(sid);
                Ok(ConnectStep::PollEngine(sid))
            },
            (ConnectStep::PollEngine(sid), ConnectEvent::Polled(true)) => {
                rpc.set_connected(sid);
                self.sids.push(sid);
                self.waiting = None;
                Ok(self.current())
            },
            _ => Ok(step),
        }
    }

    /// The connection over the sessions brought up, in order of creation.
    pub fn into_channel(self) -> (r: Channel)
        ensures
            r.sessions() == self.connected(),
            r.cursor() == 0,
    {
        Channel::new(self.sids)
    }
}

} // verus!
