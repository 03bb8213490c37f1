//! One exchange of a client with the server, as a state machine.
//!
//! A client sends one request on its durable connection and then reads frames from it.
//! In `Once` mode the first reply is the answer; in `Stream` mode every reply is handed on,
//! in order, until the connection fails or closes. The caller performs each action that
//! `Exchange::step` returns and feeds back what the network gave as the next event.
use vstd::prelude::*;
use crate::errors::TackboardError;
use crate::types::ServerResponse;

verus! {

/// How many replies an exchange waits for.
#[derive(Clone, Copy, Debug, PartialEq, Eq, Structural)]
pub enum Mode {
    /// One request, one reply.
    Once,
    /// One request, then every reply until the connection ends.
    Stream,
}

/// Where an exchange stands.
#[derive(Clone, Copy, Debug, PartialEq, Eq, Structural)]
pub enum Phase {
    /// The request is being sent.
    Sending,
    /// Replies are being read.
    Receiving,
    /// Nothing more happens.
    Finished,
}

/// The state of one exchange.
#[derive(Clone, Copy, Debug)]
pub struct Exchange {
    pub mode: Mode,
    pub phase: Phase,
}

/// What the network reports to an exchange.
#[derive(Debug)]
pub enum Event {
    /// The outcome of sending the request.
    Sent(Result<(), std::io::Error>),
    /// The next frame read from the connection: `None` when it closed.
    Received(Option<Result<ServerResponse, std::io::Error>>),
}

/// Why a streaming exchange ended.
#[derive(Debug)]
pub enum StopReason {
    /// The request could not be sent.
    SendFailed(std::io::Error),
    /// A reply could not be read.
    ReceiveFailed(std::io::Error),
    /// The server closed the connection.
    Closed,
}

/// What the caller does next.
#[derive(Debug)]
pub enum Action {
    /// Read the next frame and report it as `Event::Received`.
    Receive,
    /// Hand this reply on, then read the next frame and report it as `Event::Received`.
    Deliver(ServerResponse),
    /// The exchange is over; this is its answer.
    Return(Result<ServerResponse, TackboardError>),
    /// The stream of replies is over, for this reason.
    Stop(StopReason),
}

/// Whether `event` is what an exchange in state `x` waits for.
pub open spec fn expects(x: Exchange, event: Event) -> bool {
    match x.phase {
        Phase::Sending => event is Sent,
        Phase::Receiving => event is Received,
        Phase::Finished => false,
    }
}

/// One step of an exchange: its next state and the caller's next action.
pub open spec fn spec_step(x: Exchange, event: Event) -> (Exchange, Action) {
    let finished = Exchange { mode: x.mode, phase: Phase::Finished };
    match event {
        Event::Sent(Ok(())) => (Exchange { mode: x.mode, phase: Phase::Receiving }, Action::Receive),
        Event::Sent(Err(e)) => match x.mode {
            Mode::Once => (finished, Action::Return(Err(TackboardError::Io(e)))),
            Mode::Stream => (finished, Action::Stop(StopReason::SendFailed(e))),
        },
        Event::Received(Some(Ok(r))) => match x.mode {
            Mode::Once => (finished, Action::Return(Ok(r))),
            Mode::Stream => (x, Action::Deliver(r)),
        },
        Event::Received(Some(Err(e))) => match x.mode {
            Mode::Once => (finished, Action::Return(Err(TackboardError::InvalidRequest))),
            Mode::Stream => (finished, Action::Stop(StopReason::ReceiveFailed(e))),
        },
        Event::Received(None) => match x.mode {
            Mode::Once => (finished, Action::Return(Err(TackboardError::InvalidRequest))),
            Mode::Stream => (finished, Action::Stop(StopReason::Closed)),
        },
    }
}

impl Exchange {
    /// A new exchange, about to send its request.
    pub fn new(mode: Mode) -> (x: Exchange)
        ensures
            x == (Exchange { mode, phase: Phase::Sending }),
    {
        Exchange { mode, phase: Phase::Sending }
    }

    /// Whether the exchange is over.
    pub fn is_finished(&self) -> (b: bool)
        ensures
            b == (self.phase == Phase::Finished),
    {
        self.phase == Phase::Finished
    }

    /// Takes in what the network reported and says what to do next.
    pub fn step(&mut self, event: Event) -> (action: Action)
        requires
            expects(*old(self), event),
        ensures
            (*final(self), action) == spec_step(*old(self), event),
    {
        let finished = Exchange { mode: self.mode, phase: Phase::Finished };
        match event {
            Event::Sent(Ok(())) => {
                self.phase = Phase::Receiving;
                Action::Receive
            },
            Event::Sent(Err(e)) => {
                *self = finished;
                match self.mode {
                    Mode::Once => Action::Return(Err(TackboardError::Io(e))),
                    Mode::Stream => Action::Stop(StopReason::SendFailed(e)),
                }
            },
            Event::Received(Some(Ok(r))) => {
                match self.mode {
                    Mode::Once => {
                        *self = finished;
                        Action::Return(Ok(r))
                    },
                    Mode::Stream => Action::Deliver(r),
                }
            },
            Event::Received(Some(Err(e))) => {
                *self = finished;
                match self.mode {
                    Mode::Once => Action::Return(Err(TackboardError::InvalidRequest)),
                    Mode::Stream => Action::Stop(StopReason::ReceiveFailed(e)),
                }
            },
            Event::Received(None) => {
                *self = finished;
                match self.mode {
                    Mode::Once => Action::Return(Err(TackboardError::InvalidRequest)),
                    Mode::Stream => Action::Stop(StopReason::Closed),
                }
            },
        }
    }
}

} // verus!
