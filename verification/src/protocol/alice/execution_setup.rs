//! The setup handshake as the responding party runs it.
//!
//! The handshake takes three rounds. In each the responder awaits one
//! message of its peer and folds it into what it holds; after the first and
//! the second it sends a message of its own. What the messages carry is
//! cryptographic material that only the codec and the signature checks
//! around this module can read: they report, for each frame that came in,
//! what they made of it, and this module decides what follows. A state is
//! given up when a message is folded into it, so no message can be folded
//! twice or out of turn.

use vstd::prelude::*;
use vstd::string::StringSliceAdditionalSpecFns;
use crate::network::spot_price::{BitcoinAmount, MoneroAmount};
use crate::timelock::{CancelTimelock, PunishTimelock};

verus! {

/// The name under which the handshake is announced to a peer.
pub const PROTOCOL: &'static str = "/execution_setup/1.0.0";

/// The largest frame, in bytes, that one read of the handshake accepts.
pub const BUF_SIZE: usize = 1_048_576;

/// The bytes of the handshake's name.
pub fn protocol_name() -> (name: &'static [u8])
    ensures
        name@ == PROTOCOL.spec_bytes(),
{
    PROTOCOL.as_bytes()
}

/// The rounds of the handshake, named after the peer's message in each.
#[derive(Clone, Copy, Debug, PartialEq, Eq, Structural)]
pub enum Round {
    Zero,
    One,
    Two,
}

/// What the codec and the checks on the material made of a frame.
#[derive(Clone, Copy, Debug, PartialEq, Eq, Structural)]
pub enum Verdict {
    /// The frame is no encoding of the awaited message.
    Malformed,
    /// The message was decoded, but its material does not fit what the
    /// earlier rounds committed to.
    Rejected,
    /// The message was decoded and its material fits.
    Accepted,
}

/// Why an attempt ended without a bundle.
#[derive(Clone, Copy, Debug, PartialEq, Eq, Structural)]
pub enum Failure {
    /// The peer's message of this round could not be read, or its frame was
    /// larger than `BUF_SIZE`.
    Read(Round),
    /// The frame of this round did not decode.
    Deserialize(Round),
    /// The message of this round was decoded and then refused.
    Validate(Round),
    /// The responder's first message could not be sent.
    WriteMessage0,
    /// The responder's last message could not be sent.
    WriteMessage2,
    /// A sending failure was reported before anything was to be sent.
    OutOfOrder,
}

impl Failure {
    /// The failure in words.
    pub open spec fn spec_describe(self) -> &'static str {
        match self {
            Failure::Read(Round::Zero) => "failed to read message0",
            Failure::Read(Round::One) => "failed to read message1",
            Failure::Read(Round::Two) => "failed to read message2",
            Failure::Deserialize(Round::Zero) => "failed to deserialize message0",
            Failure::Deserialize(Round::One) => "failed to deserialize message1",
            Failure::Deserialize(Round::Two) => "failed to deserialize message2",
            Failure::Validate(Round::Zero) => "failed to validate message0",
            Failure::Validate(Round::One) => "failed to validate message1",
            Failure::Validate(Round::Two) => "failed to validate message2",
            Failure::WriteMessage0 => "failed to serialize Message0",
            Failure::WriteMessage2 => "failed to serialize Message2",
            Failure::OutOfOrder => "failed to send before anything was to be sent",
        }
    }

    /// The failure in words, as it is reported to the one who started the
    /// attempt.
    pub fn describe(self) -> (text: &'static str)
        ensures
            text == self.spec_describe(),
    {
        match self {
            Failure::Read(Round::Zero) => "failed to read message0",
            Failure::Read(Round::One) => "failed to read message1",
            Failure::Read(Round::Two) => "failed to read message2",
            Failure::Deserialize(Round::Zero) => "failed to deserialize message0",
            Failure::Deserialize(Round::One) => "failed to deserialize message1",
            Failure::Deserialize(Round::Two) => "failed to deserialize message2",
            Failure::Validate(Round::Zero) => "failed to validate message0",
            Failure::Validate(Round::One) => "failed to validate message1",
            Failure::Validate(Round::Two) => "failed to validate message2",
            Failure::WriteMessage0 => "failed to serialize Message0",
            Failure::WriteMessage2 => "failed to serialize Message2",
            Failure::OutOfOrder => "failed to send before anything was to be sent",
        }
    }
}

/// The peer's message of round zero, as the frame that carried it.
#[derive(Debug, PartialEq, Eq)]
pub struct Message0 {
    pub frame: Vec<u8>,
}

/// The peer's message of round one, as the frame that carried it.
#[derive(Debug, PartialEq, Eq)]
pub struct Message1 {
    pub frame: Vec<u8>,
}

/// The peer's message of round two, as the frame that carried it.
#[derive(Debug, PartialEq, Eq)]
pub struct Message2 {
    pub frame: Vec<u8>,
}

/// The terms that were negotiated, before any message of the peer.
#[derive(Debug, PartialEq, Eq)]
pub struct State0 {
    pub btc: BitcoinAmount,
    pub xmr: MoneroAmount,
    pub cancel_timelock: CancelTimelock,
    pub punish_timelock: PunishTimelock,
}

/// The terms and the peer's first message.
#[derive(Debug, PartialEq, Eq)]
pub struct State1 {
    pub state0: State0,
    pub message0: Message0,
}

/// The terms and the peer's first two messages.
#[derive(Debug, PartialEq, Eq)]
pub struct State2 {
    pub state1: State1,
    pub message1: Message1,
}

/// The bundle that both parties are committed to: the terms and all three
/// messages of the peer.
#[derive(Debug, PartialEq, Eq)]
pub struct State3 {
    pub state2: State2,
    pub message2: Message2,
}

impl State0 {
    /// The state an attempt starts from.
    pub fn new(
        btc: BitcoinAmount,
        xmr: MoneroAmount,
        cancel_timelock: CancelTimelock,
        punish_timelock: PunishTimelock,
    ) -> (state: State0)
        ensures
            state == (State0 { btc, xmr, cancel_timelock, punish_timelock }),
    {
        State0 { btc, xmr, cancel_timelock, punish_timelock }
    }

    /// Folds the peer's first message in, if its material was found valid.
    pub fn receive(self, message: Message0, valid: bool) -> (next: Result<State1, Failure>)
        ensures
            valid ==> next == Ok::<State1, Failure>(State1 { state0: self, message0: message }),
            !valid ==> next == Err::<State1, Failure>(Failure::Validate(Round::Zero)),
    {
        if valid {
            Ok(State1 { state0: self, message0: message })
        } else {
            Err(Failure::Validate(Round::Zero))
        }
    }
}

impl State1 {
    /// Folds the peer's second message in. Nothing is checked here: material
    /// that does not fit shows when it is spent.
    pub fn receive(self, message: Message1) -> (next: State2)
        ensures
            next == (State2 { state1: self, message1: message }),
    {
        State2 { state1: self, message1: message }
    }
}

impl State2 {
    /// Folds the peer's last message in, if its material was found to be
    /// bound to the earlier rounds.
    pub fn receive(self, message: Message2, valid: bool) -> (next: Result<State3, Failure>)
        ensures
            valid ==> next == Ok::<State3, Failure>(State3 { state2: self, message2: message }),
            !valid ==> next == Err::<State3, Failure>(Failure::Validate(Round::Two)),
    {
        if valid {
            Ok(State3 { state2: self, message2: message })
        } else {
            Err(Failure::Validate(Round::Two))
        }
    }
}

/// What the channel reported since the last step.
#[derive(Debug, PartialEq, Eq)]
pub enum Event {
    /// The awaited message could not be read.
    ReadFailed,
    /// The responder's own message could not be encoded or sent.
    WriteFailed,
    /// A frame came in, and this is what was made of it.
    Frame(Vec<u8>, Verdict),
}

/// What the one who drives an attempt has to do after a step.
#[derive(Clone, Copy, Debug, PartialEq, Eq, Structural)]
pub enum Action {
    /// Send the responder's first message, then read the peer's next.
    SendMessage0,
    /// Send the responder's last message, then read the peer's next.
    SendMessage2,
    /// Hand the bundle to the swap.
    Complete,
    /// Report that the handshake failed.
    Abort,
    /// The attempt had ended before: nothing is to be done.
    Nothing,
}

/// What an attempt that has ended reports.
#[derive(Debug, PartialEq, Eq)]
pub enum OutEvent {
    Done(Result<State3, Failure>),
}

/// One attempt at the handshake, between two events.
#[derive(Debug, PartialEq, Eq)]
pub enum Listener {
    AwaitingMessage0(State0),
    AwaitingMessage1(State1),
    AwaitingMessage2(State2),
    Done(State3),
    Aborted(Failure),
}

/// What the attempt in round `round` makes of an event that does not carry
/// an accepted message: the failure it ends with, if it ends.
pub open spec fn spec_failure(round: Round, event: Event) -> Option<Failure> {
    match event {
        Event::ReadFailed => Some(Failure::Read(round)),
        Event::WriteFailed => Some(
            match round {
                Round::Zero => Failure::OutOfOrder,
                Round::One => Failure::WriteMessage0,
                Round::Two => Failure::WriteMessage2,
            },
        ),
        Event::Frame(frame, verdict) => if frame@.len() > BUF_SIZE {
            Some(Failure::Read(round))
        } else {
            match verdict {
                Verdict::Malformed => Some(Failure::Deserialize(round)),
                Verdict::Rejected => match round {
                    Round::One => None,
                    _ => Some(Failure::Validate(round)),
                },
                Verdict::Accepted => None,
            }
        },
    }
}

/// Whether an event brings a message that was read within the bound and
/// decoded, whatever the checks on its material said.
pub open spec fn spec_decoded(event: Event) -> bool {
    &&& event is Frame
    &&& event->Frame_0@.len() <= BUF_SIZE
    &&& event->Frame_1 != Verdict::Malformed
}

/// Sorts an event in round `round`: the frame of a decoded message, with
/// the outcome of the checks on its material, or the failure that an event
/// without such a message means.
pub fn decoded(round: Round, event: Event) -> (sorted: Result<(Vec<u8>, bool), Failure>)
    ensures
        spec_decoded(event) <==> sorted is Ok,
        sorted matches Ok(message) ==> message.0 == event->Frame_0 && message.1 == (
        event->Frame_1 == Verdict::Accepted),
        sorted matches Err(failed) ==> spec_failure(round, event) == Some(failed),
{
    match event {
        Event::ReadFailed => Err(Failure::Read(round)),
        Event::WriteFailed => Err(
            match round {
                Round::Zero => Failure::OutOfOrder,
                Round::One => Failure::WriteMessage0,
                Round::Two => Failure::WriteMessage2,
            },
        ),
        Event::Frame(frame, verdict) => if frame.len() > BUF_SIZE {
            Err(Failure::Read(round))
        } else {
            match verdict {
                Verdict::Malformed => Err(Failure::Deserialize(round)),
                Verdict::Rejected => Ok((frame, false)),
                Verdict::Accepted => Ok((frame, true)),
            }
        },
    }
}

impl Listener {
    /// The attempt as it starts: nothing received, nothing sent.
    pub fn new(state0: State0) -> (listener: Listener)
        ensures
            listener == Listener::AwaitingMessage0(state0),
    {
        Listener::AwaitingMessage0(state0)
    }

    /// The round whose message the attempt waits for, if it has not ended.
    pub open spec fn spec_awaits(self) -> Option<Round> {
        match self {
            Listener::AwaitingMessage0(_) => Some(Round::Zero),
            Listener::AwaitingMessage1(_) => Some(Round::One),
            Listener::AwaitingMessage2(_) => Some(Round::Two),
            Listener::Done(_) => None,
            Listener::Aborted(_) => None,
        }
    }

    /// The number of messages of the peer that have been folded in.
    pub open spec fn spec_folded(self) -> nat {
        match self {
            Listener::AwaitingMessage0(_) => 0,
            Listener::AwaitingMessage1(_) => 1,
            Listener::AwaitingMessage2(_) => 2,
            Listener::Done(_) => 3,
            Listener::Aborted(_) => 0,
        }
    }

    /// The attempt after an event. One that has ended stays as it is. One
    /// that waits ends with the failure that the event means in its round,
    /// or else folds the frame in and waits for the next round.
    pub open spec fn spec_next(self, event: Event) -> Listener {
        match self {
            Listener::AwaitingMessage0(state0) => match spec_failure(Round::Zero, event) {
                Some(failure) => Listener::Aborted(failure),
                None => Listener::AwaitingMessage1(
                    State1 { state0, message0: Message0 { frame: event->Frame_0 } },
                ),
            },
            Listener::AwaitingMessage1(state1) => match spec_failure(Round::One, event) {
                Some(failure) => Listener::Aborted(failure),
                None => Listener::AwaitingMessage2(
                    State2 { state1, message1: Message1 { frame: event->Frame_0 } },
                ),
            },
            Listener::AwaitingMessage2(state2) => match spec_failure(Round::Two, event) {
                Some(failure) => Listener::Aborted(failure),
                None => Listener::Done(
                    State3 { state2, message2: Message2 { frame: event->Frame_0 } },
                ),
            },
            Listener::Done(state3) => Listener::Done(state3),
            Listener::Aborted(failure) => Listener::Aborted(failure),
        }
    }

    /// What is to be done after an event: nothing where the attempt had
    /// ended, the report of the failure where the event ends it, and else
    /// the responder's message of the round, or the hand-over of the bundle.
    pub open spec fn spec_action(self, event: Event) -> Action {
        match self.spec_awaits() {
            None => Action::Nothing,
            Some(round) => if spec_failure(round, event).is_some() {
                Action::Abort
            } else {
                match round {
                    Round::Zero => Action::SendMessage0,
                    Round::One => Action::SendMessage2,
                    Round::Two => Action::Complete,
                }
            },
        }
    }

    /// What the attempt reports: the bundle or the failure once it has
    /// ended, and nothing before.
    pub open spec fn spec_outcome(self) -> Option<OutEvent> {
        match self {
            Listener::Done(state3) => Some(OutEvent::Done(Ok(state3))),
            Listener::Aborted(failure) => Some(OutEvent::Done(Err(failure))),
            _ => None,
        }
    }

    /// Ends the attempt: the report of the bundle or of the failure, or the
    /// attempt itself where it still waits for a message.
    pub fn into_outcome(self) -> (outcome: Result<OutEvent, Listener>)
        ensures
            outcome == (match self.spec_outcome() {
                Some(event) => Ok::<OutEvent, Listener>(event),
                None => Err::<OutEvent, Listener>(self),
            }),
    {
        match self {
            Listener::Done(state3) => Ok(OutEvent::Done(Ok(state3))),
            Listener::Aborted(failure) => Ok(OutEvent::Done(Err(failure))),
            waiting => Err(waiting),
        }
    }

    /// The round whose message the attempt waits for, if it has not ended.
    pub fn awaits(&self) -> (round: Option<Round>)
        ensures
            round == self.spec_awaits(),
    {
        match self {
            Listener::AwaitingMessage0(_) => Some(Round::Zero),
            Listener::AwaitingMessage1(_) => Some(Round::One),
            Listener::AwaitingMessage2(_) => Some(Round::Two),
            Listener::Done(_) => None,
            Listener::Aborted(_) => None,
        }
    }

    /// Takes the attempt over one event, and says what is to be done next.
    pub fn step(self, event: Event) -> (out: (Listener, Action))
        ensures
            out.0 == self.spec_next(event),
            out.1 == self.spec_action(event),
    {
        match self {
            Listener::AwaitingMessage0(state0) => match decoded(Round::Zero, event) {
                Err(failed) => (Listener::Aborted(failed), Action::Abort),
                Ok((frame, valid)) => match state0.receive(Message0 { frame }, valid) {
                    Ok(state1) => (Listener::AwaitingMessage1(state1), Action::SendMessage0),
                    Err(failed) => (Listener::Aborted(failed), Action::Abort),
                },
            },
            Listener::AwaitingMessage1(state1) => match decoded(Round::One, event) {
                Err(failed) => (Listener::Aborted(failed), Action::Abort),
                Ok((frame, _)) => (
                    Listener::AwaitingMessage2(state1.receive(Message1 { frame })),
                    Action::SendMessage2,
                ),
            },
            Listener::AwaitingMessage2(state2) => match decoded(Round::Two, event) {
                Err(failed) => (Listener::Aborted(failed), Action::Abort),
                Ok((frame, valid)) => match state2.receive(Message2 { frame }, valid) {
                    Ok(state3) => (Listener::Done(state3), Action::Complete),
                    Err(failed) => (Listener::Aborted(failed), Action::Abort),
                },
            },
            Listener::Done(state3) => (Listener::Done(state3), Action::Nothing),
            Listener::Aborted(failed) => (Listener::Aborted(failed), Action::Nothing),
        }
    }
}

/// An attempt that has ended stays as it is under every event, and asks for
/// nothing more.
pub proof fn lemma_ended_attempt_stays(listener: Listener, event: Event)
    requires
        listener.spec_awaits().is_none(),
    ensures
        listener.spec_next(event) == listener,
        listener.spec_action(event) == Action::Nothing,
{
}

/// An attempt only walks forward, one round at a time: after an event it
/// has either been aborted, or folded in exactly one message more, namely
/// the frame of that event.
pub proof fn lemma_attempt_walks_forward(listener: Listener, event: Event)
    requires
        listener.spec_awaits().is_some(),
    ensures
        listener.spec_next(event) is Aborted || (listener.spec_next(event).spec_folded()
            == listener.spec_folded() + 1 && spec_decoded(event)),
        listener matches Listener::AwaitingMessage0(state0) ==> (listener.spec_next(
            event,
        ) matches Listener::AwaitingMessage1(state1) ==> state1.state0 == state0
            && state1.message0.frame == event->Frame_0),
        listener matches Listener::AwaitingMessage1(state1) ==> (listener.spec_next(
            event,
        ) matches Listener::AwaitingMessage2(state2) ==> state2.state1 == state1
            && state2.message1.frame == event->Frame_0),
        listener matches Listener::AwaitingMessage2(state2) ==> (listener.spec_next(
            event,
        ) matches Listener::Done(state3) ==> state3.state2 == state2 && state3.message2.frame
            == event->Frame_0),
{
}

/// A frame that does not decode, or that is larger than the bound, ends the
/// attempt in the round it came in, with a failure that says which of the
/// two it was; no message is folded in, and nothing is sent.
pub proof fn lemma_bad_frame_aborts(listener: Listener, frame: Vec<u8>, verdict: Verdict)
    requires
        listener.spec_awaits().is_some(),
        frame@.len() > BUF_SIZE || verdict == Verdict::Malformed,
    ensures
        listener.spec_next(Event::Frame(frame, verdict)) == Listener::Aborted(
            if frame@.len() > BUF_SIZE {
                Failure::Read(listener.spec_awaits().unwrap())
            } else {
                Failure::Deserialize(listener.spec_awaits().unwrap())
            },
        ),
        listener.spec_action(Event::Frame(frame, verdict)) == Action::Abort,
{
}

/// Three accepted frames within the bound, one after the other, take a
/// fresh attempt to the bundle that holds the terms and the three frames in
/// the order in which they came.
pub proof fn lemma_three_accepted_frames_complete(
    state0: State0,
    frame0: Vec<u8>,
    frame1: Vec<u8>,
    frame2: Vec<u8>,
)
    requires
        frame0@.len() <= BUF_SIZE,
        frame1@.len() <= BUF_SIZE,
        frame2@.len() <= BUF_SIZE,
    ensures
        Listener::AwaitingMessage0(state0).spec_next(
            Event::Frame(frame0, Verdict::Accepted),
        ).spec_next(Event::Frame(frame1, Verdict::Accepted)).spec_next(
            Event::Frame(frame2, Verdict::Accepted),
        ) == Listener::Done(
            State3 {
                state2: State2 {
                    state1: State1 { state0, message0: Message0 { frame: frame0 } },
                    message1: Message1 { frame: frame1 },
                },
                message2: Message2 { frame: frame2 },
            },
        ),
{
}

} // verus!
