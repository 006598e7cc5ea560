use vstd::prelude::*;
use crate::client::{frame_of_datagram, frame_spec};
use crate::error::KalmanError;
use crate::message::{decode_spec, Message, MessageView, Number, Vector3, Vector3View};

verus! {

/// The three phases of a session.
#[derive(Debug, Clone, Copy, PartialEq, Eq, Structural)]
pub enum Phase {
    AwaitingHandshake,
    SteadyState,
    Terminated,
}

/// Where a session stands. The handshake is six frames in a fixed order: the
/// start marker, the true position, the speed, an acceleration that is not
/// used, the heading, the end marker. What has been received of it is kept
/// until the filter can be initialised.
#[derive(Debug, Clone, PartialEq, Eq)]
pub enum State {
    AwaitingStart,
    AwaitingTruePosition,
    AwaitingSpeed { position: Vector3 },
    AwaitingAcceleration { position: Vector3, speed: Number },
    AwaitingDirection { position: Vector3, speed: Number },
    AwaitingEnd { position: Vector3, speed: Number, heading: Vector3 },
    SteadyState,
    Terminated,
}

/// The model of a `State`.
pub enum StateView {
    AwaitingStart,
    AwaitingTruePosition,
    AwaitingSpeed { position: Vector3View },
    AwaitingAcceleration { position: Vector3View, speed: Seq<u8> },
    AwaitingDirection { position: Vector3View, speed: Seq<u8> },
    AwaitingEnd { position: Vector3View, speed: Seq<u8>, heading: Vector3View },
    SteadyState,
    Terminated,
}

impl View for State {
    type V = StateView;

    open spec fn view(&self) -> StateView {
        match self {
            State::AwaitingStart => StateView::AwaitingStart,
            State::AwaitingTruePosition => StateView::AwaitingTruePosition,
            State::AwaitingSpeed { position } => StateView::AwaitingSpeed { position: position@ },
            State::AwaitingAcceleration { position, speed } => StateView::AwaitingAcceleration {
                position: position@,
                speed: speed@,
            },
            State::AwaitingDirection { position, speed } => StateView::AwaitingDirection {
                position: position@,
                speed: speed@,
            },
            State::AwaitingEnd { position, speed, heading } => StateView::AwaitingEnd {
                position: position@,
                speed: speed@,
                heading: heading@,
            },
            State::SteadyState => StateView::SteadyState,
            State::Terminated => StateView::Terminated,
        }
    }
}

impl StateView {
    /// How many frames of the handshake the state has behind it: 0 to 5 while
    /// the handshake goes on, 6 in the steady state.
    pub open spec fn progress(self) -> int {
        match self {
            StateView::AwaitingStart => 0,
            StateView::AwaitingTruePosition => 1,
            StateView::AwaitingSpeed { .. } => 2,
            StateView::AwaitingAcceleration { .. } => 3,
            StateView::AwaitingDirection { .. } => 4,
            StateView::AwaitingEnd { .. } => 5,
            _ => 6,
        }
    }

    /// The phase that the state belongs to.
    pub open spec fn phase(self) -> Phase {
        match self {
            StateView::SteadyState => Phase::SteadyState,
            StateView::Terminated => Phase::Terminated,
            _ => Phase::AwaitingHandshake,
        }
    }
}

/// What the caller has to do after a frame.
#[derive(Debug, Clone, PartialEq, Eq)]
pub enum Action {
    /// Nothing: receive the next frame.
    Continue,
    /// Initialise the filter, then send the position estimate.
    Init { position: Vector3, speed: Number, heading: Vector3 },
    /// Run a prediction with this acceleration.
    Predict(Vector3),
    /// Run a correction with this position, and publish the estimate beside it.
    Correct(Vector3),
    /// Wait for the throttle time, then send the position estimate.
    Report,
    /// Stop: the session is over.
    Break,
}

/// The model of an `Action`.
pub enum ActionView {
    Continue,
    Init { position: Vector3View, speed: Seq<u8>, heading: Vector3View },
    Predict(Vector3View),
    Correct(Vector3View),
    Report,
    Break,
}

impl View for Action {
    type V = ActionView;

    open spec fn view(&self) -> ActionView {
        match self {
            Action::Continue => ActionView::Continue,
            Action::Init { position, speed, heading } => ActionView::Init {
                position: position@,
                speed: speed@,
                heading: heading@,
            },
            Action::Predict(a) => ActionView::Predict(a@),
            Action::Correct(z) => ActionView::Correct(z@),
            Action::Report => ActionView::Report,
            Action::Break => ActionView::Break,
        }
    }
}

/// What goes to the display once an action is performed.
#[derive(Debug, Clone, Copy, PartialEq, Eq, Structural)]
pub enum Publication {
    /// Nothing.
    Nothing,
    /// The estimate as it now stands.
    Estimate,
    /// The estimate, and beside it the position that corrected it.
    EstimateAndFix,
}

impl ActionView {
    /// The action touches the filter.
    pub open spec fn mutates_filter(self) -> bool {
        self is Init || self is Predict || self is Correct
    }

    /// What goes to the display once the action is performed: after a
    /// correction the estimate with the position, after a prediction the
    /// estimate if the display is fed every step (`stream`), else nothing.
    pub open spec fn publication(self, stream: bool) -> Publication {
        match self {
            ActionView::Correct(_) => Publication::EstimateAndFix,
            ActionView::Predict(_) => if stream {
                Publication::Estimate
            } else {
                Publication::Nothing
            },
            _ => Publication::Nothing,
        }
    }
}

impl Action {
    /// What goes to the display once the action is performed; `stream` says
    /// whether the display is fed after every prediction.
    pub fn publication(&self, stream: bool) -> (r: Publication)
        ensures
            r == self@.publication(stream),
    {
        match self {
            Action::Correct(_) => Publication::EstimateAndFix,
            Action::Predict(_) => if stream {
                Publication::Estimate
            } else {
                Publication::Nothing
            },
            _ => Publication::Nothing,
        }
    }
}

/// The state after a frame, and what the frame asks for.
pub struct Outcome {
    pub state: StateView,
    pub result: Result<ActionView, KalmanError>,
}

/// A frame that has no place where it came: the session ends.
pub open spec fn rejected() -> Outcome {
    Outcome { state: StateView::Terminated, result: Err(KalmanError::Parsing) }
}

/// The session goes on in `state`, and there is nothing to do.
pub open spec fn accepted(state: StateView) -> Outcome {
    Outcome { state, result: Ok(ActionView::Continue) }
}

/// One step of the handshake: the decoded frame is the one that `state` waits
/// for, or the session ends with a `Parsing` error.
pub open spec fn handshake_spec(state: StateView, message: Option<MessageView>) -> Outcome {
    match (state, message) {
        (StateView::AwaitingStart, Some(MessageView::Start)) => accepted(
            StateView::AwaitingTruePosition,
        ),
        (StateView::AwaitingTruePosition, Some(MessageView::TruePosition(position))) => accepted(
            StateView::AwaitingSpeed { position },
        ),
        (StateView::AwaitingSpeed { position }, Some(MessageView::Speed(speed))) => accepted(
            StateView::AwaitingAcceleration { position, speed },
        ),
        (
            StateView::AwaitingAcceleration { position, speed },
            Some(MessageView::Acceleration(_)),
        ) => accepted(StateView::AwaitingDirection { position, speed }),
        (
            StateView::AwaitingDirection { position, speed },
            Some(MessageView::Direction(heading)),
        ) => accepted(StateView::AwaitingEnd { position, speed, heading }),
        (StateView::AwaitingEnd { position, speed, heading }, Some(MessageView::End)) => Outcome {
            state: StateView::SteadyState,
            result: Ok(ActionView::Init { position, speed, heading }),
        },
        _ => rejected(),
    }
}

/// One step of the steady state.
pub open spec fn steady_spec(message: Option<MessageView>) -> Outcome {
    match message {
        None => rejected(),
        Some(MessageView::Acceleration(a)) => Outcome {
            state: StateView::SteadyState,
            result: Ok(ActionView::Predict(a)),
        },
        Some(MessageView::Position(z)) => Outcome {
            state: StateView::SteadyState,
            result: Ok(ActionView::Correct(z)),
        },
        Some(MessageView::TruePosition(z)) => Outcome {
            state: StateView::SteadyState,
            result: Ok(ActionView::Correct(z)),
        },
        Some(MessageView::End) => Outcome {
            state: StateView::SteadyState,
            result: Ok(ActionView::Report),
        },
        Some(MessageView::Goodbye) => Outcome {
            state: StateView::Terminated,
            result: Ok(ActionView::Break),
        },
        Some(_) => accepted(StateView::SteadyState),
    }
}

/// What a decoded frame does to a session; `None` stands for a frame that does
/// not decode. A session that is over stays so, whatever comes.
pub open spec fn transition_spec(state: StateView, message: Option<MessageView>) -> Outcome {
    match state {
        StateView::Terminated => Outcome {
            state: StateView::Terminated,
            result: Ok(ActionView::Break),
        },
        StateView::SteadyState => steady_spec(message),
        _ => handshake_spec(state, message),
    }
}

/// What a frame does to a session.
pub open spec fn step_spec(state: StateView, frame: Seq<u8>) -> Outcome {
    transition_spec(state, decode_spec(frame))
}

/// What a datagram of `len` bytes in the receive buffer `buf` does to a session.
/// One that is no frame ends the session with the error that says why.
pub open spec fn receive_spec(state: StateView, buf: Seq<u8>, len: usize) -> Outcome {
    match frame_spec(buf, len) {
        Ok(frame) => step_spec(state, frame),
        Err(e) => if state is Terminated {
            transition_spec(state, None)
        } else {
            Outcome { state: StateView::Terminated, result: Err(e) }
        },
    }
}

/// What each of `frames` did to the session, fed one after the other from
/// `state`.
pub open spec fn trace_spec(state: StateView, frames: Seq<Seq<u8>>) -> Seq<Outcome>
    decreases frames.len(),
{
    if frames.len() == 0 {
        Seq::empty()
    } else {
        let before = trace_spec(state, frames.drop_last());
        let at = if before.len() == 0 {
            state
        } else {
            before.last().state
        };
        before.push(step_spec(at, frames.last()))
    }
}

/// `message` is what the handshake asks for in place `k`, counted from 0: the
/// start marker, the true position, the speed, an acceleration, the heading,
/// the end marker.
pub open spec fn due(k: int, message: Option<MessageView>) -> bool {
    match message {
        Some(MessageView::Start) => k == 0,
        Some(MessageView::TruePosition(_)) => k == 1,
        Some(MessageView::Speed(_)) => k == 2,
        Some(MessageView::Acceleration(_)) => k == 3,
        Some(MessageView::Direction(_)) => k == 4,
        Some(MessageView::End) => k == 5,
        _ => false,
    }
}

/// Each of the first `k` frames decodes to what the handshake asks for in its
/// place.
pub open spec fn prefix_in_order(frames: Seq<Seq<u8>>, k: int) -> bool {
    &&& 0 <= k <= frames.len()
    &&& forall|j: int| 0 <= j < k ==> due(j, decode_spec(#[trigger] frames[j]))
}

/// The six frames of a handshake, each of its kind and in its place.
pub open spec fn handshake_in_order(frames: Seq<Seq<u8>>) -> bool {
    frames.len() == 6 && prefix_in_order(frames, 6)
}

impl State {
    /// Every number that the state keeps is a floating-point literal.
    pub open spec fn wf(&self) -> bool {
        match self {
            State::AwaitingSpeed { position } => position.wf(),
            State::AwaitingAcceleration { position, speed } => position.wf() && speed.wf(),
            State::AwaitingDirection { position, speed } => position.wf() && speed.wf(),
            State::AwaitingEnd { position, speed, heading } => position.wf() && speed.wf()
                && heading.wf(),
            _ => true,
        }
    }

    /// The state after `message`, which a frame decoded to, and what to do.
    fn transition(self, message: Message) -> (r: (State, Result<Action, KalmanError>))
        requires
            self.wf(),
            message@.wf(),
            !(self@ is Terminated),
        ensures
            r.0.wf(),
            r.0@ == transition_spec(self@, Some(message@)).state,
            action_matches(r.1, transition_spec(self@, Some(message@)).result),
    {
        match (self, message) {
            (State::AwaitingStart, Message::Start) => (
                State::AwaitingTruePosition,
                Ok(Action::Continue),
            ),
            (State::AwaitingTruePosition, Message::TruePosition(position)) => (
                State::AwaitingSpeed { position },
                Ok(Action::Continue),
            ),
            (State::AwaitingSpeed { position }, Message::Speed(speed)) => (
                State::AwaitingAcceleration { position, speed },
                Ok(Action::Continue),
            ),
            (State::AwaitingAcceleration { position, speed }, Message::Acceleration(_)) => (
                State::AwaitingDirection { position, speed },
                Ok(Action::Continue),
            ),
            (State::AwaitingDirection { position, speed }, Message::Direction(heading)) => (
                State::AwaitingEnd { position, speed, heading },
                Ok(Action::Continue),
            ),
            (State::AwaitingEnd { position, speed, heading }, Message::End) => (
                State::SteadyState,
                Ok(Action::Init { position, speed, heading }),
            ),
            (State::SteadyState, Message::Acceleration(a)) => (
                State::SteadyState,
                Ok(Action::Predict(a)),
            ),
            (State::SteadyState, Message::Position(z)) => (
                State::SteadyState,
                Ok(Action::Correct(z)),
            ),
            (State::SteadyState, Message::TruePosition(z)) => (
                State::SteadyState,
                Ok(Action::Correct(z)),
            ),
            (State::SteadyState, Message::End) => (State::SteadyState, Ok(Action::Report)),
            (State::SteadyState, Message::Goodbye) => (State::Terminated, Ok(Action::Break)),
            (State::SteadyState, _) => (State::SteadyState, Ok(Action::Continue)),
            _ => (State::Terminated, Err(KalmanError::Parsing)),
        }
    }
}

/// `result` is what `model` says: the same error, or an action with that model.
pub open spec fn action_matches(
    result: Result<Action, KalmanError>,
    model: Result<ActionView, KalmanError>,
) -> bool {
    match result {
        Ok(action) => model == Ok::<ActionView, KalmanError>(action@),
        Err(e) => model == Err::<ActionView, KalmanError>(e),
    }
}

/// The session's state machine. It decides; the caller receives the frames and
/// performs the actions.
#[derive(Debug)]
pub struct Orchestrator {
    state: State,
}

impl View for Orchestrator {
    type V = StateView;

    closed spec fn view(&self) -> StateView {
        self.state@
    }
}

impl Orchestrator {
    /// Every number that the session keeps is a floating-point literal.
    pub closed spec fn wf(&self) -> bool {
        self.state.wf()
    }

    /// Where the session stands.
    pub fn state(&self) -> (r: &State)
        ensures
            r@ == self@,
            self.wf() ==> r.wf(),
    {
        &self.state
    }

    /// Ends the session, as after an error that the caller met while it
    /// received a datagram or performed an action.
    pub fn abort(&mut self)
        ensures
            final(self)@ == StateView::Terminated,
            final(self).wf(),
    {
        self.state = State::Terminated;
    }

    /// A session that waits for the first frame of the handshake.
    pub fn new() -> (r: Orchestrator)
        ensures
            r@ == StateView::AwaitingStart,
            r.wf(),
    {
        Orchestrator { state: State::AwaitingStart }
    }

    /// The phase that the session is in.
    pub fn phase(&self) -> (r: Phase)
        ensures
            r == self@.phase(),
    {
        match &self.state {
            State::SteadyState => Phase::SteadyState,
            State::Terminated => Phase::Terminated,
            _ => Phase::AwaitingHandshake,
        }
    }

    /// Takes one received frame and says what to do. During the handshake the
    /// frame must be the one that is due, else the session ends with a
    /// `Parsing` error. In the steady state an acceleration asks for a
    /// prediction, a position of either kind for a correction, the end marker
    /// for a report, the goodbye ends the session, and the other messages ask
    /// for nothing; a frame that does not decode ends the session with a
    /// `Parsing` error. A session that is over answers `Break` and does not
    /// look at the frame.
    pub fn step(&mut self, frame: &[u8]) -> (r: Result<Action, KalmanError>)
        requires
            old(self).wf(),
        ensures
            final(self).wf(),
            final(self)@ == step_spec(old(self)@, frame@).state,
            action_matches(r, step_spec(old(self)@, frame@).result),
    {
        let mut state = State::Terminated;
        core::mem::swap(&mut self.state, &mut state);
        if let State::Terminated = state {
            return Ok(Action::Break);
        }
        match Message::decode(frame) {
            Ok(message) => {
                let (next, result) = state.transition(message);
                self.state = next;
                result
            },
            Err(e) => Err(e),
        }
    }

    /// Takes one datagram of `len` bytes from the receive buffer `buf`. A
    /// datagram that is no frame, because it fills the buffer or is not UTF-8,
    /// ends the session with that error before anything of it is decoded;
    /// a frame goes to `step`. A session that is over answers `Break` to
    /// either.
    pub fn receive(&mut self, buf: &[u8], len: usize) -> (r: Result<Action, KalmanError>)
        requires
            old(self).wf(),
        ensures
            final(self).wf(),
            final(self)@ == receive_spec(old(self)@, buf@, len).state,
            action_matches(r, receive_spec(old(self)@, buf@, len).result),
    {
        match frame_of_datagram(buf, len) {
            Ok(frame) => self.step(frame),
            Err(e) => {
                if let State::Terminated = self.state {
                    Ok(Action::Break)
                } else {
                    self.state = State::Terminated;
                    Err(e)
                }
            },
        }
    }
}

} // verus!
