//! The notification controller.
//!
//! A [`Transition`] binds a pending animation and the success and failure
//! frames. Starting it hands out an [`OutcomeSender`] for the caller and a
//! [`Worker`] for the background thread. The worker is a state machine: each
//! poll looks once at the outcome channel and either shows the next animation
//! frame or resolves to the final frame; the driver reports back whether the
//! device took each frame.
use vstd::prelude::*;

use crate::channel::{offer, outcome_channel, take, Offer};
use crate::colors::Led;

verus! {

/// How long each frame fades in, in milliseconds; also the polling interval.
pub const FADE_MS: u64 = 500;

/// One command for the light: a color and the time it takes to fade in.
#[derive(Debug, Clone, Copy, PartialEq, Eq, Structural)]
pub struct Frame {
    pub led: Led,
    pub fade_ms: u64,
}

/// The outcome of a run of tasks.
#[derive(Debug, Clone, Copy, PartialEq, Eq, Structural)]
pub enum Msg {
    Success,
    Failure,
}

/// Errors of the controller.
#[derive(Debug, Clone, Copy, PartialEq, Eq, Structural)]
pub enum TransitionError {
    /// The pending animation has no frame.
    EmptyAnimation,
    /// `start` was called on a controller that had already started.
    AlreadyStarted,
    /// The worker is gone, so no outcome can reach it.
    WorkerGone,
    /// The device refused the final frame.
    FinalFrameSend,
}

/// Where the worker stands.
#[derive(Debug, Clone, Copy, PartialEq, Eq, Structural)]
pub enum Phase {
    /// Replaying the animation, one frame per poll.
    Animating,
    /// An outcome was observed; its final frame is being sent.
    Resolving(Msg),
    /// Done: the final frame was delivered (`None`) or its sending failed.
    Terminated(Option<TransitionError>),
}

/// What the driver is to do after a poll.
#[derive(Debug, Clone, Copy, PartialEq, Eq, Structural)]
pub enum Action {
    /// Send this animation frame, then sleep for its fade time.
    Show(Frame),
    /// Send this final frame and report whether the device took it.
    Resolve(Frame),
    /// Nothing more to send: the worker is finished.
    Stop,
}

/// The frame that shows a color.
pub open spec fn frame_of(led: Led) -> Frame {
    Frame { led, fade_ms: FADE_MS }
}

/// The animation that shows a sequence of colors.
pub open spec fn animation_of(leds: Seq<Led>) -> Seq<Frame> {
    leds.map_values(|led: Led| frame_of(led))
}

/// The configuration a controller holds.
pub struct TransitionView {
    pub frames: Seq<Frame>,
    pub success: Frame,
    pub failure: Frame,
    pub started: bool,
}

/// The notification controller, before and after it has been started.
pub struct Transition {
    transition: Vec<Frame>,
    success_msg: Frame,
    failure_msg: Frame,
    started: bool,
}

impl View for Transition {
    type V = TransitionView;

    closed spec fn view(&self) -> TransitionView {
        TransitionView {
            frames: self.transition@,
            success: self.success_msg,
            failure: self.failure_msg,
            started: self.started,
        }
    }
}

/// The worker's state, as a mathematical value.
pub struct Machine {
    pub frames: Seq<Frame>,
    pub success: Frame,
    pub failure: Frame,
    pub next: nat,
    pub phase: Phase,
}

/// The frame that settles the light on an outcome.
pub open spec fn final_frame(m: Machine, msg: Msg) -> Frame {
    match msg {
        Msg::Success => m.success,
        Msg::Failure => m.failure,
    }
}

/// The frame index after `next`, wrapping to the first frame after the last.
pub open spec fn advance(next: nat, len: nat) -> nat {
    if next + 1 >= len {
        0
    } else {
        (next + 1) as nat
    }
}

/// One poll of the worker, given what the outcome channel held (`None` when
/// it was empty or not looked at): the next state and the action.
pub open spec fn poll_step(m: Machine, incoming: Option<Msg>) -> (Machine, Action) {
    match m.phase {
        Phase::Animating => match incoming {
            Some(msg) => (Machine { phase: Phase::Resolving(msg), ..m }, Action::Resolve(final_frame(m, msg))),
            None => (Machine { next: advance(m.next, m.frames.len()), ..m }, Action::Show(m.frames[m.next as int])),
        },
        _ => (m, Action::Stop),
    }
}

/// The worker's state after the driver reports whether the device took the
/// last frame sent. A dropped animation frame changes nothing; the final
/// frame ends the worker either way, with the failure recorded.
pub open spec fn sent_step(m: Machine, ok: bool) -> Machine {
    match m.phase {
        Phase::Resolving(_) => Machine {
            phase: Phase::Terminated(if ok { None } else { Some(TransitionError::FinalFrameSend) }),
            ..m
        },
        _ => m,
    }
}

/// What `start` does to a controller: its next configuration, and the
/// worker's first state or the error.
pub open spec fn start_spec(t: TransitionView) -> (TransitionView, Result<Machine, TransitionError>) {
    if t.started {
        (t, Err(TransitionError::AlreadyStarted))
    } else {
        (TransitionView { started: true, ..t }, Ok(initial_machine(t)))
    }
}

/// The worker's state right after `start`.
pub open spec fn initial_machine(t: TransitionView) -> Machine {
    Machine { frames: t.frames, success: t.success, failure: t.failure, next: 0, phase: Phase::Animating }
}

impl Transition {
    /// Builds an idle controller that plays `pending`, with green for success
    /// and red for failure. An empty animation is refused.
    pub fn new(pending: &[Led]) -> (r: Result<Transition, TransitionError>)
        ensures
            match r {
                Ok(t) => pending@.len() > 0 && t@ == (TransitionView {
                    frames: animation_of(pending@),
                    success: frame_of(Led::Green),
                    failure: frame_of(Led::Red),
                    started: false,
                }),
                Err(e) => pending@.len() == 0 && e == TransitionError::EmptyAnimation,
            },
    {
        if pending.len() == 0 {
            return Err(TransitionError::EmptyAnimation);
        }
        let mut transition: Vec<Frame> = Vec::new();
        let mut i: usize = 0;
        while i < pending.len()
            invariant
                i <= pending@.len(),
                transition@ =~= animation_of(pending@.take(i as int)),
            decreases pending@.len() - i,
        {
            transition.push(Frame { led: pending[i], fade_ms: FADE_MS });
            i = i + 1;
            assert(pending@.take(i as int) =~= pending@.take(i - 1).push(pending@[i - 1]));
        }
        assert(pending@.take(pending@.len() as int) =~= pending@);
        Ok(Transition {
            transition,
            success_msg: Frame { led: Led::Green, fade_ms: FADE_MS },
            failure_msg: Frame { led: Led::Red, fade_ms: FADE_MS },
            started: false,
        })
    }

    /// The same controller, settling on `led` after success.
    pub fn on_success(self, led: &Led) -> (r: Transition)
        ensures
            r@ == (TransitionView { success: frame_of(*led), ..self@ }),
    {
        Transition { success_msg: Frame { led: *led, fade_ms: FADE_MS }, ..self }
    }

    /// The same controller, settling on `led` after failure.
    pub fn on_failure(self, led: &Led) -> (r: Transition)
        ensures
            r@ == (TransitionView { failure: frame_of(*led), ..self@ }),
    {
        Transition { failure_msg: Frame { led: *led, fade_ms: FADE_MS }, ..self }
    }

    /// Whether `start` has been called.
    pub fn is_started(&self) -> (r: bool)
        ensures
            r == self@.started,
    {
        self.started
    }

    /// Starts the controller: hands out the sending side of a fresh outcome
    /// channel and the worker that owns its receiving side. A controller starts
    /// once; a second call fails and changes nothing.
    pub fn start(&mut self) -> (r: Result<(OutcomeSender, Worker), TransitionError>)
        requires
            old(self)@.frames.len() > 0,
        ensures
            match r {
                Ok((tx, w)) => {
                    &&& start_spec(old(self)@) == (final(self)@, Ok::<Machine, TransitionError>(w@))
                    &&& tx@ is None
                    &&& w.wf()
                },
                Err(e) => start_spec(old(self)@) == (final(self)@, Err::<Machine, TransitionError>(e)),
            },
    {
        if self.started {
            return Err(TransitionError::AlreadyStarted);
        }
        self.started = true;
        let (tx, rx) = outcome_channel();
        let worker = Worker {
            frames: self.transition.clone(),
            success: self.success_msg,
            failure: self.failure_msg,
            next: 0,
            phase: Phase::Animating,
            rx,
        };
        Ok((OutcomeSender { tx, accepted: None }, worker))
    }
}

/// The caller's side of the outcome channel. Its view is the outcome the
/// channel has accepted, if any.
pub struct OutcomeSender {
    tx: crossbeam_channel::Sender<Msg>,
    accepted: Option<Msg>,
}

impl View for OutcomeSender {
    type V = Option<Msg>;

    closed spec fn view(&self) -> Option<Msg> {
        self.accepted
    }
}

/// The result of offering an outcome, as the caller sees it: a full channel
/// already holds the one outcome, so the offer is a no-op; a disconnected one
/// means the worker is gone.
pub open spec fn offer_result(o: Offer) -> Result<(), TransitionError> {
    match o {
        Offer::Disconnected => Err(TransitionError::WorkerGone),
        _ => Ok(()),
    }
}

/// Turns what the channel did with an offered outcome into the caller's
/// result.
pub fn settle_offer(o: Offer) -> (r: Result<(), TransitionError>)
    ensures
        r == offer_result(o),
{
    match o {
        Offer::Disconnected => Err(TransitionError::WorkerGone),
        _ => Ok(()),
    }
}

impl OutcomeSender {
    /// Hands `msg` to the worker without blocking. Once an outcome has been
    /// accepted, later calls hand nothing over and succeed.
    pub fn notify(&mut self, msg: Msg) -> (r: Result<(), TransitionError>)
        ensures
            old(self)@ is Some ==> r is Ok && final(self)@ == old(self)@,
            old(self)@ is None ==> (r is Ok <==> final(self)@ == Some(msg)),
            old(self)@ is None && r is Err ==> final(self)@ is None,
            r is Err ==> r == Err::<(), TransitionError>(TransitionError::WorkerGone),
    {
        if self.accepted.is_some() {
            return Ok(());
        }
        let o = offer(&self.tx, msg);
        let r = settle_offer(o);
        if r.is_ok() {
            self.accepted = Some(msg);
        }
        r
    }

    /// Reports success to the worker; see `notify`.
    pub fn notify_success(&mut self) -> (r: Result<(), TransitionError>)
        ensures
            old(self)@ is Some ==> r is Ok && final(self)@ == old(self)@,
            old(self)@ is None ==> (r is Ok <==> final(self)@ == Some(Msg::Success)),
            old(self)@ is None && r is Err ==> final(self)@ is None,
            r is Err ==> r == Err::<(), TransitionError>(TransitionError::WorkerGone),
    {
        self.notify(Msg::Success)
    }

    /// Reports failure to the worker; see `notify`.
    pub fn notify_failure(&mut self) -> (r: Result<(), TransitionError>)
        ensures
            old(self)@ is Some ==> r is Ok && final(self)@ == old(self)@,
            old(self)@ is None ==> (r is Ok <==> final(self)@ == Some(Msg::Failure)),
            old(self)@ is None && r is Err ==> final(self)@ is None,
            r is Err ==> r == Err::<(), TransitionError>(TransitionError::WorkerGone),
    {
        self.notify(Msg::Failure)
    }

    /// The outcome the channel has accepted, if any.
    pub fn accepted(&self) -> (r: Option<Msg>)
        ensures
            r == self@,
    {
        self.accepted
    }
}

/// The background side of a started controller: the animation state machine
/// and the receiving end of the outcome channel.
pub struct Worker {
    frames: Vec<Frame>,
    success: Frame,
    failure: Frame,
    next: usize,
    phase: Phase,
    rx: crossbeam_channel::Receiver<Msg>,
}

impl View for Worker {
    type V = Machine;

    closed spec fn view(&self) -> Machine {
        Machine {
            frames: self.frames@,
            success: self.success,
            failure: self.failure,
            next: self.next as nat,
            phase: self.phase,
        }
    }
}

impl Worker {
    /// The animation is non-empty and the next frame lies within it.
    pub closed spec fn wf(&self) -> bool {
        self.frames@.len() > 0 && self.next < self.frames@.len()
    }

    /// One step of the state machine, given what the outcome channel held.
    pub fn decide(&mut self, incoming: Option<Msg>) -> (r: Action)
        requires
            old(self).wf(),
        ensures
            final(self).wf(),
            (final(self)@, r) == poll_step(old(self)@, incoming),
    {
        match self.phase {
            Phase::Animating => match incoming {
                Some(msg) => {
                    self.phase = Phase::Resolving(msg);
                    let frame = match msg {
                        Msg::Success => self.success,
                        Msg::Failure => self.failure,
                    };
                    Action::Resolve(frame)
                },
                None => {
                    let frame = self.frames[self.next];
                    self.next = if self.next >= self.frames.len() - 1 {
                        0
                    } else {
                        self.next + 1
                    };
                    Action::Show(frame)
                },
            },
            _ => Action::Stop,
        }
    }

    /// One poll: while animating, looks once at the outcome channel without
    /// blocking and steps on what it found; afterwards the channel is not read
    /// again.
    pub fn poll(&mut self) -> (r: Action)
        requires
            old(self).wf(),
        ensures
            final(self).wf(),
            old(self)@.phase == Phase::Animating ==> exists|incoming: Option<Msg>|
                (final(self)@, r) == poll_step(old(self)@, incoming),
            old(self)@.phase != Phase::Animating ==> final(self)@ == old(self)@ && r == Action::Stop,
    {
        let incoming = match self.phase {
            Phase::Animating => take(&self.rx),
            _ => None,
        };
        self.decide(incoming)
    }

    /// Records whether the device took the frame of the last action.
    pub fn sent(&mut self, ok: bool)
        requires
            old(self).wf(),
        ensures
            final(self).wf(),
            final(self)@ == sent_step(old(self)@, ok),
    {
        match self.phase {
            Phase::Resolving(_) => {
                self.phase = Phase::Terminated(if ok { None } else { Some(TransitionError::FinalFrameSend) });
            },
            _ => {},
        }
    }

    /// Where the worker stands.
    pub fn phase(&self) -> (r: Phase)
        ensures
            r == self@.phase,
    {
        self.phase
    }

    /// Whether the worker is finished.
    pub fn is_terminated(&self) -> (r: bool)
        ensures
            r == (self@.phase is Terminated),
    {
        match self.phase {
            Phase::Terminated(_) => true,
            _ => false,
        }
    }

    /// The error recorded when the final frame could not be sent.
    pub fn error(&self) -> (r: Option<TransitionError>)
        ensures
            r == (match self@.phase {
                Phase::Terminated(e) => e,
                _ => None,
            }),
    {
        match self.phase {
            Phase::Terminated(e) => e,
            _ => None,
        }
    }
}

} // verus!
