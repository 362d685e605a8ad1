//! The submission gateway: one operation under one wait policy, from arrival
//! to exactly one answer.
//!
//! The gateway decides; its driver acts. The driver feeds a [`Submission`] the
//! events it observes (the request arrived, the executor finished, the timer
//! expired) and carries out the [`Effect`] that each step returns. A submission
//! never asks for the executor's work to be cancelled: giving up a wait only
//! detaches the caller from it.

use std::time::Duration;
use vstd::prelude::*;
use crate::outcome::{
    outcome_result, outcome_view, ErrorKind, ExecutionResult, ExecutionResultView, ExecutorError,
    ExecutorErrorView, LocalError, LocalErrorView,
};
use crate::policy::{duration_nanos, WaitPolicy, WaitPolicyView};

verus! {

/// Where a submission stands.
#[derive(Clone, Copy, Debug, PartialEq, Eq, Structural)]
pub enum Phase {
    /// The request is known; nothing has been handed to the executor.
    Received,
    /// The executor is at work and the caller is waiting.
    Dispatched,
    /// The caller was answered with the executor's outcome, or was refused
    /// before the executor was contacted.
    Completed,
    /// The caller's wait bound elapsed; the executor's work goes on unobserved.
    TimedOut,
    /// The caller was acknowledged at once; the executor's work goes on
    /// unobserved.
    Detached,
}

impl Phase {
    /// Whether the caller has been answered.
    pub open spec fn is_terminal(self) -> bool {
        self is Completed || self is TimedOut || self is Detached
    }
}

/// What the driver observed.
#[derive(Debug, PartialEq, Eq)]
pub enum Event<T> {
    /// The request passed the decoding boundary and is ready to be submitted.
    Arrived,
    /// The request failed before the executor could be contacted.
    Refused(LocalError),
    /// The executor's task ended with this outcome.
    Finished(Result<T, ExecutorError>),
    /// The timer armed for the caller's wait bound went off.
    TimerExpired,
}

/// Mathematical model of an [`Event`].
pub enum EventView<T> {
    Arrived,
    Refused(LocalErrorView),
    Finished(Result<T, ExecutorErrorView>),
    TimerExpired,
}

impl<T> View for Event<T> {
    type V = EventView<T>;

    open spec fn view(&self) -> EventView<T> {
        match self {
            Event::Arrived => EventView::Arrived,
            Event::Refused(e) => EventView::Refused(e@),
            Event::Finished(outcome) => EventView::Finished(outcome_view(*outcome)),
            Event::TimerExpired => EventView::TimerExpired,
        }
    }
}

/// What the driver is to do next.
#[derive(Clone, Debug, PartialEq, Eq)]
pub enum Effect<T> {
    /// Start the executor's task now and wait for it, with a timer for the
    /// given bound where there is one.
    LaunchAndWait { timer: Option<Duration> },
    /// Start the executor's task now, answer the caller with the given result
    /// and leave the task to itself.
    LaunchAndRespond(ExecutionResult<T>),
    /// Answer the caller with the given result. A task that is still running
    /// is left to itself.
    Respond(ExecutionResult<T>),
    /// Nothing: the event has no bearing on this request any more.
    Ignore,
}

/// Mathematical model of an [`Effect`]: a timer's bound in nanoseconds.
pub enum EffectView<T> {
    LaunchAndWait { timer: Option<nat> },
    LaunchAndRespond(ExecutionResultView<T>),
    Respond(ExecutionResultView<T>),
    Ignore,
}

impl<T> EffectView<T> {
    /// Whether the effect hands the operation to the executor.
    pub open spec fn launches(self) -> bool {
        self is LaunchAndWait || self is LaunchAndRespond
    }

    /// The answer that the effect gives the caller, if it gives one.
    pub open spec fn response(self) -> Option<ExecutionResultView<T>> {
        match self {
            EffectView::LaunchAndRespond(r) => Some(r),
            EffectView::Respond(r) => Some(r),
            _ => None,
        }
    }
}

impl<T> View for Effect<T> {
    type V = EffectView<T>;

    open spec fn view(&self) -> EffectView<T> {
        match self {
            Effect::LaunchAndWait { timer } => EffectView::LaunchAndWait {
                timer: match timer {
                    Some(d) => Some(duration_nanos(*d)),
                    None => None,
                },
            },
            Effect::LaunchAndRespond(r) => EffectView::LaunchAndRespond(r@),
            Effect::Respond(r) => EffectView::Respond(r@),
            Effect::Ignore => EffectView::Ignore,
        }
    }
}

/// The message of the failure that a caller gets when its wait bound elapses.
pub open spec fn timeout_message() -> Seq<char> {
    "Timeout: the operation is still running"@
}

/// One operation's passage through the gateway. Its phase always agrees with
/// its policy: only a caller that waits is kept waiting, only one with a wait
/// bound runs into it, and only one that does not wait is detached on arrival.
#[derive(Clone, Copy, Debug, PartialEq, Eq)]
pub struct Submission {
    phase: Phase,
    policy: WaitPolicy,
}

/// Mathematical model of a [`Submission`].
pub struct SubmissionView {
    pub phase: Phase,
    pub policy: WaitPolicyView,
}

impl View for Submission {
    type V = SubmissionView;

    closed spec fn view(&self) -> SubmissionView {
        SubmissionView { phase: self.phase, policy: self.policy@ }
    }
}

/// A submission that has just been received under the given policy.
pub open spec fn received(policy: WaitPolicyView) -> SubmissionView {
    SubmissionView { phase: Phase::Received, policy }
}

impl SubmissionView {
    /// Whether the phase is one that the policy allows.
    pub open spec fn well_formed(self) -> bool {
        match self.phase {
            Phase::Received => true,
            Phase::Dispatched => self.policy.blocking,
            Phase::Completed => true,
            Phase::TimedOut => self.policy.blocking && self.policy.timeout is Some,
            Phase::Detached => !self.policy.blocking,
        }
    }

    /// The phase that an event moves the submission to.
    pub open spec fn next_phase<T>(self, event: EventView<T>) -> Phase {
        match (self.phase, event) {
            (Phase::Received, EventView::Arrived) => if self.policy.blocking {
                Phase::Dispatched
            } else {
                Phase::Detached
            },
            (Phase::Received, EventView::Refused(_)) => Phase::Completed,
            (Phase::Dispatched, EventView::Finished(_)) => Phase::Completed,
            (Phase::Dispatched, EventView::TimerExpired) => if self.policy.timeout is Some {
                Phase::TimedOut
            } else {
                Phase::Dispatched
            },
            _ => self.phase,
        }
    }

    /// The submission after an event; the policy never changes.
    pub open spec fn advance<T>(self, event: EventView<T>) -> SubmissionView {
        SubmissionView { phase: self.next_phase(event), policy: self.policy }
    }

    /// What the driver is told to do on an event.
    pub open spec fn effect_of<T>(self, event: EventView<T>) -> EffectView<T> {
        match (self.phase, event) {
            (Phase::Received, EventView::Arrived) => if self.policy.blocking {
                EffectView::LaunchAndWait { timer: self.policy.timeout }
            } else {
                EffectView::LaunchAndRespond(ExecutionResultView::Accepted)
            },
            (Phase::Received, EventView::Refused(e)) => EffectView::Respond(e.result()),
            (Phase::Dispatched, EventView::Finished(outcome)) => EffectView::Respond(
                outcome_result(outcome),
            ),
            (Phase::Dispatched, EventView::TimerExpired) => if self.policy.timeout is Some {
                EffectView::Respond(
                    ExecutionResultView::Failure(ErrorKind::Timeout, timeout_message()),
                )
            } else {
                EffectView::Ignore
            },
            _ => EffectView::Ignore,
        }
    }
}

impl Submission {
    #[verifier::type_invariant]
    spec fn phase_agrees_with_policy(self) -> bool {
        self@.well_formed()
    }

    /// Takes in a request under the given policy.
    pub fn new(policy: WaitPolicy) -> (s: Submission)
        ensures
            s@ == received(policy@),
    {
        Submission { phase: Phase::Received, policy }
    }

    /// Where the submission stands.
    pub fn phase(&self) -> (phase: Phase)
        ensures
            phase == self@.phase,
            self@.well_formed(),
    {
        proof {
            use_type_invariant(self);
        }
        self.phase
    }

    /// The policy under which the request is waited for.
    pub fn policy(&self) -> (policy: WaitPolicy)
        ensures
            policy@ == self@.policy,
    {
        self.policy
    }

    /// Whether the caller has been answered.
    pub fn is_terminal(&self) -> (b: bool)
        ensures
            b == self@.phase.is_terminal(),
    {
        match self.phase {
            Phase::Completed | Phase::TimedOut | Phase::Detached => true,
            _ => false,
        }
    }

    /// Takes one event and says what the driver is to do.
    pub fn step<T>(&mut self, event: Event<T>) -> (effect: Effect<T>)
        ensures
            final(self)@ == old(self)@.advance(event@),
            effect@ == old(self)@.effect_of(event@),
    {
        proof {
            use_type_invariant(&*self);
        }
        match self.phase {
            Phase::Received => match event {
                Event::Arrived => {
                    if self.policy.blocking {
                        self.phase = Phase::Dispatched;
                        Effect::LaunchAndWait { timer: self.policy.timeout }
                    } else {
                        self.phase = Phase::Detached;
                        Effect::LaunchAndRespond(ExecutionResult::Accepted)
                    }
                },
                Event::Refused(e) => {
                    self.phase = Phase::Completed;
                    Effect::Respond(e.into_result())
                },
                _ => Effect::Ignore,
            },
            Phase::Dispatched => match event {
                Event::Finished(outcome) => {
                    self.phase = Phase::Completed;
                    Effect::Respond(ExecutionResult::from_outcome(outcome))
                },
                Event::TimerExpired => {
                    if self.policy.timeout.is_some() {
                        self.phase = Phase::TimedOut;
                        Effect::Respond(timeout_failure())
                    } else {
                        Effect::Ignore
                    }
                },
                _ => Effect::Ignore,
            },
            _ => Effect::Ignore,
        }
    }
}

/// The failure that a caller gets when its wait bound elapses.
pub fn timeout_failure<T>() -> (r: ExecutionResult<T>)
    ensures
        r@ == ExecutionResultView::<T>::Failure(ErrorKind::Timeout, timeout_message()),
{
    let message = "Timeout: the operation is still running".to_owned();
    ExecutionResult::Failure(ErrorKind::Timeout, message)
}

} // verus!
