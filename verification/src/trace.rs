//! Runs of events through a submission, and what holds of every run.

use vstd::prelude::*;
use crate::gateway::{received, timeout_message, EffectView, EventView, SubmissionView};
use crate::outcome::{
    outcome_result, ErrorKind, ExecutionResultView, ExecutorErrorView, LocalErrorView,
};
use crate::policy::WaitPolicyView;

verus! {

impl SubmissionView {
    /// The submission after a run of events, first to last.
    pub open spec fn run<T>(self, events: Seq<EventView<T>>) -> SubmissionView
        decreases events.len(),
    {
        if events.len() == 0 {
            self
        } else {
            self.advance(events[0]).run(events.drop_first())
        }
    }

    /// The effects of a run of events, one for each event.
    pub open spec fn effects<T>(self, events: Seq<EventView<T>>) -> Seq<EffectView<T>>
        decreases events.len(),
    {
        if events.len() == 0 {
            Seq::empty()
        } else {
            seq![self.effect_of(events[0])] + self.advance(events[0]).effects(events.drop_first())
        }
    }

    /// The answers that the caller gets over a run of events, in order.
    pub open spec fn answers<T>(self, events: Seq<EventView<T>>) -> Seq<ExecutionResultView<T>>
        decreases events.len(),
    {
        if events.len() == 0 {
            Seq::empty()
        } else {
            let rest = self.advance(events[0]).answers(events.drop_first());
            match self.effect_of(events[0]).response() {
                Some(r) => seq![r] + rest,
                None => rest,
            }
        }
    }

    /// How often the executor is handed the operation over a run of events.
    pub open spec fn launches<T>(self, events: Seq<EventView<T>>) -> nat
        decreases events.len(),
    {
        if events.len() == 0 {
            0
        } else {
            let rest = self.advance(events[0]).launches(events.drop_first());
            if self.effect_of(events[0]).launches() {
                1 + rest
            } else {
                rest
            }
        }
    }
}

/// Every run keeps the phase in agreement with the policy.
pub proof fn lemma_runs_are_well_formed<T>(s: SubmissionView, events: Seq<EventView<T>>)
    requires
        s.well_formed(),
    ensures
        s.run(events).well_formed(),
    decreases events.len(),
{
    if events.len() > 0 {
        lemma_runs_are_well_formed(s.advance(events[0]), events.drop_first());
    }
}

/// Once the caller has been answered, no event changes the submission, asks
/// anything of the driver, or answers again: what the executor does after a
/// timeout or an acknowledgment is never seen by the request.
pub proof fn lemma_answered_is_final<T>(s: SubmissionView, events: Seq<EventView<T>>)
    requires
        s.phase.is_terminal(),
    ensures
        s.run(events) == s,
        s.effects(events).len() == events.len(),
        forall|i: int| 0 <= i < events.len() ==> s.effects(events)[i] == EffectView::<T>::Ignore,
        s.answers(events) == Seq::<ExecutionResultView<T>>::empty(),
        s.launches(events) == 0,
    decreases events.len(),
{
    if events.len() > 0 {
        assert(s.advance(events[0]) == s);
        lemma_answered_is_final(s, events.drop_first());
        assert forall|i: int| 0 <= i < events.len() implies s.effects(events)[i]
            == EffectView::<T>::Ignore by {
            if i > 0 {
                assert(s.effects(events)[i] == s.effects(events.drop_first())[i - 1]);
            }
        }
    }
}

/// Every run answers the caller at most once, and exactly once if it brings the
/// submission to an end: of success, failure and acknowledgment the caller sees
/// one and only one.
pub proof fn lemma_one_answer<T>(policy: WaitPolicyView, events: Seq<EventView<T>>)
    ensures
        received(policy).answers(events).len() == (if received(policy).run(
            events,
        ).phase.is_terminal() {
            1nat
        } else {
            0nat
        }),
{
    lemma_answers_from(received(policy), events);
}

/// From any submission: a run answers once if it ends an open submission, and
/// not at all otherwise.
pub proof fn lemma_answers_from<T>(s: SubmissionView, events: Seq<EventView<T>>)
    ensures
        s.answers(events).len() == (if !s.phase.is_terminal() && s.run(
            events,
        ).phase.is_terminal() {
            1nat
        } else {
            0nat
        }),
        s.phase.is_terminal() ==> s.run(events).phase.is_terminal(),
    decreases events.len(),
{
    if events.len() > 0 {
        if s.phase.is_terminal() {
            lemma_answered_is_final(s, events);
        } else {
            lemma_answers_from(s.advance(events[0]), events.drop_first());
        }
    }
}

/// Every run hands the operation to the executor at most once, and only on
/// arrival.
pub proof fn lemma_launched_at_most_once<T>(policy: WaitPolicyView, events: Seq<EventView<T>>)
    ensures
        received(policy).launches(events) <= 1,
        received(policy).launches(events) == 1 ==> exists|i: int|
            0 <= i < events.len() && #[trigger] events[i] == EventView::<T>::Arrived,
    decreases events.len(),
{
    let s = received(policy);
    if events.len() > 0 {
        let rest = events.drop_first();
        match events[0] {
            EventView::Arrived => {
                lemma_launches_after_arrival(s.advance(events[0]), rest);
                assert(events[0] == EventView::<T>::Arrived);
            },
            EventView::Refused(_) => {
                lemma_answered_is_final(s.advance(events[0]), rest);
            },
            _ => {
                assert(s.advance(events[0]) == s);
                lemma_launched_at_most_once(policy, rest);
                if s.launches(rest) == 1 {
                    let i = choose|i: int|
                        0 <= i < rest.len() && #[trigger] rest[i] == EventView::<T>::Arrived;
                    assert(events[i + 1] == EventView::<T>::Arrived);
                }
            },
        }
    }
}

/// A submission that has left `Received` never launches again.
pub proof fn lemma_launches_after_arrival<T>(s: SubmissionView, events: Seq<EventView<T>>)
    requires
        !(s.phase is Received),
    ensures
        s.launches(events) == 0,
    decreases events.len(),
{
    if events.len() > 0 {
        lemma_launches_after_arrival(s.advance(events[0]), events.drop_first());
    }
}

/// Every request that arrives is submitted, whatever its policy: a timeout or
/// a refusal to wait bounds the caller's wait, never the executor's work.
pub proof fn lemma_always_submitted<T>(policy: WaitPolicyView, rest: Seq<EventView<T>>)
    ensures
        received(policy).effect_of(EventView::<T>::Arrived).launches(),
        received(policy).launches(seq![EventView::<T>::Arrived] + rest) == 1,
{
    let events = seq![EventView::<T>::Arrived] + rest;
    assert(events.drop_first() =~= rest);
    lemma_launches_after_arrival(received(policy).advance(events[0]), rest);
}

/// A caller that does not wait is acknowledged on arrival, before any outcome
/// of the executor is looked at, and is told nothing else whatever follows.
pub proof fn lemma_not_waiting_is_acknowledged<T>(policy: WaitPolicyView, rest: Seq<EventView<T>>)
    requires
        !policy.blocking,
    ensures
        received(policy).effect_of(EventView::<T>::Arrived) == EffectView::<T>::LaunchAndRespond(
            ExecutionResultView::Accepted,
        ),
        received(policy).answers(seq![EventView::<T>::Arrived] + rest) == seq![
            ExecutionResultView::<T>::Accepted,
        ],
        received(policy).run(seq![EventView::<T>::Arrived] + rest).phase is Detached,
{
    let events = seq![EventView::<T>::Arrived] + rest;
    assert(events.drop_first() =~= rest);
    lemma_answered_is_final(received(policy).advance(events[0]), rest);
}

/// A caller that does not wait is never handed a payload, whatever the events
/// and their order: each answer is an acknowledgment or a failure found before
/// the executor was contacted.
pub proof fn lemma_not_waiting_never_succeeds<T>(policy: WaitPolicyView, events: Seq<EventView<T>>)
    requires
        !policy.blocking,
    ensures
        forall|i: int|
            0 <= i < received(policy).answers(events).len() ==> {
                let answer = #[trigger] received(policy).answers(events)[i];
                answer is Accepted || (answer matches ExecutionResultView::Failure(kind, _)
                    && (kind == ErrorKind::BadInput || kind == ErrorKind::IOFailure))
            },
    decreases events.len(),
{
    let s = received(policy);
    if events.len() > 0 {
        let rest = events.drop_first();
        match events[0] {
            EventView::Arrived => {
                lemma_answered_is_final(s.advance(events[0]), rest);
            },
            EventView::Refused(_) => {
                lemma_answered_is_final(s.advance(events[0]), rest);
            },
            _ => {
                assert(s.advance(events[0]) == s);
                lemma_not_waiting_never_succeeds(policy, rest);
            },
        }
    }
}

/// A caller that waits is never put off with an acknowledgment: whatever the
/// events, it is told of a success or of a failure, and the submission never
/// ends up detached. This is so of every collection-meta and cluster request.
pub proof fn lemma_waiting_is_never_acknowledged<T>(s: SubmissionView, events: Seq<EventView<T>>)
    requires
        s.policy.blocking,
        !(s.phase is Detached),
    ensures
        !(s.run(events).phase is Detached),
        forall|i: int|
            0 <= i < s.answers(events).len() ==> !(#[trigger] s.answers(events)[i] is Accepted),
    decreases events.len(),
{
    if events.len() > 0 {
        lemma_waiting_is_never_acknowledged(s.advance(events[0]), events.drop_first());
    }
}

/// A run in which the request arrives and the timer goes off before anything
/// is heard from the executor.
pub open spec fn timer_first<T>(rest: Seq<EventView<T>>) -> Seq<EventView<T>> {
    seq![EventView::<T>::Arrived, EventView::<T>::TimerExpired] + rest
}

/// Where the timer goes off before the executor finishes, the caller gets a
/// timeout failure and nothing else. The operation was submitted, nothing asks
/// for it to be stopped, and its later outcome is dropped.
pub proof fn lemma_timer_first_times_out<T>(policy: WaitPolicyView, rest: Seq<EventView<T>>)
    requires
        policy.blocking,
        policy.timeout is Some,
    ensures
        received(policy).effect_of(EventView::<T>::Arrived) == (EffectView::<T>::LaunchAndWait {
            timer: policy.timeout,
        }),
        received(policy).answers(timer_first(rest)) == seq![
            ExecutionResultView::<T>::Failure(ErrorKind::Timeout, timeout_message()),
        ],
        received(policy).run(timer_first(rest)).phase is TimedOut,
        received(policy).launches(timer_first(rest)) == 1,
        forall|i: int|
            2 <= i < rest.len() + 2 ==> #[trigger] received(policy).effects(timer_first(rest))[i]
                == EffectView::<T>::Ignore,
{
    let events = timer_first(rest);
    let s0 = received(policy);
    let s1 = s0.advance(events[0]);
    let tail1 = events.drop_first();
    let s2 = s1.advance(tail1[0]);
    assert(tail1.drop_first() =~= rest);
    lemma_answered_is_final(s2, rest);
    assert(s1.run(tail1) == s2.run(rest));
    assert(s0.run(events) == s1.run(tail1));
    assert(s1.answers(tail1) == seq![
        ExecutionResultView::<T>::Failure(ErrorKind::Timeout, timeout_message()),
    ]);
    assert(s1.launches(tail1) == 0);
    assert forall|i: int| 2 <= i < rest.len() + 2 implies #[trigger] s0.effects(events)[i]
        == EffectView::<T>::Ignore by {
        assert(s0.effects(events)[i] == s1.effects(tail1)[i - 1]);
        assert(s1.effects(tail1)[i - 1] == s2.effects(rest)[i - 2]);
    }
}

/// Where the executor finishes while the caller waits, the caller gets its
/// outcome and nothing else: the payload as a success, an error as a failure
/// of the same kind with the same message.
pub proof fn lemma_waiting_gets_the_outcome<T>(
    policy: WaitPolicyView,
    outcome: Result<T, ExecutorErrorView>,
    rest: Seq<EventView<T>>,
)
    requires
        policy.blocking,
    ensures
        received(policy).answers(seq![EventView::Arrived, EventView::Finished(outcome)] + rest)
            == seq![outcome_result(outcome)],
        received(policy).run(seq![EventView::Arrived, EventView::Finished(outcome)] + rest).phase
            is Completed,
{
    let events = seq![EventView::Arrived, EventView::Finished(outcome)] + rest;
    let s1 = received(policy).advance(events[0]);
    let tail1 = events.drop_first();
    let s2 = s1.advance(tail1[0]);
    assert(tail1.drop_first() =~= rest);
    lemma_answered_is_final(s2, rest);
    assert(s1.run(tail1) == s2.run(rest));
    assert(received(policy).run(events) == s1.run(tail1));
    assert(s1.answers(tail1) == seq![outcome_result(outcome)]);
}

/// A request that is refused before submission is answered with that failure
/// and never reaches the executor.
pub proof fn lemma_refused_never_launches<T>(
    policy: WaitPolicyView,
    error: LocalErrorView,
    rest: Seq<EventView<T>>,
)
    ensures
        received(policy).answers(seq![EventView::<T>::Refused(error)] + rest) == seq![
            error.result::<T>(),
        ],
        received(policy).launches(seq![EventView::<T>::Refused(error)] + rest) == 0,
{
    let events = seq![EventView::<T>::Refused(error)] + rest;
    assert(events.drop_first() =~= rest);
    lemma_answered_is_final(received(policy).advance(events[0]), rest);
}

/// A caller that set no wait bound is never told of a timeout: the submission
/// never times out, and no answer is a timeout failure.
pub proof fn lemma_unbounded_never_times_out<T>(s: SubmissionView, events: Seq<EventView<T>>)
    requires
        s.policy.timeout is None,
        !(s.phase is TimedOut),
    ensures
        !(s.run(events).phase is TimedOut),
        forall|i: int|
            0 <= i < s.answers(events).len() ==> !(#[trigger] s.answers(events)[i]
                matches ExecutionResultView::Failure(ErrorKind::Timeout, _)),
    decreases events.len(),
{
    if events.len() > 0 {
        lemma_unbounded_never_times_out(s.advance(events[0]), events.drop_first());
    }
}

/// The gateway keeps nothing from one request to the next: each caller that
/// waits is told what the executor made of its own request. Deleting the same
/// collection twice is therefore answered as the executor answers it, with a
/// success and then, the collection being gone, with a not-found failure that
/// carries the executor's message.
pub proof fn lemma_each_request_gets_its_own_outcome<T>(
    first: WaitPolicyView,
    second: WaitPolicyView,
    payload: T,
    message: Seq<char>,
)
    requires
        first.blocking,
        second.blocking,
    ensures
        received(first).answers(seq![EventView::Arrived, EventView::Finished(Ok(payload))])
            == seq![ExecutionResultView::Success(payload)],
        received(second).answers(
            seq![
                EventView::<T>::Arrived,
                EventView::Finished(Err(ExecutorErrorView::NotFound(message))),
            ],
        ) == seq![ExecutionResultView::<T>::Failure(ErrorKind::NotFound, message)],
{
    let none = Seq::<EventView<T>>::empty();
    let gone = Err::<T, ExecutorErrorView>(ExecutorErrorView::NotFound(message));
    lemma_waiting_gets_the_outcome(first, Ok(payload), none);
    lemma_waiting_gets_the_outcome(second, gone, none);
    assert(seq![EventView::Arrived, EventView::Finished(Ok(payload))] + none =~= seq![
        EventView::Arrived,
        EventView::Finished(Ok(payload)),
    ]);
    assert(seq![EventView::<T>::Arrived, EventView::Finished(gone)] + none =~= seq![
        EventView::<T>::Arrived,
        EventView::Finished(gone),
    ]);
}

} // verus!
