use std::time::Duration;

use submission_gateway::gateway::{timeout_failure, Effect, Event, Phase, Submission};
use submission_gateway::outcome::{ErrorKind, ExecutionResult, ExecutorError, LocalError};
use submission_gateway::policy::{SnapshottingParam, WaitPolicy, WaitTimeout};

fn waiting(timeout: Option<Duration>) -> WaitPolicy {
    WaitPolicy { blocking: true, timeout }
}

fn not_waiting() -> WaitPolicy {
    WaitPolicy { blocking: false, timeout: None }
}

fn timed_out() -> ExecutionResult<u32> {
    ExecutionResult::Failure(
        ErrorKind::Timeout,
        "Timeout: the operation is still running".to_string(),
    )
}

/// Feeds the events to a fresh submission and returns the effects with the
/// submission as it stands at the end.
fn run(policy: WaitPolicy, events: Vec<Event<u32>>) -> (Vec<Effect<u32>>, Submission) {
    let mut submission = Submission::new(policy);
    let mut effects = Vec::new();
    for event in events {
        effects.push(submission.step(event));
    }
    (effects, submission)
}

fn answers(effects: &[Effect<u32>]) -> Vec<ExecutionResult<u32>> {
    let mut answers = Vec::new();
    for effect in effects {
        match effect {
            Effect::LaunchAndRespond(r) | Effect::Respond(r) => answers.push(r.clone()),
            _ => {}
        }
    }
    answers
}

fn launches(effects: &[Effect<u32>]) -> usize {
    effects
        .iter()
        .filter(|e| matches!(e, Effect::LaunchAndWait { .. } | Effect::LaunchAndRespond(_)))
        .count()
}

#[test]
fn a_new_submission_is_received() {
    let submission = Submission::new(waiting(None));
    assert_eq!(submission.phase(), Phase::Received);
    assert_eq!(submission.policy(), waiting(None));
    assert!(!submission.is_terminal());
}

#[test]
fn waiting_without_bound_launches_and_waits() {
    let (effects, submission) = run(waiting(None), vec![Event::Arrived]);
    assert_eq!(effects, vec![Effect::LaunchAndWait { timer: None }]);
    assert_eq!(submission.phase(), Phase::Dispatched);
    assert!(!submission.is_terminal());
}

#[test]
fn waiting_with_bound_arms_the_timer() {
    let bound = Duration::from_secs(7);
    let (effects, submission) = run(waiting(Some(bound)), vec![Event::Arrived]);
    assert_eq!(effects, vec![Effect::LaunchAndWait { timer: Some(bound) }]);
    assert_eq!(submission.phase(), Phase::Dispatched);
}

#[test]
fn not_waiting_is_acknowledged_on_arrival() {
    let (effects, submission) = run(not_waiting(), vec![Event::Arrived]);
    assert_eq!(effects, vec![Effect::LaunchAndRespond(ExecutionResult::Accepted)]);
    assert_eq!(submission.phase(), Phase::Detached);
    assert!(submission.is_terminal());
}

#[test]
fn not_waiting_ignores_a_bound() {
    let policy = WaitPolicy { blocking: false, timeout: Some(Duration::from_secs(1)) };
    let (effects, submission) = run(policy, vec![Event::Arrived, Event::TimerExpired]);
    assert_eq!(
        effects,
        vec![Effect::LaunchAndRespond(ExecutionResult::Accepted), Effect::Ignore]
    );
    assert_eq!(submission.phase(), Phase::Detached);
}

#[test]
fn outcome_after_acknowledgment_is_not_seen() {
    let (effects, submission) = run(
        not_waiting(),
        vec![
            Event::Arrived,
            Event::Finished(Err(ExecutorError::Failure("disk full".to_string()))),
            Event::Finished(Ok(1)),
        ],
    );
    assert_eq!(answers(&effects), vec![ExecutionResult::Accepted]);
    assert_eq!(effects[1], Effect::Ignore);
    assert_eq!(effects[2], Effect::Ignore);
    assert_eq!(submission.phase(), Phase::Detached);
}

#[test]
fn success_is_passed_on() {
    let (effects, submission) = run(waiting(None), vec![Event::Arrived, Event::Finished(Ok(41))]);
    assert_eq!(effects[1], Effect::Respond(ExecutionResult::Success(41)));
    assert_eq!(submission.phase(), Phase::Completed);
    assert!(submission.is_terminal());
}

#[test]
fn executor_errors_keep_kind_and_message() {
    let not_found = ExecutorError::NotFound("no such collection".to_string());
    let conflict = ExecutorError::Conflict("already exists".to_string());
    let failure = ExecutorError::Failure("consensus lost".to_string());
    let cases = vec![
        (not_found, ErrorKind::NotFound, "no such collection"),
        (conflict, ErrorKind::Conflict, "already exists"),
        (failure, ErrorKind::ExecutorFailure, "consensus lost"),
    ];
    for (error, kind, message) in cases {
        let (effects, submission) =
            run(waiting(None), vec![Event::Arrived, Event::Finished(Err(error))]);
        assert_eq!(
            effects[1],
            Effect::Respond(ExecutionResult::Failure(kind, message.to_string()))
        );
        assert_eq!(submission.phase(), Phase::Completed);
    }
}

#[test]
fn timer_before_executor_is_a_timeout() {
    let bound = Duration::from_secs(1);
    let (effects, submission) = run(
        waiting(Some(bound)),
        vec![Event::Arrived, Event::TimerExpired, Event::Finished(Ok(5))],
    );
    assert_eq!(
        effects,
        vec![
            Effect::LaunchAndWait { timer: Some(bound) },
            Effect::Respond(timed_out()),
            Effect::Ignore,
        ]
    );
    assert_eq!(submission.phase(), Phase::TimedOut);
    assert!(submission.is_terminal());
    assert_eq!(launches(&effects), 1);
}

#[test]
fn executor_before_timer_is_its_outcome() {
    let (effects, submission) = run(
        waiting(Some(Duration::from_secs(1))),
        vec![Event::Arrived, Event::Finished(Ok(5)), Event::TimerExpired],
    );
    assert_eq!(answers(&effects), vec![ExecutionResult::Success(5)]);
    assert_eq!(effects[2], Effect::Ignore);
    assert_eq!(submission.phase(), Phase::Completed);
}

#[test]
fn timer_without_bound_is_ignored() {
    let (effects, submission) = run(waiting(None), vec![Event::Arrived, Event::TimerExpired]);
    assert_eq!(effects[1], Effect::Ignore);
    assert_eq!(submission.phase(), Phase::Dispatched);
    assert!(!submission.is_terminal());
}

#[test]
fn timeout_failure_has_its_message() {
    assert_eq!(timeout_failure::<u32>(), timed_out());
}

#[test]
fn refused_request_never_reaches_the_executor() {
    for policy in [waiting(None), waiting(Some(Duration::ZERO)), not_waiting()] {
        let (effects, submission) = run(
            policy,
            vec![
                Event::Refused(LocalError::BadInput("name is empty".to_string())),
                Event::Arrived,
                Event::Finished(Ok(1)),
            ],
        );
        assert_eq!(
            effects,
            vec![
                Effect::Respond(ExecutionResult::Failure(
                    ErrorKind::BadInput,
                    "name is empty".to_string()
                )),
                Effect::Ignore,
                Effect::Ignore,
            ]
        );
        assert_eq!(launches(&effects), 0);
        assert_eq!(submission.phase(), Phase::Completed);
    }
}

#[test]
fn io_failure_is_reported_as_such() {
    let (effects, _) = run(
        not_waiting(),
        vec![Event::Refused(LocalError::IOFailure("No space left on device".to_string()))],
    );
    assert_eq!(
        effects,
        vec![Effect::Respond(ExecutionResult::Failure(
            ErrorKind::IOFailure,
            "No space left on device".to_string()
        ))]
    );
}

#[test]
fn events_before_arrival_are_ignored() {
    let (effects, submission) = run(
        waiting(Some(Duration::from_secs(1))),
        vec![Event::Finished(Ok(1)), Event::TimerExpired],
    );
    assert_eq!(effects, vec![Effect::Ignore, Effect::Ignore]);
    assert_eq!(submission.phase(), Phase::Received);
}

#[test]
fn second_arrival_does_not_launch_again() {
    let (effects, submission) = run(waiting(None), vec![Event::Arrived, Event::Arrived]);
    assert_eq!(launches(&effects), 1);
    assert_eq!(effects[1], Effect::Ignore);
    assert_eq!(submission.phase(), Phase::Dispatched);
}

#[test]
fn every_run_answers_at_most_once() {
    let scripts: Vec<Vec<u8>> = vec![
        vec![0, 2, 3, 2, 1],
        vec![0, 3, 2, 3],
        vec![1, 0, 2],
        vec![2, 3, 0, 3, 2, 2],
        vec![3, 3, 3],
        vec![0, 0, 0],
        vec![],
    ];
    let policies = [
        waiting(None),
        waiting(Some(Duration::from_secs(2))),
        not_waiting(),
        WaitPolicy { blocking: false, timeout: Some(Duration::from_secs(2)) },
    ];
    for policy in policies {
        for script in &scripts {
            let events = script
                .iter()
                .map(|code| match code {
                    0 => Event::Arrived,
                    1 => Event::Refused(LocalError::BadInput("bad".to_string())),
                    2 => Event::Finished(Ok(9)),
                    _ => Event::TimerExpired,
                })
                .collect();
            let (effects, submission) = run(policy, events);
            let answered = answers(&effects).len();
            assert!(answered <= 1);
            assert_eq!(answered == 1, submission.is_terminal());
            assert!(launches(&effects) <= 1);
            if !policy.blocking {
                assert!(answers(&effects).iter().all(|r| !r.is_success()));
            } else {
                assert!(answers(&effects).iter().all(|r| !r.is_accepted()));
            }
        }
    }
}

#[test]
fn policies_of_the_endpoints_drive_the_submission() {
    let mut submission = Submission::new(WaitTimeout { timeout: Some(0) }.policy());
    assert_eq!(
        submission.step::<u32>(Event::Arrived),
        Effect::LaunchAndWait { timer: Some(Duration::ZERO) }
    );
    assert_eq!(submission.step::<u32>(Event::TimerExpired), Effect::Respond(timed_out()));

    let mut submission = Submission::new(SnapshottingParam { wait: Some(false) }.policy());
    assert_eq!(
        submission.step::<u32>(Event::Arrived),
        Effect::LaunchAndRespond(ExecutionResult::Accepted)
    );

    let mut submission = Submission::new(SnapshottingParam { wait: None }.policy());
    assert_eq!(submission.step::<u32>(Event::Arrived), Effect::LaunchAndWait { timer: None });
}
