use reboost::classifier::{classify, ReactionDecision};
use reboost::model::{Account, Event, Notification, NotificationKind, Post};
use reboost::supervisor::{
    FailureClass, PolicyDecision, RestartPolicy, Supervisor, SupervisorInput, SupervisorState,
};

const TRUSTED: &str = "https://trusted.example/";

fn mention(profile_url: &str, post_id: Option<&str>) -> Event {
    Event::Notification(Notification {
        kind: NotificationKind::Mention,
        origin_account: Account { profile_url: profile_url.to_string() },
        subject_post: post_id.map(|id| Post { id: id.to_string(), public_url: None }),
    })
}

fn follow(profile_url: &str) -> Event {
    Event::Notification(Notification {
        kind: NotificationKind::Follow,
        origin_account: Account { profile_url: profile_url.to_string() },
        subject_post: None,
    })
}

#[test]
fn transient_failure_then_success_reaches_streaming() {
    let mut sup = Supervisor::new(RestartPolicy::Unbounded { delay_ms: 5 });
    assert_eq!(sup.state, SupervisorState::Connecting);

    let delay = sup.step(SupervisorInput::ConnectFailed(FailureClass::Transient));
    assert_eq!(sup.state, SupervisorState::BackoffWait);
    assert_eq!(delay, Some(5));
    assert_eq!(sup.attempts, 1);

    let delay = sup.step(SupervisorInput::BackoffElapsed);
    assert_eq!(sup.state, SupervisorState::Connecting);
    assert_eq!(delay, None);

    let delay = sup.step(SupervisorInput::ConnectSucceeded);
    assert_eq!(sup.state, SupervisorState::Streaming);
    assert_eq!(delay, None);
    assert_eq!(sup.attempts, 0);
}

#[test]
fn fatal_failure_terminates_without_backoff() {
    let mut sup = Supervisor::new(RestartPolicy::Unbounded { delay_ms: 5 });
    sup.step(SupervisorInput::ConnectSucceeded);
    assert_eq!(sup.state, SupervisorState::Streaming);

    let delay = sup.step(SupervisorInput::StreamFailed(FailureClass::FatalAuth));
    assert_eq!(sup.state, SupervisorState::Terminated);
    assert_eq!(delay, None);

    let inputs = vec![
        SupervisorInput::BackoffElapsed,
        SupervisorInput::ConnectSucceeded,
        SupervisorInput::StreamFailed(FailureClass::Transient),
        SupervisorInput::ConnectFailed(FailureClass::Transient),
    ];
    for input in inputs {
        let delay = sup.step(input);
        assert_eq!(sup.state, SupervisorState::Terminated);
        assert_eq!(delay, None);
    }
}

#[test]
fn fatal_failure_while_connecting_terminates() {
    let mut sup = Supervisor::new(RestartPolicy::Unbounded { delay_ms: 0 });
    let delay = sup.step(SupervisorInput::ConnectFailed(FailureClass::FatalAuth));
    assert_eq!(sup.state, SupervisorState::Terminated);
    assert_eq!(delay, None);
}

#[test]
fn exactly_one_reaction_among_five_events() {
    let events = vec![
        follow("https://trusted.example/@dan"),
        mention("https://elsewhere.example/@mallory", Some("p-1")),
        mention("https://trusted.example/@alice", Some("p-42")),
        Event::Other,
        mention("https://trusted.example/@erin", None),
    ];
    let mut dispatched: Vec<String> = Vec::new();
    for event in &events {
        if let ReactionDecision::Act(request) = classify(event, TRUSTED) {
            dispatched.push(request.post_id);
        }
    }
    assert_eq!(dispatched, vec!["p-42".to_string()]);
}

#[test]
fn reaction_failure_does_not_stop_the_session() {
    let mut sup = Supervisor::new(RestartPolicy::NoRetry);
    sup.step(SupervisorInput::ConnectSucceeded);
    assert_eq!(sup.state, SupervisorState::Streaming);

    let first = mention("https://trusted.example/@alice", Some("p-1"));
    assert!(matches!(classify(&first, TRUSTED), ReactionDecision::Act(_)));
    let delay = sup.step(SupervisorInput::ReactionFailed);
    assert_eq!(sup.state, SupervisorState::Streaming);
    assert_eq!(delay, None);

    let second = mention("https://trusted.example/@bob", Some("p-2"));
    match classify(&second, TRUSTED) {
        ReactionDecision::Act(request) => assert_eq!(request.post_id, "p-2"),
        ReactionDecision::Ignore => panic!("the second event must still be acted on"),
    }
    let delay = sup.step(SupervisorInput::ReactionSucceeded);
    assert_eq!(sup.state, SupervisorState::Streaming);
    assert_eq!(delay, None);
}

#[test]
fn bounded_policy_stops_after_exhaustion() {
    let mut sup = Supervisor::new(RestartPolicy::Bounded { max_attempts: 2, delay_ms: 7 });

    let delay = sup.step(SupervisorInput::ConnectFailed(FailureClass::Transient));
    assert_eq!(sup.state, SupervisorState::BackoffWait);
    assert_eq!(delay, Some(7));
    sup.step(SupervisorInput::BackoffElapsed);

    let delay = sup.step(SupervisorInput::ConnectFailed(FailureClass::Transient));
    assert_eq!(sup.state, SupervisorState::BackoffWait);
    assert_eq!(delay, Some(7));
    sup.step(SupervisorInput::BackoffElapsed);

    let delay = sup.step(SupervisorInput::ConnectFailed(FailureClass::Transient));
    assert_eq!(sup.state, SupervisorState::Terminated);
    assert_eq!(delay, None);
    assert_eq!(sup.attempts, 3);
}

#[test]
fn no_retry_policy_stops_at_first_failure() {
    let mut sup = Supervisor::new(RestartPolicy::NoRetry);
    sup.step(SupervisorInput::ConnectSucceeded);
    let delay = sup.step(SupervisorInput::StreamFailed(FailureClass::Transient));
    assert_eq!(sup.state, SupervisorState::Terminated);
    assert_eq!(delay, None);
}

#[test]
fn clean_close_is_retried_like_a_transient_failure() {
    let mut sup = Supervisor::new(RestartPolicy::Unbounded { delay_ms: 3 });
    sup.step(SupervisorInput::ConnectSucceeded);
    let delay = sup.step(SupervisorInput::StreamClosed);
    assert_eq!(sup.state, SupervisorState::BackoffWait);
    assert_eq!(delay, Some(3));
    assert_eq!(sup.attempts, 1);
}

#[test]
fn successful_reconnect_clears_the_failure_counter() {
    let mut sup = Supervisor::new(RestartPolicy::Bounded { max_attempts: 1, delay_ms: 0 });
    sup.step(SupervisorInput::ConnectFailed(FailureClass::Transient));
    sup.step(SupervisorInput::BackoffElapsed);
    sup.step(SupervisorInput::ConnectSucceeded);
    assert_eq!(sup.attempts, 0);
    sup.step(SupervisorInput::StreamClosed);
    assert_eq!(sup.state, SupervisorState::BackoffWait);
    assert_eq!(sup.attempts, 1);
}

#[test]
fn failure_counter_pins_at_its_maximum() {
    let mut sup = Supervisor {
        state: SupervisorState::Streaming,
        attempts: u64::MAX,
        policy: RestartPolicy::Unbounded { delay_ms: 1 },
    };
    let delay = sup.step(SupervisorInput::StreamFailed(FailureClass::Transient));
    assert_eq!(sup.attempts, u64::MAX);
    assert_eq!(sup.state, SupervisorState::BackoffWait);
    assert_eq!(delay, Some(1));
}

#[test]
fn policy_decisions_match_their_strategies() {
    let unbounded = RestartPolicy::Unbounded { delay_ms: 11 };
    assert_eq!(
        unbounded.decide(1_000_000, FailureClass::Transient),
        PolicyDecision::Retry { delay_ms: 11 }
    );
    assert_eq!(unbounded.decide(1, FailureClass::FatalAuth), PolicyDecision::Stop);

    let bounded = RestartPolicy::Bounded { max_attempts: 10, delay_ms: 2 };
    assert_eq!(
        bounded.decide(10, FailureClass::Transient),
        PolicyDecision::Retry { delay_ms: 2 }
    );
    assert_eq!(bounded.decide(11, FailureClass::Transient), PolicyDecision::Stop);

    assert_eq!(RestartPolicy::NoRetry.decide(1, FailureClass::Transient), PolicyDecision::Stop);
}
