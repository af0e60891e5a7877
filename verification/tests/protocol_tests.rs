use mqtt_healthcheck::config::ProbeConfig;
use mqtt_healthcheck::listener::evaluate;
use mqtt_healthcheck::listener::InboundMessage;
use mqtt_healthcheck::listener::Verdict;
use mqtt_healthcheck::machine::exit_code;
use mqtt_healthcheck::machine::initial_state;
use mqtt_healthcheck::machine::request_message;
use mqtt_healthcheck::machine::step;
use mqtt_healthcheck::machine::Action;
use mqtt_healthcheck::machine::Event;
use mqtt_healthcheck::machine::FailureReason;
use mqtt_healthcheck::machine::ProbeOutcome;
use mqtt_healthcheck::machine::ProbeState;

fn b(s: &str) -> Vec<u8> {
    s.as_bytes().to_vec()
}

fn cfg(interval: u8, lifetime: u8, expect: Option<&str>) -> ProbeConfig {
    ProbeConfig {
        host: b("tcp://broker:1883"),
        req_topic: b("probe/request"),
        res_topic: b("probe/response"),
        interval,
        lifetime,
        payload: b("healthcheck"),
        expect: expect.map(b),
    }
}

fn msg(topic: &str, payload: &[u8]) -> InboundMessage {
    InboundMessage { topic: b(topic), payload: payload.to_vec() }
}

#[test]
fn disruption_is_recoverable() {
    let c = cfg(1, 5, Some("pong"));
    assert_eq!(evaluate(&c, &None), Verdict::Disruption);
}

#[test]
fn other_topic_is_discarded() {
    let c = cfg(1, 5, Some("pong"));
    let v = evaluate(&c, &Some(msg("probe/other", b"pong".as_slice())));
    assert_eq!(v, Verdict::OtherTopic);
}

#[test]
fn other_topic_garbage_payload_is_still_discarded() {
    let c = cfg(1, 5, Some("pong"));
    let v = evaluate(&c, &Some(msg("probe/other", &[0xFF, 0xFE])));
    assert_eq!(v, Verdict::OtherTopic);
}

#[test]
fn garbage_payload_on_response_topic_is_fatal() {
    let c = cfg(1, 5, None);
    let v = evaluate(&c, &Some(msg("probe/response", &[0xFF])));
    assert_eq!(v, Verdict::BadPayload);
}

#[test]
fn mismatch_is_discarded_and_case_sensitive() {
    let c = cfg(1, 5, Some("pong"));
    assert_eq!(evaluate(&c, &Some(msg("probe/response", b"ping"))), Verdict::Mismatch);
    assert_eq!(evaluate(&c, &Some(msg("probe/response", b"Pong"))), Verdict::Mismatch);
    assert_eq!(evaluate(&c, &Some(msg("probe/response", b"pong "))), Verdict::Mismatch);
    assert_eq!(evaluate(&c, &Some(msg("probe/response", b" pong"))), Verdict::Mismatch);
    assert_eq!(evaluate(&c, &Some(msg("probe/response", b""))), Verdict::Mismatch);
}

#[test]
fn exact_match_succeeds() {
    let c = cfg(1, 5, Some("pong"));
    assert_eq!(evaluate(&c, &Some(msg("probe/response", b"pong"))), Verdict::Matched);
}

#[test]
fn no_expectation_accepts_any_text() {
    let c = cfg(1, 5, None);
    assert_eq!(evaluate(&c, &Some(msg("probe/response", b"pong"))), Verdict::Matched);
    assert_eq!(evaluate(&c, &Some(msg("probe/response", b"anything at all"))), Verdict::Matched);
    assert_eq!(evaluate(&c, &Some(msg("probe/response", b""))), Verdict::Matched);
}

#[test]
fn initial_state_is_running() {
    let s = initial_state();
    assert_eq!(s.outcome, None);
    assert_eq!(s.publish_count, 0);
}

#[test]
fn request_message_carries_config() {
    let c = cfg(1, 5, None);
    let (topic, payload, qos) = request_message(&c);
    assert_eq!(topic, b("probe/request"));
    assert_eq!(payload, b("healthcheck"));
    assert_eq!(qos, 1);
}

#[test]
fn exit_codes() {
    assert_eq!(exit_code(&ProbeOutcome::Success), 0);
    assert_eq!(exit_code(&ProbeOutcome::Failure(FailureReason::Timeout)), 1);
    assert_eq!(exit_code(&ProbeOutcome::Failure(FailureReason::Transport)), 1);
    assert_eq!(exit_code(&ProbeOutcome::Failure(FailureReason::StreamEnded)), 1);
}

// Scenario: interval=1, lifetime=5, expected "pong"; the responder answers
// "pong" on the response topic after two publish rounds. The run succeeds
// there and then, and not earlier.
#[test]
fn scenario_prompt_success() {
    let c = cfg(1, 5, Some("pong"));
    let mut s = initial_state();
    for _round in 0..2 {
        let (s1, a) = step(&c, s, &Event::PublishTick);
        assert_eq!(a, Action::Publish);
        let (s2, a) = step(&c, s1, &Event::PublishDone(true));
        assert_eq!(a, Action::Continue);
        assert_eq!(s2.outcome, None, "no outcome before the response");
        s = s2;
    }
    assert_eq!(s.publish_count, 2);
    let (s, a) = step(&c, s, &Event::Inbound(Some(msg("probe/response", b"pong"))));
    assert_eq!(a, Action::Continue);
    assert_eq!(s.outcome, Some(ProbeOutcome::Success));
    assert_eq!(exit_code(&s.outcome.unwrap()), 0);
}

// Scenario: interval=1, lifetime=3, no responder ever replies; the watchdog
// fires after three publish rounds and the run fails by timeout.
#[test]
fn scenario_silent_responder_times_out() {
    let c = cfg(1, 3, Some("pong"));
    let mut s = initial_state();
    for _round in 0..3 {
        let (s1, a) = step(&c, s, &Event::PublishTick);
        assert_eq!(a, Action::Publish);
        let (s2, _) = step(&c, s1, &Event::PublishDone(true));
        assert_eq!(s2.outcome, None, "no outcome before the deadline");
        s = s2;
    }
    let (s, a) = step(&c, s, &Event::TimerFired);
    assert_eq!(a, Action::Continue);
    assert_eq!(s.outcome, Some(ProbeOutcome::Failure(FailureReason::Timeout)));
    assert_eq!(exit_code(&s.outcome.unwrap()), 1);
}

// Scenario: expected "pong"; the responder answers "ping" repeatedly and
// only then "pong", well within lifetime=10. The mismatches are discarded,
// not fatal, and the run succeeds on the real response.
#[test]
fn scenario_mismatches_then_match() {
    let c = cfg(1, 10, Some("pong"));
    let mut s = initial_state();
    for _round in 0..4 {
        let (s1, _) = step(&c, s, &Event::PublishTick);
        let (s2, _) = step(&c, s1, &Event::PublishDone(true));
        let (s3, a) = step(&c, s2, &Event::Inbound(Some(msg("probe/response", b"ping"))));
        assert_eq!(a, Action::Continue);
        assert_eq!(s3.outcome, None, "mismatch must not conclude the run");
        s = s3;
    }
    let (s, _) = step(&c, s, &Event::Inbound(Some(msg("probe/response", b"pong"))));
    assert_eq!(s.outcome, Some(ProbeOutcome::Success));
    assert_eq!(exit_code(&s.outcome.unwrap()), 0);
}

#[test]
fn publish_failures_never_terminate() {
    let c = cfg(2, 16, Some("pong"));
    let mut s = initial_state();
    for round in 0..50u32 {
        let (s1, a) = step(&c, s, &Event::PublishTick);
        assert_eq!(a, Action::Publish, "the publisher keeps attempting");
        let (s2, a) = step(&c, s1, &Event::PublishDone(false));
        assert_eq!(a, Action::Continue);
        assert_eq!(s2.outcome, None, "a failed publish must not conclude the run");
        assert_eq!(s2.publish_count, round + 1, "every attempt counts");
        s = s2;
    }
    let (s, _) = step(&c, s, &Event::TimerFired);
    assert_eq!(s.outcome, Some(ProbeOutcome::Failure(FailureReason::Timeout)));
}

#[test]
fn stream_disruption_is_not_fatal() {
    let c = cfg(1, 5, Some("pong"));
    let s = initial_state();
    let (s, a) = step(&c, s, &Event::Inbound(None));
    assert_eq!(a, Action::Continue);
    assert_eq!(s.outcome, None);
}

#[test]
fn stream_end_is_fatal() {
    let c = cfg(1, 5, Some("pong"));
    let s = initial_state();
    let (s, _) = step(&c, s, &Event::StreamClosed);
    assert_eq!(s.outcome, Some(ProbeOutcome::Failure(FailureReason::StreamEnded)));
}

#[test]
fn bad_payload_on_response_topic_fails_run() {
    let c = cfg(1, 5, None);
    let s = initial_state();
    let (s, _) = step(&c, s, &Event::Inbound(Some(msg("probe/response", &[0xC0, 0x80]))));
    assert_eq!(s.outcome, Some(ProbeOutcome::Failure(FailureReason::Transport)));
}

#[test]
fn other_topics_never_affect_the_run() {
    let c = cfg(1, 5, Some("pong"));
    let s0 = initial_state();
    for payload in [b"pong".as_slice(), b"".as_slice(), &[0xFF, 0x80]] {
        let (s, a) = step(&c, s0, &Event::Inbound(Some(msg("probe/request", payload))));
        assert_eq!(a, Action::Continue);
        assert_eq!(s, s0);
    }
}

#[test]
fn outcome_is_idempotent() {
    let c = cfg(1, 5, Some("pong"));
    let s0 = initial_state();
    let (done, _) = step(&c, s0, &Event::Inbound(Some(msg("probe/response", b"pong"))));
    assert_eq!(done.outcome, Some(ProbeOutcome::Success));
    let further = [
        Event::TimerFired,
        Event::StreamClosed,
        Event::PublishTick,
        Event::PublishDone(true),
        Event::Inbound(Some(msg("probe/response", b"pong"))),
        Event::Inbound(Some(msg("probe/response", &[0xFF]))),
        Event::Inbound(None),
    ];
    let mut s = done;
    for ev in &further {
        let (s1, a) = step(&c, s, ev);
        assert_eq!(a, Action::Continue, "nothing further may be asked for");
        assert_eq!(s1, done, "the outcome is final");
        s = s1;
    }
}

#[test]
fn publish_count_wraps() {
    let c = cfg(1, 5, None);
    let s = ProbeState { outcome: None, publish_count: u32::MAX };
    let (s, a) = step(&c, s, &Event::PublishTick);
    assert_eq!(a, Action::Publish);
    assert_eq!(s.publish_count, 0);
    assert_eq!(s.outcome, None);
}
