//! The outcome arbiter. Three concurrent components — a one-shot watchdog, a
//! periodic publisher, and the response listener — race to decide the exit
//! code of one probe run. Their race is modelled as a state machine: the
//! loop that runs the transport feeds every observation in as an `Event`,
//! and the machine decides the next state and the one action to take. The
//! first terminal event wins; after it, every further event is a no-op.

use vstd::prelude::*;

use crate::config::ProbeConfig;
use crate::listener::InboundMessage;
use crate::listener::Verdict;
use crate::listener::evaluate;
use crate::listener::is_match;
use crate::listener::spec_verdict;

verus! {

/// Why a probe run failed.
#[derive(Clone, Copy, Debug, PartialEq, Eq, Structural)]
pub enum FailureReason {
    /// The lifetime elapsed before a matching response arrived.
    Timeout,
    /// The transport broke its contract: a payload that is not text.
    Transport,
    /// The inbound stream ended, though it is meant to be endless.
    StreamEnded,
}

/// The single terminal value of one probe run.
#[derive(Clone, Copy, Debug, PartialEq, Eq, Structural)]
pub enum ProbeOutcome {
    Success,
    Failure(FailureReason),
}

/// The arbiter's state: the terminal outcome once one is reached, and the
/// count of publish attempts so far (diagnostic only, wraps at its width).
#[derive(Clone, Copy, Debug, PartialEq, Eq)]
pub struct ProbeState {
    pub outcome: Option<ProbeOutcome>,
    pub publish_count: u32,
}

/// One observation fed to the arbiter.
pub enum Event {
    /// The watchdog's one-shot deadline elapsed.
    TimerFired,
    /// The inbound stream yielded an element: a message, or a disruption.
    Inbound(Option<InboundMessage>),
    /// The inbound stream ended.
    StreamClosed,
    /// The publisher's interval elapsed: time to send the next request.
    PublishTick,
    /// A publish attempt finished, successfully or not.
    PublishDone(bool),
}

/// What the surrounding loop is to do after a step.
#[derive(Clone, Copy, Debug, PartialEq, Eq, Structural)]
pub enum Action {
    /// Nothing to perform; read the state for a terminal outcome.
    Continue,
    /// Publish one request: the configured payload, on the request topic.
    Publish,
}

/// The publish counter after one more attempt; wraps at the width.
pub open spec fn wrap_inc(c: u32) -> u32 {
    if c == u32::MAX {
        0
    } else {
        (c + 1) as u32
    }
}

/// The machine's transition function. Once an outcome is reached the state
/// is frozen and no action is ever taken again. While running: the watchdog
/// firing and the stream ending are terminal failures; an inbound element is
/// judged by the listener — the awaited response is terminal success, a
/// payload that is not text is a terminal transport failure, everything else
/// is discarded; a publish tick counts one more attempt and asks for one
/// publish; a finished publish, successful or not, never touches the state.
pub open spec fn spec_step(cfg: ProbeConfig, s: ProbeState, ev: Event) -> (ProbeState, Action) {
    if s.outcome is Some {
        (s, Action::Continue)
    } else {
        match ev {
            Event::TimerFired => (
                ProbeState {
                    outcome: Some(ProbeOutcome::Failure(FailureReason::Timeout)),
                    publish_count: s.publish_count,
                },
                Action::Continue,
            ),
            Event::StreamClosed => (
                ProbeState {
                    outcome: Some(ProbeOutcome::Failure(FailureReason::StreamEnded)),
                    publish_count: s.publish_count,
                },
                Action::Continue,
            ),
            Event::Inbound(elem) => match spec_verdict(cfg, elem) {
                Verdict::Matched => (
                    ProbeState { outcome: Some(ProbeOutcome::Success), publish_count: s.publish_count },
                    Action::Continue,
                ),
                Verdict::BadPayload => (
                    ProbeState {
                        outcome: Some(ProbeOutcome::Failure(FailureReason::Transport)),
                        publish_count: s.publish_count,
                    },
                    Action::Continue,
                ),
                _ => (s, Action::Continue),
            },
            Event::PublishTick => (
                ProbeState { outcome: None, publish_count: wrap_inc(s.publish_count) },
                Action::Publish,
            ),
            Event::PublishDone(_) => (s, Action::Continue),
        }
    }
}

/// The state every probe run starts in: no outcome, nothing sent.
pub fn initial_state() -> (s: ProbeState)
    ensures
        s == (ProbeState { outcome: None, publish_count: 0u32 }),
{
    ProbeState { outcome: None, publish_count: 0 }
}

/// Feeds one event to the arbiter.
pub fn step(cfg: &ProbeConfig, s: ProbeState, ev: &Event) -> (r: (ProbeState, Action))
    ensures
        r == spec_step(*cfg, s, *ev),
{
    if s.outcome.is_some() {
        return (s, Action::Continue);
    }
    match ev {
        Event::TimerFired => (
            ProbeState {
                outcome: Some(ProbeOutcome::Failure(FailureReason::Timeout)),
                publish_count: s.publish_count,
            },
            Action::Continue,
        ),
        Event::StreamClosed => (
            ProbeState {
                outcome: Some(ProbeOutcome::Failure(FailureReason::StreamEnded)),
                publish_count: s.publish_count,
            },
            Action::Continue,
        ),
        Event::Inbound(elem) => match evaluate(cfg, elem) {
            Verdict::Matched => (
                ProbeState { outcome: Some(ProbeOutcome::Success), publish_count: s.publish_count },
                Action::Continue,
            ),
            Verdict::BadPayload => (
                ProbeState {
                    outcome: Some(ProbeOutcome::Failure(FailureReason::Transport)),
                    publish_count: s.publish_count,
                },
                Action::Continue,
            ),
            _ => (s, Action::Continue),
        },
        Event::PublishTick => {
            let count: u32 = if s.publish_count == u32::MAX {
                0
            } else {
                s.publish_count + 1
            };
            (ProbeState { outcome: None, publish_count: count }, Action::Publish)
        },
        Event::PublishDone(_) => (s, Action::Continue),
    }
}

/// Builds the one request this probe ever sends, for the `Publish` action:
/// the request topic, the configured payload, and the fixed delivery
/// quality, ready to hand to the transport.
pub fn request_message(cfg: &ProbeConfig) -> (r: (Vec<u8>, Vec<u8>, u8))
    ensures
        r.0@ == cfg.req_topic@,
        r.1@ == cfg.payload@,
        r.2 == crate::config::REQUEST_QOS,
{
    let topic = cfg.req_topic.clone();
    let payload = cfg.payload.clone();
    proof {
        assert(topic@ =~= cfg.req_topic@);
        assert(payload@ =~= cfg.payload@);
    }
    (topic, payload, crate::config::REQUEST_QOS)
}

/// The process exit code an outcome stands for.
pub open spec fn spec_exit_code(o: ProbeOutcome) -> i32 {
    if o == ProbeOutcome::Success {
        0
    } else {
        1
    }
}

/// Exit code of a terminal outcome: zero for the awaited response, one for
/// every failure.
pub fn exit_code(o: &ProbeOutcome) -> (r: i32)
    ensures
        r == spec_exit_code(*o),
{
    match o {
        ProbeOutcome::Success => 0,
        ProbeOutcome::Failure(_) => 1,
    }
}

/// The state after a whole sequence of events, fed in order.
pub open spec fn run(cfg: ProbeConfig, s: ProbeState, evs: Seq<Event>) -> ProbeState
    decreases evs.len(),
{
    if evs.len() == 0 {
        s
    } else {
        run(cfg, spec_step(cfg, s, evs[0]).0, evs.skip(1))
    }
}

/// Whether an event carries the awaited response.
pub open spec fn event_matches(cfg: ProbeConfig, ev: Event) -> bool {
    match ev {
        Event::Inbound(elem) => is_match(cfg, elem),
        _ => false,
    }
}

/// Once an outcome is reached it is final: any further event leaves the
/// state untouched and asks for nothing — no publish, no evaluation.
pub proof fn lemma_outcome_final_step(cfg: ProbeConfig, s: ProbeState, ev: Event)
    requires
        s.outcome is Some,
    ensures
        spec_step(cfg, s, ev) == (s, Action::Continue),
{
}

/// Once an outcome is reached, no sequence of further events changes it.
pub proof fn lemma_outcome_final(cfg: ProbeConfig, s: ProbeState, evs: Seq<Event>)
    requires
        s.outcome is Some,
    ensures
        run(cfg, s, evs) == s,
    decreases evs.len(),
{
    if evs.len() > 0 {
        lemma_outcome_final_step(cfg, s, evs[0]);
        lemma_outcome_final(cfg, s, evs.skip(1));
    }
}

/// If no event of a run carries the awaited response, the run never reaches
/// success — whatever else happens, the probe can only fail or keep waiting.
pub proof fn lemma_no_match_no_success(cfg: ProbeConfig, s: ProbeState, evs: Seq<Event>)
    requires
        s.outcome != Some(ProbeOutcome::Success),
        forall|i: int| 0 <= i < evs.len() ==> !event_matches(cfg, #[trigger] evs[i]),
    ensures
        run(cfg, s, evs).outcome != Some(ProbeOutcome::Success),
    decreases evs.len(),
{
    if evs.len() > 0 {
        let s1 = spec_step(cfg, s, evs[0]).0;
        assert(!event_matches(cfg, evs[0]));
        assert(s1.outcome != Some(ProbeOutcome::Success));
        assert forall|i: int| 0 <= i < evs.skip(1).len() implies !event_matches(
            cfg,
            #[trigger] evs.skip(1)[i],
        ) by {
            assert(evs.skip(1)[i] == evs[i + 1]);
        }
        lemma_no_match_no_success(cfg, s1, evs.skip(1));
    }
}

/// Whether an event concludes a running probe: the deadline firing, the
/// stream ending, the awaited response, or a payload that is not text.
pub open spec fn event_terminal(cfg: ProbeConfig, ev: Event) -> bool {
    match ev {
        Event::TimerFired => true,
        Event::StreamClosed => true,
        Event::Inbound(elem) => spec_verdict(cfg, elem) == Verdict::Matched || spec_verdict(
            cfg,
            elem,
        ) == Verdict::BadPayload,
        Event::PublishTick => false,
        Event::PublishDone(_) => false,
    }
}

/// The probe never concludes early: as long as no terminal event arrives,
/// the run stays undecided, however many publishes, ticks, disruptions and
/// discarded messages go by.
pub proof fn lemma_no_terminal_no_outcome(cfg: ProbeConfig, s: ProbeState, evs: Seq<Event>)
    requires
        s.outcome is None,
        forall|i: int| 0 <= i < evs.len() ==> !event_terminal(cfg, #[trigger] evs[i]),
    ensures
        run(cfg, s, evs).outcome is None,
    decreases evs.len(),
{
    if evs.len() > 0 {
        let s1 = spec_step(cfg, s, evs[0]).0;
        assert(!event_terminal(cfg, evs[0]));
        assert(s1.outcome is None);
        assert forall|i: int| 0 <= i < evs.skip(1).len() implies !event_terminal(
            cfg,
            #[trigger] evs.skip(1)[i],
        ) by {
            assert(evs.skip(1)[i] == evs[i + 1]);
        }
        lemma_no_terminal_no_outcome(cfg, s1, evs.skip(1));
    }
}

/// While the probe is running, the deadline firing is terminal failure.
pub proof fn lemma_timer_fails(cfg: ProbeConfig, s: ProbeState)
    requires
        s.outcome is None,
    ensures
        spec_step(cfg, s, Event::TimerFired).0.outcome == Some(
            ProbeOutcome::Failure(FailureReason::Timeout),
        ),
{
}

/// A message on any topic other than the response topic never affects the
/// run: the state is left as it was, whatever the payload holds.
pub proof fn lemma_other_topic_ignored(cfg: ProbeConfig, s: ProbeState, m: InboundMessage)
    requires
        m.topic@ != cfg.res_topic@,
    ensures
        spec_step(cfg, s, Event::Inbound(Some(m))) == (s, Action::Continue),
{
}

/// A finished publish, failed or not, never terminates the run: the state
/// is left exactly as it was, and while the probe is running the next tick
/// of the interval still asks for a publish.
pub proof fn lemma_publish_failure_harmless(cfg: ProbeConfig, s: ProbeState, ok: bool)
    ensures
        spec_step(cfg, s, Event::PublishDone(ok)) == (s, Action::Continue),
        s.outcome is None ==> spec_step(
            cfg,
            spec_step(cfg, s, Event::PublishDone(false)).0,
            Event::PublishTick,
        ).1 == Action::Publish,
{
}

} // verus!
