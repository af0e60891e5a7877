//! Response filtering: what the listener decides about each element of the
//! inbound stream. An element either signals a recoverable stream disruption
//! or carries one message; a message must arrive on the response topic, hold
//! a well-formed text payload, and — when an expected payload is configured —
//! equal it byte for byte to count as the awaited response.

use vstd::prelude::*;

use crate::config::ProbeConfig;
use crate::utf8::check_utf8;
use crate::utf8::is_utf8;

verus! {

/// One received unit: the topic it arrived on and its raw payload.
pub struct InboundMessage {
    pub topic: Vec<u8>,
    pub payload: Vec<u8>,
}

/// What the listener concludes about one stream element.
#[derive(Clone, Copy, Debug, PartialEq, Eq, Structural)]
pub enum Verdict {
    /// The element carried no message: a recoverable transport hiccup.
    Disruption,
    /// The message arrived on some other topic: discarded.
    OtherTopic,
    /// The payload is not valid text: a fatal transport contract violation.
    BadPayload,
    /// The payload differs from the configured expected one: discarded.
    Mismatch,
    /// The awaited response: the probe succeeds.
    Matched,
}

/// The listener's decision about one stream element, as a value.
pub open spec fn spec_verdict(cfg: ProbeConfig, elem: Option<InboundMessage>) -> Verdict {
    match elem {
        None => Verdict::Disruption,
        Some(m) => if m.topic@ != cfg.res_topic@ {
            Verdict::OtherTopic
        } else if !is_utf8(m.payload@) {
            Verdict::BadPayload
        } else {
            match cfg.expect {
                Some(e) => if m.payload@ == e@ {
                    Verdict::Matched
                } else {
                    Verdict::Mismatch
                },
                None => Verdict::Matched,
            }
        },
    }
}

/// Whether a stream element is the awaited response.
pub open spec fn is_match(cfg: ProbeConfig, elem: Option<InboundMessage>) -> bool {
    spec_verdict(cfg, elem) == Verdict::Matched
}

/// Byte-for-byte comparison of two byte vectors.
pub(crate) fn bytes_eq(a: &Vec<u8>, b: &Vec<u8>) -> (r: bool)
    ensures
        r == (a@ == b@),
{
    let r = a == b;
    proof {
        if r {
            assert(a@ =~= b@);
        } else {
            if a@ == b@ {
                assert(a@.len() == b@.len());
                assert(forall|i: int| 0 <= i < a@.len() ==> a@[i] == b@[i]);
            }
        }
    }
    r
}

/// Evaluates one stream element, in the order the protocol fixes: a missing
/// message is a disruption; a message on another topic is discarded before
/// its payload is looked at; a payload that is not text is fatal; with an
/// expected payload configured, anything but its exact bytes is discarded;
/// what remains is the awaited response.
pub fn evaluate(cfg: &ProbeConfig, elem: &Option<InboundMessage>) -> (v: Verdict)
    ensures
        v == spec_verdict(*cfg, *elem),
{
    match elem {
        None => Verdict::Disruption,
        Some(m) => {
            if !bytes_eq(&m.topic, &cfg.res_topic) {
                Verdict::OtherTopic
            } else if !check_utf8(&m.payload) {
                Verdict::BadPayload
            } else {
                match &cfg.expect {
                    Some(e) => if bytes_eq(&m.payload, e) {
                        Verdict::Matched
                    } else {
                        Verdict::Mismatch
                    },
                    None => Verdict::Matched,
                }
            }
        },
    }
}

/// An expected payload admits nothing but its exact bytes: a response whose
/// payload differs from it, in any byte, is never the awaited response —
/// whatever its topic, and however close it comes.
pub proof fn lemma_mismatch_never_matches(cfg: ProbeConfig, m: InboundMessage)
    requires
        cfg.expect is Some,
        m.payload@ != cfg.expect->0@,
    ensures
        !is_match(cfg, Some(m)),
{
}

/// With no expected payload configured, every well-formed text payload on
/// the response topic is the awaited response, whatever it holds.
pub proof fn lemma_any_text_matches(cfg: ProbeConfig, m: InboundMessage)
    requires
        cfg.expect is None,
        m.topic@ == cfg.res_topic@,
        is_utf8(m.payload@),
    ensures
        is_match(cfg, Some(m)),
{
}

} // verus!
