//! Probe configuration: the immutable settings resolved before the protocol
//! starts, together with the decimal parsing used for the numeric ones.

use vstd::prelude::*;

verus! {

/// ASCII digit.
pub open spec fn is_digit(b: u8) -> bool {
    0x30 <= b && b <= 0x39
}

/// Value of a sequence of ASCII digits read as a decimal number.
pub open spec fn digits_val(s: Seq<u8>) -> int
    decreases s.len(),
{
    if s.len() == 0 {
        0
    } else {
        digits_val(s.drop_last()) * 10 + (s.last() - 0x30)
    }
}

/// The digits of a decimal numeral: everything after an optional leading `+`.
pub open spec fn numeral_body(s: Seq<u8>) -> Seq<u8> {
    if s.len() > 0 && s[0] == 0x2B {
        s.drop_first()
    } else {
        s
    }
}

/// What a `u8` written in decimal may look like: an optional leading `+`,
/// then at least one digit, with a value that fits.
pub open spec fn spec_parse_u8(s: Seq<u8>) -> Option<u8> {
    let body = numeral_body(s);
    if body.len() > 0 && (forall|i: int| 0 <= i < body.len() ==> is_digit(#[trigger] body[i]))
        && digits_val(body) <= 255 {
        Some(digits_val(body) as u8)
    } else {
        None
    }
}

proof fn lemma_digits_val_nonneg(s: Seq<u8>)
    requires
        forall|i: int| 0 <= i < s.len() ==> is_digit(#[trigger] s[i]),
    ensures
        digits_val(s) >= 0,
    decreases s.len(),
{
    if s.len() > 0 {
        lemma_digits_val_nonneg(s.drop_last());
    }
}

/// Parses a `u8` from decimal text, as the numeric settings are given.
/// Returns `None` on an empty string, a non-digit, or overflow.
pub fn parse_u8(s: &Vec<u8>) -> (r: Option<u8>)
    ensures
        r == spec_parse_u8(s@),
{
    let start: usize = if s.len() > 0 && s[0] == 0x2B {
        1
    } else {
        0
    };
    let ghost body: Seq<u8> = numeral_body(s@);
    proof {
        assert(body =~= s@.skip(start as int));
    }
    if s.len() == start {
        return None;
    }
    let mut i: usize = start;
    let mut acc: u32 = 0;
    while i < s.len()
        invariant
            start <= i <= s@.len(),
            body == numeral_body(s@),
            body == s@.skip(start as int),
            forall|j: int| start <= j < i ==> is_digit(#[trigger] s@[j]),
            digits_val(s@.subrange(start as int, i as int)) <= 255 ==> acc == digits_val(
                s@.subrange(start as int, i as int),
            ),
            digits_val(s@.subrange(start as int, i as int)) > 255 ==> 255 < acc <= 2559,
            acc <= 2559,
        decreases s@.len() - i,
    {
        let b = s[i];
        if b < 0x30 || b > 0x39 {
            proof {
                let k = i - start as int;
                assert(0 <= k < body.len());
                assert(body[k] == s@[i as int]);
                assert(!is_digit(body[k]));
                assert(spec_parse_u8(s@) == None::<u8>);
            }
            return None;
        }
        let ghost pre: Seq<u8> = s@.subrange(start as int, i as int);
        let ghost post: Seq<u8> = s@.subrange(start as int, i as int + 1);
        proof {
            assert(post.drop_last() =~= pre);
            assert(post.last() == b);
            lemma_digits_val_nonneg(post);
        }
        if acc <= 255 {
            acc = acc * 10 + (b - 0x30) as u32;
        }
        i = i + 1;
    }
    proof {
        assert(s@.subrange(start as int, s@.len() as int) =~= body);
    }
    if acc <= 255 {
        Some(acc as u8)
    } else {
        None
    }
}

/// Delivery-quality level every request is published at. A configuration
/// constant of the protocol, not a user-tunable setting.
pub const REQUEST_QOS: u8 = 1;

/// Delivery-quality level of the response subscription: at-most-once is
/// enough, since the interval retry already tolerates missed deliveries.
pub const SUBSCRIBE_QOS: u8 = 0;

/// Interval between two requests, in seconds, when none is given.
pub const DEFAULT_INTERVAL: u8 = 2;

/// Lifetime of the whole probe, in seconds, when none is given.
pub const DEFAULT_LIFETIME: u8 = 16;

/// The request payload used when none is given: the bytes of "healthcheck".
pub open spec fn default_payload() -> Seq<u8> {
    seq![0x68u8, 0x65u8, 0x61u8, 0x6Cu8, 0x74u8, 0x68u8, 0x63u8, 0x68u8, 0x65u8, 0x63u8, 0x6Bu8]
}

/// Builds the default request payload, the bytes of "healthcheck".
pub fn default_payload_bytes() -> (r: Vec<u8>)
    ensures
        r@ == default_payload(),
{
    let mut v: Vec<u8> = Vec::new();
    v.push(0x68);
    v.push(0x65);
    v.push(0x61);
    v.push(0x6C);
    v.push(0x74);
    v.push(0x68);
    v.push(0x63);
    v.push(0x68);
    v.push(0x65);
    v.push(0x63);
    v.push(0x6B);
    proof {
        assert(v@ =~= default_payload());
    }
    v
}

/// The immutable settings of one probe run, resolved before the protocol
/// starts and shared read-only by every component.
#[derive(Debug)]
pub struct ProbeConfig {
    /// Broker address, passed through to the transport untouched.
    pub host: Vec<u8>,
    /// Topic the requests are published on.
    pub req_topic: Vec<u8>,
    /// Topic a response must arrive on.
    pub res_topic: Vec<u8>,
    /// Seconds between two publishes.
    pub interval: u8,
    /// Seconds until the watchdog declares failure.
    pub lifetime: u8,
    /// Payload of every request.
    pub payload: Vec<u8>,
    /// Expected response payload; `None` accepts any payload.
    pub expect: Option<Vec<u8>>,
}

/// Why a configuration could not be resolved. Each of these is fatal before
/// the protocol starts: the concurrent components are never launched.
#[derive(Clone, Copy, Debug, PartialEq, Eq, Structural)]
pub enum ConfigError {
    MissingHost,
    MissingRequestTopic,
    MissingResponseTopic,
    BadInterval,
    BadLifetime,
}

/// Resolves the raw command-line values into a `ProbeConfig`: the three
/// required settings must be present, the two numeric ones must parse as
/// decimal `u8` when present, and everything optional falls back to its
/// default.
pub fn resolve(
    host: Option<Vec<u8>>,
    req_topic: Option<Vec<u8>>,
    res_topic: Option<Vec<u8>>,
    interval: Option<Vec<u8>>,
    lifetime: Option<Vec<u8>>,
    payload: Option<Vec<u8>>,
    expect: Option<Vec<u8>>,
) -> (r: Result<ProbeConfig, ConfigError>)
    ensures
        host is None ==> r == Err::<ProbeConfig, ConfigError>(ConfigError::MissingHost),
        host is Some && req_topic is None ==> r == Err::<ProbeConfig, ConfigError>(
            ConfigError::MissingRequestTopic,
        ),
        host is Some && req_topic is Some && res_topic is None ==> r == Err::<
            ProbeConfig,
            ConfigError,
        >(ConfigError::MissingResponseTopic),
        host is Some && req_topic is Some && res_topic is Some && interval is Some
            && spec_parse_u8(interval->0@) is None ==> r == Err::<ProbeConfig, ConfigError>(
            ConfigError::BadInterval,
        ),
        host is Some && req_topic is Some && res_topic is Some && (interval is Some
            ==> spec_parse_u8(interval->0@) is Some) && lifetime is Some && spec_parse_u8(
            lifetime->0@,
        ) is None ==> r == Err::<ProbeConfig, ConfigError>(ConfigError::BadLifetime),
        r is Ok <==> {
            &&& host is Some
            &&& req_topic is Some
            &&& res_topic is Some
            &&& (interval is Some ==> spec_parse_u8(interval->0@) is Some)
            &&& (lifetime is Some ==> spec_parse_u8(lifetime->0@) is Some)
        },
        r is Ok ==> {
            &&& r->Ok_0.host@ == host->0@
            &&& r->Ok_0.req_topic@ == req_topic->0@
            &&& r->Ok_0.res_topic@ == res_topic->0@
            &&& r->Ok_0.interval == if interval is Some {
                spec_parse_u8(interval->0@)->0
            } else {
                DEFAULT_INTERVAL
            }
            &&& r->Ok_0.lifetime == if lifetime is Some {
                spec_parse_u8(lifetime->0@)->0
            } else {
                DEFAULT_LIFETIME
            }
            &&& r->Ok_0.payload@ == if payload is Some {
                payload->0@
            } else {
                default_payload()
            }
            &&& (r->Ok_0.expect is Some <==> expect is Some)
            &&& expect is Some ==> r->Ok_0.expect->0@ == expect->0@
        },
{
    let host = match host {
        Some(h) => h,
        None => {
            return Err(ConfigError::MissingHost);
        },
    };
    let req_topic = match req_topic {
        Some(t) => t,
        None => {
            return Err(ConfigError::MissingRequestTopic);
        },
    };
    let res_topic = match res_topic {
        Some(t) => t,
        None => {
            return Err(ConfigError::MissingResponseTopic);
        },
    };
    let interval: u8 = match interval {
        Some(text) => match parse_u8(&text) {
            Some(n) => n,
            None => {
                return Err(ConfigError::BadInterval);
            },
        },
        None => DEFAULT_INTERVAL,
    };
    let lifetime: u8 = match lifetime {
        Some(text) => match parse_u8(&text) {
            Some(n) => n,
            None => {
                return Err(ConfigError::BadLifetime);
            },
        },
        None => DEFAULT_LIFETIME,
    };
    let payload = match payload {
        Some(p) => p,
        None => default_payload_bytes(),
    };
    Ok(ProbeConfig { host, req_topic, res_topic, interval, lifetime, payload, expect })
}

} // verus!
