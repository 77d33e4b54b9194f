//! Unified observability event schema: event types with their canonical
//! names (as written to JSONL) and integer codes, wall-clock timestamps and
//! event identifiers.

use vstd::prelude::*;
use std::time::{Duration, SystemTime, UNIX_EPOCH};
use crate::common::instrumentation::{whole_nanos, truncated_ns};
use crate::text::{same, push_char};

verus! {

/// Observability event types, with the integer codes of the wire enum.
#[derive(Debug, Clone, Copy, PartialEq, Eq, Hash, Structural)]
pub enum EventType {
    RequestReceived,
    AgentSelected,
    ContextUpdated,
    AgentResponseReceived,
    ResultConsolidated,
    LlmRequestSent,
    LlmResultReceived,
    LlmErrorReceived,
    ToolCallRequested,
    ToolCallExecuted,
    ToolCallDenied,
    PolicyDenied,
    PolicyApplied,
    QosViolation,
    Error,
}

impl EventType {
    /// Canonical name (goes to the JSONL), including the mixed-case `QoS_VIOLATION`.
    pub open spec fn canonical(self) -> Seq<char> {
        match self {
            EventType::RequestReceived => "REQUEST_RECEIVED"@,
            EventType::AgentSelected => "AGENT_SELECTED"@,
            EventType::ContextUpdated => "CONTEXT_UPDATED"@,
            EventType::AgentResponseReceived => "AGENT_RESPONSE_RECEIVED"@,
            EventType::ResultConsolidated => "RESULT_CONSOLIDATED"@,
            EventType::LlmRequestSent => "LLM_REQUEST_SENT"@,
            EventType::LlmResultReceived => "LLM_RESULT_RECEIVED"@,
            EventType::LlmErrorReceived => "LLM_ERROR_RECEIVED"@,
            EventType::ToolCallRequested => "TOOL_CALL_REQUESTED"@,
            EventType::ToolCallExecuted => "TOOL_CALL_EXECUTED"@,
            EventType::ToolCallDenied => "TOOL_CALL_DENIED"@,
            EventType::PolicyDenied => "POLICY_DENIED"@,
            EventType::PolicyApplied => "POLICY_APPLIED"@,
            EventType::QosViolation => "QoS_VIOLATION"@,
            EventType::Error => "ERROR"@,
        }
    }

    /// Integer code of the type.
    pub open spec fn wire(self) -> i32 {
        match self {
            EventType::RequestReceived => 0,
            EventType::AgentSelected => 1,
            EventType::ContextUpdated => 2,
            EventType::AgentResponseReceived => 3,
            EventType::ResultConsolidated => 4,
            EventType::LlmRequestSent => 10,
            EventType::LlmResultReceived => 11,
            EventType::LlmErrorReceived => 12,
            EventType::ToolCallRequested => 20,
            EventType::ToolCallExecuted => 21,
            EventType::ToolCallDenied => 22,
            EventType::PolicyDenied => 30,
            EventType::PolicyApplied => 31,
            EventType::QosViolation => 40,
            EventType::Error => 50,
        }
    }

    /// The type whose canonical name is `s`.
    pub open spec fn named(s: Seq<char>) -> Option<EventType> {
        if s == "REQUEST_RECEIVED"@ {
            Some(EventType::RequestReceived)
        } else if s == "AGENT_SELECTED"@ {
            Some(EventType::AgentSelected)
        } else if s == "CONTEXT_UPDATED"@ {
            Some(EventType::ContextUpdated)
        } else if s == "AGENT_RESPONSE_RECEIVED"@ {
            Some(EventType::AgentResponseReceived)
        } else if s == "RESULT_CONSOLIDATED"@ {
            Some(EventType::ResultConsolidated)
        } else if s == "LLM_REQUEST_SENT"@ {
            Some(EventType::LlmRequestSent)
        } else if s == "LLM_RESULT_RECEIVED"@ {
            Some(EventType::LlmResultReceived)
        } else if s == "LLM_ERROR_RECEIVED"@ {
            Some(EventType::LlmErrorReceived)
        } else if s == "TOOL_CALL_REQUESTED"@ {
            Some(EventType::ToolCallRequested)
        } else if s == "TOOL_CALL_EXECUTED"@ {
            Some(EventType::ToolCallExecuted)
        } else if s == "TOOL_CALL_DENIED"@ {
            Some(EventType::ToolCallDenied)
        } else if s == "POLICY_DENIED"@ {
            Some(EventType::PolicyDenied)
        } else if s == "POLICY_APPLIED"@ {
            Some(EventType::PolicyApplied)
        } else if s == "QoS_VIOLATION"@ {
            Some(EventType::QosViolation)
        } else if s == "ERROR"@ {
            Some(EventType::Error)
        } else {
            None
        }
    }

    /// Canonical name.
    pub fn name(self) -> (r: &'static str)
        ensures
            r@ == self.canonical(),
    {
        match self {
            EventType::RequestReceived => "REQUEST_RECEIVED",
            EventType::AgentSelected => "AGENT_SELECTED",
            EventType::ContextUpdated => "CONTEXT_UPDATED",
            EventType::AgentResponseReceived => "AGENT_RESPONSE_RECEIVED",
            EventType::ResultConsolidated => "RESULT_CONSOLIDATED",
            EventType::LlmRequestSent => "LLM_REQUEST_SENT",
            EventType::LlmResultReceived => "LLM_RESULT_RECEIVED",
            EventType::LlmErrorReceived => "LLM_ERROR_RECEIVED",
            EventType::ToolCallRequested => "TOOL_CALL_REQUESTED",
            EventType::ToolCallExecuted => "TOOL_CALL_EXECUTED",
            EventType::ToolCallDenied => "TOOL_CALL_DENIED",
            EventType::PolicyDenied => "POLICY_DENIED",
            EventType::PolicyApplied => "POLICY_APPLIED",
            EventType::QosViolation => "QoS_VIOLATION",
            EventType::Error => "ERROR",
        }
    }

    /// The type with canonical name `name` (inverse of [`Self::name`]).
    pub fn from_name(name: &str) -> (r: Option<EventType>)
        ensures
            r == EventType::named(name@),
    {
        if same(name, "REQUEST_RECEIVED") {
            Some(EventType::RequestReceived)
        } else if same(name, "AGENT_SELECTED") {
            Some(EventType::AgentSelected)
        } else if same(name, "CONTEXT_UPDATED") {
            Some(EventType::ContextUpdated)
        } else if same(name, "AGENT_RESPONSE_RECEIVED") {
            Some(EventType::AgentResponseReceived)
        } else if same(name, "RESULT_CONSOLIDATED") {
            Some(EventType::ResultConsolidated)
        } else if same(name, "LLM_REQUEST_SENT") {
            Some(EventType::LlmRequestSent)
        } else if same(name, "LLM_RESULT_RECEIVED") {
            Some(EventType::LlmResultReceived)
        } else if same(name, "LLM_ERROR_RECEIVED") {
            Some(EventType::LlmErrorReceived)
        } else if same(name, "TOOL_CALL_REQUESTED") {
            Some(EventType::ToolCallRequested)
        } else if same(name, "TOOL_CALL_EXECUTED") {
            Some(EventType::ToolCallExecuted)
        } else if same(name, "TOOL_CALL_DENIED") {
            Some(EventType::ToolCallDenied)
        } else if same(name, "POLICY_DENIED") {
            Some(EventType::PolicyDenied)
        } else if same(name, "POLICY_APPLIED") {
            Some(EventType::PolicyApplied)
        } else if same(name, "QoS_VIOLATION") {
            Some(EventType::QosViolation)
        } else if same(name, "ERROR") {
            Some(EventType::Error)
        } else {
            None
        }
    }

    /// Integer code.
    pub fn code(self) -> (r: i32)
        ensures
            r == self.wire(),
    {
        match self {
            EventType::RequestReceived => 0,
            EventType::AgentSelected => 1,
            EventType::ContextUpdated => 2,
            EventType::AgentResponseReceived => 3,
            EventType::ResultConsolidated => 4,
            EventType::LlmRequestSent => 10,
            EventType::LlmResultReceived => 11,
            EventType::LlmErrorReceived => 12,
            EventType::ToolCallRequested => 20,
            EventType::ToolCallExecuted => 21,
            EventType::ToolCallDenied => 22,
            EventType::PolicyDenied => 30,
            EventType::PolicyApplied => 31,
            EventType::QosViolation => 40,
            EventType::Error => 50,
        }
    }
}

impl Default for EventType {
    /// `ERROR`, the type given to records that name none.
    fn default() -> (r: Self)
        ensures
            r == EventType::Error,
    {
        EventType::Error
    }
}

/// Resolving a canonical name gives its type back, and a resolved name is the
/// canonical name of what it resolved to.
#[verifier::rlimit(50)]
pub proof fn lemma_name_roundtrip(t: EventType, s: Seq<char>)
    ensures
        EventType::named(t.canonical()) == Some(t),
        EventType::named(s) matches Some(u) ==> u.canonical() == s,
{
        reveal_strlit("REQUEST_RECEIVED");
        reveal_strlit("AGENT_SELECTED");
        reveal_strlit("CONTEXT_UPDATED");
        reveal_strlit("AGENT_RESPONSE_RECEIVED");
        reveal_strlit("RESULT_CONSOLIDATED");
        reveal_strlit("LLM_REQUEST_SENT");
        reveal_strlit("LLM_RESULT_RECEIVED");
        reveal_strlit("LLM_ERROR_RECEIVED");
        reveal_strlit("TOOL_CALL_REQUESTED");
        reveal_strlit("TOOL_CALL_EXECUTED");
        reveal_strlit("TOOL_CALL_DENIED");
        reveal_strlit("POLICY_DENIED");
        reveal_strlit("POLICY_APPLIED");
        reveal_strlit("QoS_VIOLATION");
        reveal_strlit("ERROR");
    match t {
        EventType::RequestReceived => {

        },
        EventType::AgentSelected => {
            assert("REQUEST_RECEIVED"@.len() != "AGENT_SELECTED"@.len());
        },
        EventType::ContextUpdated => {
            assert("REQUEST_RECEIVED"@.len() != "CONTEXT_UPDATED"@.len());
            assert("AGENT_SELECTED"@.len() != "CONTEXT_UPDATED"@.len());
        },
        EventType::AgentResponseReceived => {
            assert("REQUEST_RECEIVED"@.len() != "AGENT_RESPONSE_RECEIVED"@.len());
            assert("AGENT_SELECTED"@.len() != "AGENT_RESPONSE_RECEIVED"@.len());
            assert("CONTEXT_UPDATED"@.len() != "AGENT_RESPONSE_RECEIVED"@.len());
        },
        EventType::ResultConsolidated => {
            assert("REQUEST_RECEIVED"@.len() != "RESULT_CONSOLIDATED"@.len());
            assert("AGENT_SELECTED"@.len() != "RESULT_CONSOLIDATED"@.len());
            assert("CONTEXT_UPDATED"@.len() != "RESULT_CONSOLIDATED"@.len());
            assert("AGENT_RESPONSE_RECEIVED"@.len() != "RESULT_CONSOLIDATED"@.len());
        },
        EventType::LlmRequestSent => {
            assert("REQUEST_RECEIVED"@[0] != "LLM_REQUEST_SENT"@[0]);
            assert("AGENT_SELECTED"@.len() != "LLM_REQUEST_SENT"@.len());
            assert("CONTEXT_UPDATED"@.len() != "LLM_REQUEST_SENT"@.len());
            assert("AGENT_RESPONSE_RECEIVED"@.len() != "LLM_REQUEST_SENT"@.len());
            assert("RESULT_CONSOLIDATED"@.len() != "LLM_REQUEST_SENT"@.len());
        },
        EventType::LlmResultReceived => {
            assert("REQUEST_RECEIVED"@.len() != "LLM_RESULT_RECEIVED"@.len());
            assert("AGENT_SELECTED"@.len() != "LLM_RESULT_RECEIVED"@.len());
            assert("CONTEXT_UPDATED"@.len() != "LLM_RESULT_RECEIVED"@.len());
            assert("AGENT_RESPONSE_RECEIVED"@.len() != "LLM_RESULT_RECEIVED"@.len());
            assert("RESULT_CONSOLIDATED"@[0] != "LLM_RESULT_RECEIVED"@[0]);
            assert("LLM_REQUEST_SENT"@.len() != "LLM_RESULT_RECEIVED"@.len());
        },
        EventType::LlmErrorReceived => {
            assert("REQUEST_RECEIVED"@.len() != "LLM_ERROR_RECEIVED"@.len());
            assert("AGENT_SELECTED"@.len() != "LLM_ERROR_RECEIVED"@.len());
            assert("CONTEXT_UPDATED"@.len() != "LLM_ERROR_RECEIVED"@.len());
            assert("AGENT_RESPONSE_RECEIVED"@.len() != "LLM_ERROR_RECEIVED"@.len());
            assert("RESULT_CONSOLIDATED"@.len() != "LLM_ERROR_RECEIVED"@.len());
            assert("LLM_REQUEST_SENT"@.len() != "LLM_ERROR_RECEIVED"@.len());
            assert("LLM_RESULT_RECEIVED"@.len() != "LLM_ERROR_RECEIVED"@.len());
        },
        EventType::ToolCallRequested => {
            assert("REQUEST_RECEIVED"@.len() != "TOOL_CALL_REQUESTED"@.len());
            assert("AGENT_SELECTED"@.len() != "TOOL_CALL_REQUESTED"@.len());
            assert("CONTEXT_UPDATED"@.len() != "TOOL_CALL_REQUESTED"@.len());
            assert("AGENT_RESPONSE_RECEIVED"@.len() != "TOOL_CALL_REQUESTED"@.len());
            assert("RESULT_CONSOLIDATED"@[0] != "TOOL_CALL_REQUESTED"@[0]);
            assert("LLM_REQUEST_SENT"@.len() != "TOOL_CALL_REQUESTED"@.len());
            assert("LLM_RESULT_RECEIVED"@[0] != "TOOL_CALL_REQUESTED"@[0]);
            assert("LLM_ERROR_RECEIVED"@.len() != "TOOL_CALL_REQUESTED"@.len());
        },
        EventType::ToolCallExecuted => {
            assert("REQUEST_RECEIVED"@.len() != "TOOL_CALL_EXECUTED"@.len());
            assert("AGENT_SELECTED"@.len() != "TOOL_CALL_EXECUTED"@.len());
            assert("CONTEXT_UPDATED"@.len() != "TOOL_CALL_EXECUTED"@.len());
            assert("AGENT_RESPONSE_RECEIVED"@.len() != "TOOL_CALL_EXECUTED"@.len());
            assert("RESULT_CONSOLIDATED"@.len() != "TOOL_CALL_EXECUTED"@.len());
            assert("LLM_REQUEST_SENT"@.len() != "TOOL_CALL_EXECUTED"@.len());
            assert("LLM_RESULT_RECEIVED"@.len() != "TOOL_CALL_EXECUTED"@.len());
            assert("LLM_ERROR_RECEIVED"@[0] != "TOOL_CALL_EXECUTED"@[0]);
            assert("TOOL_CALL_REQUESTED"@.len() != "TOOL_CALL_EXECUTED"@.len());
        },
        EventType::ToolCallDenied => {
            assert("REQUEST_RECEIVED"@[0] != "TOOL_CALL_DENIED"@[0]);
            assert("AGENT_SELECTED"@.len() != "TOOL_CALL_DENIED"@.len());
            assert("CONTEXT_UPDATED"@.len() != "TOOL_CALL_DENIED"@.len());
            assert("AGENT_RESPONSE_RECEIVED"@.len() != "TOOL_CALL_DENIED"@.len());
            assert("RESULT_CONSOLIDATED"@.len() != "TOOL_CALL_DENIED"@.len());
            assert("LLM_REQUEST_SENT"@[0] != "TOOL_CALL_DENIED"@[0]);
            assert("LLM_RESULT_RECEIVED"@.len() != "TOOL_CALL_DENIED"@.len());
            assert("LLM_ERROR_RECEIVED"@.len() != "TOOL_CALL_DENIED"@.len());
            assert("TOOL_CALL_REQUESTED"@.len() != "TOOL_CALL_DENIED"@.len());
            assert("TOOL_CALL_EXECUTED"@.len() != "TOOL_CALL_DENIED"@.len());
        },
        EventType::PolicyDenied => {
            assert("REQUEST_RECEIVED"@.len() != "POLICY_DENIED"@.len());
            assert("AGENT_SELECTED"@.len() != "POLICY_DENIED"@.len());
            assert("CONTEXT_UPDATED"@.len() != "POLICY_DENIED"@.len());
            assert("AGENT_RESPONSE_RECEIVED"@.len() != "POLICY_DENIED"@.len());
            assert("RESULT_CONSOLIDATED"@.len() != "POLICY_DENIED"@.len());
            assert("LLM_REQUEST_SENT"@.len() != "POLICY_DENIED"@.len());
            assert("LLM_RESULT_RECEIVED"@.len() != "POLICY_DENIED"@.len());
            assert("LLM_ERROR_RECEIVED"@.len() != "POLICY_DENIED"@.len());
            assert("TOOL_CALL_REQUESTED"@.len() != "POLICY_DENIED"@.len());
            assert("TOOL_CALL_EXECUTED"@.len() != "POLICY_DENIED"@.len());
            assert("TOOL_CALL_DENIED"@.len() != "POLICY_DENIED"@.len());
        },
        EventType::PolicyApplied => {
            assert("REQUEST_RECEIVED"@.len() != "POLICY_APPLIED"@.len());
            assert("AGENT_SELECTED"@[0] != "POLICY_APPLIED"@[0]);
            assert("CONTEXT_UPDATED"@.len() != "POLICY_APPLIED"@.len());
            assert("AGENT_RESPONSE_RECEIVED"@.len() != "POLICY_APPLIED"@.len());
            assert("RESULT_CONSOLIDATED"@.len() != "POLICY_APPLIED"@.len());
            assert("LLM_REQUEST_SENT"@.len() != "POLICY_APPLIED"@.len());
            assert("LLM_RESULT_RECEIVED"@.len() != "POLICY_APPLIED"@.len());
            assert("LLM_ERROR_RECEIVED"@.len() != "POLICY_APPLIED"@.len());
            assert("TOOL_CALL_REQUESTED"@.len() != "POLICY_APPLIED"@.len());
            assert("TOOL_CALL_EXECUTED"@.len() != "POLICY_APPLIED"@.len());
            assert("TOOL_CALL_DENIED"@.len() != "POLICY_APPLIED"@.len());
            assert("POLICY_DENIED"@.len() != "POLICY_APPLIED"@.len());
        },
        EventType::QosViolation => {
            assert("REQUEST_RECEIVED"@.len() != "QoS_VIOLATION"@.len());
            assert("AGENT_SELECTED"@.len() != "QoS_VIOLATION"@.len());
            assert("CONTEXT_UPDATED"@.len() != "QoS_VIOLATION"@.len());
            assert("AGENT_RESPONSE_RECEIVED"@.len() != "QoS_VIOLATION"@.len());
            assert("RESULT_CONSOLIDATED"@.len() != "QoS_VIOLATION"@.len());
            assert("LLM_REQUEST_SENT"@.len() != "QoS_VIOLATION"@.len());
            assert("LLM_RESULT_RECEIVED"@.len() != "QoS_VIOLATION"@.len());
            assert("LLM_ERROR_RECEIVED"@.len() != "QoS_VIOLATION"@.len());
            assert("TOOL_CALL_REQUESTED"@.len() != "QoS_VIOLATION"@.len());
            assert("TOOL_CALL_EXECUTED"@.len() != "QoS_VIOLATION"@.len());
            assert("TOOL_CALL_DENIED"@.len() != "QoS_VIOLATION"@.len());
            assert("POLICY_DENIED"@[0] != "QoS_VIOLATION"@[0]);
            assert("POLICY_APPLIED"@.len() != "QoS_VIOLATION"@.len());
        },
        EventType::Error => {
            assert("REQUEST_RECEIVED"@.len() != "ERROR"@.len());
            assert("AGENT_SELECTED"@.len() != "ERROR"@.len());
            assert("CONTEXT_UPDATED"@.len() != "ERROR"@.len());
            assert("AGENT_RESPONSE_RECEIVED"@.len() != "ERROR"@.len());
            assert("RESULT_CONSOLIDATED"@.len() != "ERROR"@.len());
            assert("LLM_REQUEST_SENT"@.len() != "ERROR"@.len());
            assert("LLM_RESULT_RECEIVED"@.len() != "ERROR"@.len());
            assert("LLM_ERROR_RECEIVED"@.len() != "ERROR"@.len());
            assert("TOOL_CALL_REQUESTED"@.len() != "ERROR"@.len());
            assert("TOOL_CALL_EXECUTED"@.len() != "ERROR"@.len());
            assert("TOOL_CALL_DENIED"@.len() != "ERROR"@.len());
            assert("POLICY_DENIED"@.len() != "ERROR"@.len());
            assert("POLICY_APPLIED"@.len() != "ERROR"@.len());
            assert("QoS_VIOLATION"@.len() != "ERROR"@.len());
        },
    }
}

/// Distinct types carry distinct codes.
pub proof fn lemma_codes_distinct(a: EventType, b: EventType)
    ensures
        a.wire() == b.wire() ==> a == b,
{
}

#[verifier::external_type_specification]
#[verifier::external_body]
pub struct ExSystemTime(SystemTime);

/// The current wall-clock time (std `SystemTime::now`).
#[verifier::external_body]
pub(crate) fn wall_clock() -> SystemTime {
    SystemTime::now()
}

/// Time since the Unix epoch, if the clock is not before it (std
/// `SystemTime::duration_since`).
#[verifier::external_body]
pub(crate) fn since_epoch(t: &SystemTime) -> Option<Duration> {
    t.duration_since(UNIX_EPOCH).ok()
}

/// Nanoseconds since the epoch kept in 64 bits: the reading modulo 2^64,
/// or zero when the clock read before the epoch (`None`).
pub fn nanos_or_zero(reading: Option<u128>) -> (r: u64)
    ensures
        r == match reading {
            Some(n) => n % 0x1_0000_0000_0000_0000,
            None => 0,
        },
{
    match reading {
        Some(n) => truncated_ns(n),
        None => 0,
    }
}

/// Current wall-clock time in nanoseconds since the epoch, through
/// [`nanos_or_zero`]. The reading itself depends on the clock, so nothing
/// is promised of its value.
pub fn now_ns() -> (r: u64) {
    let t = wall_clock();
    let reading = match since_epoch(&t) {
        Some(d) => Some(whole_nanos(&d)),
        None => None,
    };
    nanos_or_zero(reading)
}

/// Mixing constant of the event-id fold (golden ratio, 64 bits).
pub const ID_MIX: u64 = 0x9E37_79B9_7F4A_7C15;

/// The 48-bit value an event id encodes: the time xor the mixed counter.
pub open spec fn id_bits(now: u64, counter: u64) -> u64 {
    (now ^ counter.wrapping_mul(ID_MIX)) & 0xFFFF_FFFF_FFFF
}

/// Lowercase hexadecimal digit of `d < 16`.
pub open spec fn hex_digit(d: nat) -> char {
    if d < 10 {
        crate::text::digit(d)
    } else if d == 10 {
        'a'
    } else if d == 11 {
        'b'
    } else if d == 12 {
        'c'
    } else if d == 13 {
        'd'
    } else if d == 14 {
        'e'
    } else {
        'f'
    }
}

/// The last `width` hexadecimal digits of `n`, most significant first.
pub open spec fn hex_fixed(n: nat, width: nat) -> Seq<char>
    decreases width,
{
    if width == 0 {
        Seq::empty()
    } else {
        hex_fixed(n / 16, (width - 1) as nat).push(hex_digit(n % 16))
    }
}

fn hex_char(d: u64) -> (c: char)
    requires
        d < 16,
    ensures
        c == hex_digit(d as nat),
{
    if d == 0 { '0' }
    else if d == 1 { '1' }
    else if d == 2 { '2' }
    else if d == 3 { '3' }
    else if d == 4 { '4' }
    else if d == 5 { '5' }
    else if d == 6 { '6' }
    else if d == 7 { '7' }
    else if d == 8 { '8' }
    else if d == 9 { '9' }
    else if d == 10 { 'a' }
    else if d == 11 { 'b' }
    else if d == 12 { 'c' }
    else if d == 13 { 'd' }
    else if d == 14 { 'e' }
    else { 'f' }
}

/// Last `width` hex digits of `n`, zero-padded (as `format!("{:0width$x}")`
/// on values below `16^width`).
pub fn hex_of(n: u64, width: u64) -> (r: String)
    ensures
        r@ == hex_fixed(n as nat, width as nat),
    decreases width,
{
    if width == 0 {
        String::new()
    } else {
        let mut r = hex_of(n / 16, width - 1);
        push_char(&mut r, hex_char(n % 16));
        r
    }
}

/// Event id of 12 hex characters: the xor-fold of the wall-clock time with
/// a per-process counter, keeping 48 bits.
pub fn event_id(now: u64, counter: u64) -> (r: String)
    ensures
        r@ == hex_fixed(id_bits(now, counter) as nat, 12),
        r@.len() == 12,
{
    let mixed = (now ^ counter.wrapping_mul(ID_MIX)) & 0xFFFF_FFFF_FFFF;
    let r = hex_of(mixed, 12);
    proof {
        lemma_hex_fixed_len(mixed as nat, 12);
    }
    r
}

/// A fixed-width rendering has exactly that many characters.
pub proof fn lemma_hex_fixed_len(n: nat, width: nat)
    ensures
        hex_fixed(n, width).len() == width,
    decreases width,
{
    if width > 0 {
        lemma_hex_fixed_len(n / 16, (width - 1) as nat);
    }
}

/// Multiplying by the mixing constant is injective on residues modulo 2^48:
/// the constant has the inverse 0x83e1_9937_733d there.
proof fn lemma_mix_injective(c1: int, c2: int)
    requires
        0 <= c1 < 0x1_0000_0000_0000,
        0 <= c2 < 0x1_0000_0000_0000,
        (c1 * 0x9E37_79B9_7F4A_7C15) % 0x1_0000_0000_0000 == (c2 * 0x9E37_79B9_7F4A_7C15)
            % 0x1_0000_0000_0000,
    ensures
        c1 == c2,
{
    let p: int = 0x1_0000_0000_0000;
    let a: int = c1 * 0x9E37_79B9_7F4A_7C15;
    let b: int = c2 * 0x9E37_79B9_7F4A_7C15;
    vstd::arithmetic::div_mod::lemma_fundamental_div_mod(a, p);
    vstd::arithmetic::div_mod::lemma_fundamental_div_mod(b, p);
    let q: int = a / p - b / p;
    let d: int = c1 - c2;
    assert(d * 0x9E37_79B9_7F4A_7C15 == p * q);
    let t: int = q * 0x83e1_9937_733d - 5873204900662321354 * d;
    assert(d * 1653160212630837589106520148148225 == (p * q) * 0x83e1_9937_733d);
    assert(d == p * t);
    assert(d == 0) by (nonlinear_arith)
        requires
            d == p * t,
            -p < d < p,
            p == 0x1_0000_0000_0000,
    ;
}

/// Within one instant, two different counters below 2^48 give different
/// event ids: multiplying by the odd mixing constant is a bijection on the
/// low 48 bits, and xor with the same time keeps them apart.
pub proof fn lemma_ids_unique_per_counter(now: u64, c1: u64, c2: u64)
    requires
        c1 < 0x1_0000_0000_0000,
        c2 < 0x1_0000_0000_0000,
        c1 != c2,
    ensures
        id_bits(now, c1) != id_bits(now, c2),
{
    let m1: u64 = c1.wrapping_mul(ID_MIX);
    let m2: u64 = c2.wrapping_mul(ID_MIX);
    if id_bits(now, c1) == id_bits(now, c2) {
        assert(m1 & 0xFFFF_FFFF_FFFF == m2 & 0xFFFF_FFFF_FFFF) by (bit_vector)
            requires
                (now ^ m1) & 0xFFFF_FFFF_FFFF == (now ^ m2) & 0xFFFF_FFFF_FFFF,
        ;
        assert(m1 & 0xFFFF_FFFF_FFFF == m1 % 0x1_0000_0000_0000) by (bit_vector);
        assert(m2 & 0xFFFF_FFFF_FFFF == m2 % 0x1_0000_0000_0000) by (bit_vector);
        let x1: int = c1 * 0x9E37_79B9_7F4A_7C15;
        let x2: int = c2 * 0x9E37_79B9_7F4A_7C15;
        assert(m1 == x1 % 0x1_0000_0000_0000_0000);
        assert(m2 == x2 % 0x1_0000_0000_0000_0000);
        vstd::arithmetic::div_mod::lemma_mod_mod(x1, 0x1_0000_0000_0000, 0x1_0000);
        vstd::arithmetic::div_mod::lemma_mod_mod(x2, 0x1_0000_0000_0000, 0x1_0000);
        lemma_mix_injective(c1 as int, c2 as int);
    }
}

} // verus!
