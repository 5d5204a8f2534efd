//! The size breakdown of one message and the rule that derives it from a
//! payload.

use vstd::prelude::*;
use vstd::string::*;
use crate::clock::clock_millis;

verus! {

/// Bytes of UDP and IPv6 headers charged to every message.
pub const TRANSPORT_OVERHEAD: usize = 40;

/// Bytes of session management charged to every message.
pub const SESSION_OVERHEAD: usize = 35;

/// Bytes of cluster metadata charged to every message.
pub const APPLICATION_OVERHEAD: usize = 25;

/// Bytes of the bare type-length-value header.
pub const TLV_BASE: usize = 3;

/// The least presentation overhead any message is charged.
pub const PRESENTATION_FLOOR: usize = 8;

/// Structural cost of encoding `len` payload bytes: one byte for every ten.
pub open spec fn structure_term(len: nat) -> nat {
    len / 10
}

/// Saving from binary compression of `len` payload bytes: one byte for
/// every twenty.
pub open spec fn compression_term(len: nat) -> nat {
    len / 20
}

/// Presentation-layer overhead of a payload of `len` bytes: header plus
/// structural cost, less the compression saving (never below zero), and
/// at least the floor.
pub open spec fn presentation_overhead(len: nat) -> nat {
    let gross = TLV_BASE as nat + structure_term(len);
    let net = if gross >= compression_term(len) {
        (gross - compression_term(len)) as nat
    } else {
        0
    };
    if net < PRESENTATION_FLOOR as nat {
        PRESENTATION_FLOOR as nat
    } else {
        net
    }
}

/// Bytes on the wire for a payload of `len` bytes.
pub open spec fn total_size(len: nat) -> nat {
    len + TRANSPORT_OVERHEAD as nat + SESSION_OVERHEAD as nat + presentation_overhead(len)
        + APPLICATION_OVERHEAD as nat
}

/// The mathematical content of a measurement.
pub ghost struct MetricsModel {
    pub timestamp: nat,
    pub message_id: nat,
    pub message_type: Seq<char>,
    pub payload_size: nat,
    pub total_size: nat,
    pub transport_overhead: nat,
    pub session_overhead: nat,
    pub presentation_overhead: nat,
    pub application_overhead: nat,
}

impl MetricsModel {
    /// The sizes are those the construction rule gives for the payload
    /// size recorded.
    pub open spec fn consistent(self) -> bool {
        &&& self.transport_overhead == TRANSPORT_OVERHEAD as nat
        &&& self.session_overhead == SESSION_OVERHEAD as nat
        &&& self.application_overhead == APPLICATION_OVERHEAD as nat
        &&& self.presentation_overhead == presentation_overhead(self.payload_size)
        &&& self.total_size == self.payload_size + self.transport_overhead
            + self.session_overhead + self.presentation_overhead + self.application_overhead
    }
}

/// The measurement of a payload of `payload_len` bytes, taken at
/// `timestamp` under the given identifier and label.
pub open spec fn measurement(
    timestamp: nat,
    message_id: nat,
    message_type: Seq<char>,
    payload_len: nat,
) -> MetricsModel {
    MetricsModel {
        timestamp,
        message_id,
        message_type,
        payload_size: payload_len,
        total_size: total_size(payload_len),
        transport_overhead: TRANSPORT_OVERHEAD as nat,
        session_overhead: SESSION_OVERHEAD as nat,
        presentation_overhead: presentation_overhead(payload_len),
        application_overhead: APPLICATION_OVERHEAD as nat,
    }
}

/// One message's byte-size breakdown by layer.
#[derive(Debug, Clone)]
pub struct MatterOSIMetrics {
    pub timestamp: u64,
    pub message_id: u32,
    pub message_type: String,
    pub payload_size: usize,
    pub total_size: usize,
    pub transport_overhead: usize,
    pub session_overhead: usize,
    pub presentation_overhead: usize,
    pub application_overhead: usize,
}

impl View for MatterOSIMetrics {
    type V = MetricsModel;

    open spec fn view(&self) -> MetricsModel {
        MetricsModel {
            timestamp: self.timestamp as nat,
            message_id: self.message_id as nat,
            message_type: self.message_type@,
            payload_size: self.payload_size as nat,
            total_size: self.total_size as nat,
            transport_overhead: self.transport_overhead as nat,
            session_overhead: self.session_overhead as nat,
            presentation_overhead: self.presentation_overhead as nat,
            application_overhead: self.application_overhead as nat,
        }
    }
}

/// Structural cost of a payload of `len` bytes.
pub fn structure_overhead(len: usize) -> (r: usize)
    ensures
        r == structure_term(len as nat),
{
    len / 10
}

/// Compression saving on a payload of `len` bytes.
pub fn compression_savings(len: usize) -> (r: usize)
    ensures
        r == compression_term(len as nat),
{
    len / 20
}

/// Presentation-layer overhead of a payload of `len` bytes.
pub fn presentation_overhead_of(len: usize) -> (r: usize)
    ensures
        r == presentation_overhead(len as nat),
        r >= 8,
{
    let gross: usize = TLV_BASE + structure_overhead(len);
    let net: usize = gross.saturating_sub(compression_savings(len));
    if net < PRESENTATION_FLOOR {
        PRESENTATION_FLOOR
    } else {
        net
    }
}

/// Whether the total for a payload of `len` bytes fits the machine word.
pub fn fits_total(len: usize) -> (r: bool)
    ensures
        r == (total_size(len as nat) <= usize::MAX),
{
    let fixed: usize = TRANSPORT_OVERHEAD + SESSION_OVERHEAD + APPLICATION_OVERHEAD;
    let presentation: usize = presentation_overhead_of(len);
    presentation <= usize::MAX - fixed && len <= usize::MAX - fixed - presentation
}

impl MatterOSIMetrics {
    /// Presentation-layer overhead of `payload`.
    pub fn calculate_tlv_overhead(payload: &[u8]) -> (r: usize)
        ensures
            r == presentation_overhead(payload@.len()),
            r >= 8,
    {
        presentation_overhead_of(payload.len())
    }

    /// Measures `raw_payload` at the given time.
    pub fn with_timestamp(
        timestamp: u64,
        message_id: u32,
        message_type: &str,
        raw_payload: &[u8],
    ) -> (m: Self)
        requires
            total_size(raw_payload@.len()) <= usize::MAX,
        ensures
            m@ == measurement(
                timestamp as nat,
                message_id as nat,
                message_type@,
                raw_payload@.len(),
            ),
            m@.consistent(),
    {
        let payload_size: usize = raw_payload.len();
        let presentation_overhead: usize = Self::calculate_tlv_overhead(raw_payload);
        let total_size: usize = payload_size + TRANSPORT_OVERHEAD + SESSION_OVERHEAD
            + presentation_overhead + APPLICATION_OVERHEAD;
        MatterOSIMetrics {
            timestamp,
            message_id,
            message_type: message_type.to_owned(),
            payload_size,
            total_size,
            transport_overhead: TRANSPORT_OVERHEAD,
            session_overhead: SESSION_OVERHEAD,
            presentation_overhead,
            application_overhead: APPLICATION_OVERHEAD,
        }
    }

    /// Measures `raw_payload` at the time a clock reading gives, where the
    /// reading is one.
    pub fn stamped(
        reading: Option<u64>,
        message_id: u32,
        message_type: &str,
        raw_payload: &[u8],
    ) -> (r: Option<Self>)
        requires
            total_size(raw_payload@.len()) <= usize::MAX,
        ensures
            reading is None <==> r is None,
            reading matches Some(t) ==> r matches Some(m) && m@ == measurement(
                t as nat,
                message_id as nat,
                message_type@,
                raw_payload@.len(),
            ),
    {
        match reading {
            Some(timestamp) => Some(
                Self::with_timestamp(timestamp, message_id, message_type, raw_payload),
            ),
            None => None,
        }
    }

    /// Measures `raw_payload` now. The result is `None` only when the
    /// system clock reads a time before the Unix epoch.
    pub fn new(message_id: u32, message_type: &str, raw_payload: &[u8]) -> (r: Option<Self>)
        requires
            total_size(raw_payload@.len()) <= usize::MAX,
        ensures
            r matches Some(m) ==> m@ == measurement(
                m@.timestamp,
                message_id as nat,
                message_type@,
                raw_payload@.len(),
            ),
    {
        Self::stamped(clock_millis(), message_id, message_type, raw_payload)
    }

    /// Bytes of the message that are not payload.
    pub fn protocol_overhead(&self) -> (r: usize)
        requires
            self@.consistent(),
        ensures
            r == self@.total_size - self@.payload_size,
            r == 100 + self@.presentation_overhead,
    {
        self.total_size - self.payload_size
    }
}

/// Every payload is charged at least the floor.
pub proof fn presentation_overhead_floor(len: nat)
    ensures
        presentation_overhead(len) >= 8,
{
}

/// The structural cost is never less than the compression saving, so the
/// subtraction in the overhead rule never saturates.
pub proof fn structure_dominates_compression(len: nat)
    ensures
        structure_term(len) >= compression_term(len),
        3 + structure_term(len) - compression_term(len) == 3 + (len + 10) / 20,
{
}

/// A longer payload is never charged less presentation overhead.
pub proof fn presentation_overhead_monotone(shorter: nat, longer: nat)
    requires
        shorter <= longer,
    ensures
        presentation_overhead(shorter) <= presentation_overhead(longer),
{
    structure_dominates_compression(shorter);
    structure_dominates_compression(longer);
}

/// The total is the payload plus the four layer overheads, and grows
/// strictly with the payload.
pub proof fn total_size_breakdown(len: nat)
    ensures
        total_size(len) == len + 40 + 35 + presentation_overhead(len) + 25,
        total_size(len) >= len + 108,
{
}

/// What the construction rule yields satisfies the size equations.
pub proof fn measurement_consistent(
    timestamp: nat,
    message_id: nat,
    message_type: Seq<char>,
    payload_len: nat,
)
    ensures
        measurement(timestamp, message_id, message_type, payload_len).consistent(),
        measurement(timestamp, message_id, message_type, payload_len).presentation_overhead >= 8,
{
}

} // verus!
