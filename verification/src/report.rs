//! A measurement as a report for a reader, layer by layer.

use vstd::prelude::*;
use vstd::string::*;
use crate::decimal::{decimal_digits, decimal_text};
use crate::metrics::{MatterOSIMetrics, MetricsModel};
use crate::records::texts;

verus! {

/// The lines of the report on `m`, with the two percentages as the texts
/// given: a heading, the message, the four layers from transport to
/// application with the bytes each adds, and the summary.
pub open spec fn report_lines(m: MetricsModel, efficiency: Seq<char>, overhead: Seq<char>) -> Seq<
    Seq<char>,
> {
    seq![
        "🔬 === REAL MATTER OSI LAYER ANALYSIS ==="@,
        "📋 Message: "@ + m.message_type + " (ID: "@ + decimal_digits(m.message_id) + ")"@,
        "⏰ Timestamp: "@ + decimal_digits(m.timestamp) + " ms"@,
        "🔧 TRANSPORT LAYER (OSI L4):"@,
        "  Protocol: UDP over IPv6 (Matter-over-WiFi)"@,
        "  Header Overhead: "@ + decimal_digits(m.transport_overhead) + " bytes"@,
        "  Features: Connectionless, Thread mesh capable"@,
        "  Reliability: Application-level with retransmission"@,
        "📞 SESSION LAYER (OSI L5):"@,
        "  Management: Matter commissioning + PASE/CASE"@,
        "  Overhead: "@ + decimal_digits(m.session_overhead) + " bytes"@,
        "  Features: Secure sessions, device discovery"@,
        "  Multiplexing: Node-based addressing"@,
        "📄 PRESENTATION LAYER (OSI L6):"@,
        "  Encoding: Matter TLV (Type-Length-Value)"@,
        "  Overhead: "@ + decimal_digits(m.presentation_overhead) + " bytes"@,
        "  Compression: Binary structure, efficient encoding"@,
        "  Schema: Flexible, extensible data model"@,
        "🏠 APPLICATION LAYER (OSI L7):"@,
        "  Protocol: Matter (CSA Alliance Standard)"@,
        "  Data Model: Clusters, Endpoints, Attributes"@,
        "  Overhead: "@ + decimal_digits(m.application_overhead) + " bytes"@,
        "  Operations: Read/Write/Subscribe/Invoke/Events"@,
        "  Interoperability: Cross-vendor certified"@,
        "📊 MESSAGE EFFICIENCY ANALYSIS:"@,
        "  💾 Payload Data: "@ + decimal_digits(m.payload_size) + " bytes"@,
        "  📡 Protocol Overhead: "@ + decimal_digits((m.total_size - m.payload_size) as nat) + " bytes"@,
        "  📦 Total Message: "@ + decimal_digits(m.total_size) + " bytes"@,
        "  ⚡ Efficiency: "@ + efficiency + "%"@,
        "  📈 Overhead: "@ + overhead + "%"@,
        "🔬 ==================================="@,
    ]
}

fn labelled(prefix: &str, value: &str, suffix: &str) -> (line: String)
    ensures
        line@ == prefix@ + value@ + suffix@,
{
    let mut line = prefix.to_owned();
    line.append(value);
    line.append(suffix);
    line
}

impl MatterOSIMetrics {
    /// The lines of the report on this measurement, in order, for the
    /// caller to log. The two percentages appear as the texts given.
    pub fn log_detailed_metrics(&self, efficiency: &str, overhead: &str) -> (lines: Vec<String>)
        requires
            self@.payload_size <= self@.total_size,
        ensures
            texts(lines@) == report_lines(self@, efficiency@, overhead@),
    {
        let mut lines: Vec<String> = Vec::new();
        lines.push("🔬 === REAL MATTER OSI LAYER ANALYSIS ===".to_owned());
        let mut heading = labelled("📋 Message: ", self.message_type.as_str(), " (ID: ");
        heading.append(decimal_text(self.message_id as u64).as_str());
        heading.append(")");
        lines.push(heading);
        lines.push(labelled("⏰ Timestamp: ", decimal_text(self.timestamp).as_str(), " ms"));
        lines.push("🔧 TRANSPORT LAYER (OSI L4):".to_owned());
        lines.push("  Protocol: UDP over IPv6 (Matter-over-WiFi)".to_owned());
        lines.push(labelled("  Header Overhead: ", decimal_text(self.transport_overhead as u64).as_str(), " bytes"));
        lines.push("  Features: Connectionless, Thread mesh capable".to_owned());
        lines.push("  Reliability: Application-level with retransmission".to_owned());
        lines.push("📞 SESSION LAYER (OSI L5):".to_owned());
        lines.push("  Management: Matter commissioning + PASE/CASE".to_owned());
        lines.push(labelled("  Overhead: ", decimal_text(self.session_overhead as u64).as_str(), " bytes"));
        lines.push("  Features: Secure sessions, device discovery".to_owned());
        lines.push("  Multiplexing: Node-based addressing".to_owned());
        lines.push("📄 PRESENTATION LAYER (OSI L6):".to_owned());
        lines.push("  Encoding: Matter TLV (Type-Length-Value)".to_owned());
        lines.push(labelled("  Overhead: ", decimal_text(self.presentation_overhead as u64).as_str(), " bytes"));
        lines.push("  Compression: Binary structure, efficient encoding".to_owned());
        lines.push("  Schema: Flexible, extensible data model".to_owned());
        lines.push("🏠 APPLICATION LAYER (OSI L7):".to_owned());
        lines.push("  Protocol: Matter (CSA Alliance Standard)".to_owned());
        lines.push("  Data Model: Clusters, Endpoints, Attributes".to_owned());
        lines.push(labelled("  Overhead: ", decimal_text(self.application_overhead as u64).as_str(), " bytes"));
        lines.push("  Operations: Read/Write/Subscribe/Invoke/Events".to_owned());
        lines.push("  Interoperability: Cross-vendor certified".to_owned());
        lines.push("📊 MESSAGE EFFICIENCY ANALYSIS:".to_owned());
        lines.push(labelled("  💾 Payload Data: ", decimal_text(self.payload_size as u64).as_str(), " bytes"));
        lines.push(labelled("  📡 Protocol Overhead: ", decimal_text((self.total_size - self.payload_size) as u64).as_str(), " bytes"));
        lines.push(labelled("  📦 Total Message: ", decimal_text(self.total_size as u64).as_str(), " bytes"));
        lines.push(labelled("  ⚡ Efficiency: ", efficiency, "%"));
        lines.push(labelled("  📈 Overhead: ", overhead, "%"));
        lines.push("🔬 ===================================".to_owned());
        assert(texts(lines@) =~= report_lines(self@, efficiency@, overhead@));
        lines
    }
}

/// The report has thirty-one lines, whatever the measurement.
pub proof fn report_length(m: MetricsModel, efficiency: Seq<char>, overhead: Seq<char>)
    ensures
        report_lines(m, efficiency, overhead).len() == 31,
{
}

} // verus!
