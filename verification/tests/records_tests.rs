use matter_osi_metrics::metrics::MatterOSIMetrics;
use matter_osi_metrics::records::{append_encoded, csv_header, SaveError};

fn sample(id: u32) -> MatterOSIMetrics {
    MatterOSIMetrics::with_timestamp(1_700_000_000_123, id, "ON_COMMAND", &[6, 0, 1, 0])
}

fn line_count(bytes: &[u8]) -> usize {
    bytes.iter().filter(|b| **b == b'\n').count()
}

fn failure() -> csv::Error {
    csv::Error::from(std::io::Error::new(std::io::ErrorKind::Other, "sink refused"))
}

#[test]
fn header_names_the_columns() {
    let header = csv_header();
    assert_eq!(
        header,
        vec![
            "Timestamp",
            "Protocol",
            "MessageID",
            "MessageType",
            "PayloadSize",
            "TotalSize",
            "TransportOverhead",
            "SessionOverhead",
            "PresentationOverhead",
            "ApplicationOverhead",
            "EfficiencyPercent",
            "OverheadPercent"
        ]
    );
}

#[test]
fn row_fields_in_column_order() {
    let row = sample(1).csv_row("3.6", "96.4");
    assert_eq!(
        row,
        vec![
            "1700000000123",
            "Matter",
            "1",
            "ON_COMMAND",
            "4",
            "112",
            "40",
            "35",
            "8",
            "25",
            "3.6",
            "96.4"
        ]
    );
}

#[test]
fn first_append_writes_header_and_row() {
    let bytes = sample(1).save_to_csv(false, "3.6", "96.4").unwrap();
    assert_eq!(line_count(&bytes), 2);
    let text = String::from_utf8(bytes).unwrap();
    assert_eq!(
        text,
        "Timestamp,Protocol,MessageID,MessageType,PayloadSize,TotalSize,TransportOverhead,\
SessionOverhead,PresentationOverhead,ApplicationOverhead,EfficiencyPercent,OverheadPercent\n\
1700000000123,Matter,1,ON_COMMAND,4,112,40,35,8,25,3.6,96.4\n"
    );
}

#[test]
fn second_append_adds_one_row_without_header() {
    let mut file = sample(1).save_to_csv(false, "3.6", "96.4").unwrap();
    let more = sample(2).save_to_csv(true, "3.6", "96.4").unwrap();
    assert_eq!(line_count(&more), 1);
    file.extend_from_slice(&more);
    assert_eq!(line_count(&file), 3);
    let text = String::from_utf8(file).unwrap();
    assert_eq!(text.matches("Timestamp").count(), 1);
    let rows: Vec<&str> = text.lines().collect();
    assert_eq!(rows.len(), 3);
    assert_eq!(rows[1], "1700000000123,Matter,1,ON_COMMAND,4,112,40,35,8,25,3.6,96.4");
    assert_eq!(rows[2], "1700000000123,Matter,2,ON_COMMAND,4,112,40,35,8,25,3.6,96.4");
}

#[test]
fn label_with_a_comma_is_quoted() {
    let m = MatterOSIMetrics::with_timestamp(1, 1, "A,B", &[]);
    let bytes = m.save_to_csv(true, "0.0", "100.0").unwrap();
    assert_eq!(
        String::from_utf8(bytes).unwrap(),
        "1,Matter,1,\"A,B\",0,108,40,35,8,25,0.0,100.0\n"
    );
}

#[test]
fn joins_header_and_row() {
    let joined = append_encoded(Some(Ok(vec![b'h', b'\n'])), Ok(vec![b'r', b'\n']));
    assert_eq!(joined, Ok(vec![b'h', b'\n', b'r', b'\n']));
    let alone = append_encoded(None, Ok(vec![b'r', b'\n']));
    assert_eq!(alone, Ok(vec![b'r', b'\n']));
}

#[test]
fn failed_header_is_reported() {
    assert_eq!(
        append_encoded(Some(Err(failure())), Ok(vec![b'r'])),
        Err(SaveError::Header)
    );
    assert_eq!(
        append_encoded(Some(Err(failure())), Err(failure())),
        Err(SaveError::Header)
    );
}

#[test]
fn failed_row_is_reported() {
    assert_eq!(append_encoded(None, Err(failure())), Err(SaveError::Row));
    assert_eq!(
        append_encoded(Some(Ok(vec![b'h'])), Err(failure())),
        Err(SaveError::Row)
    );
}

#[test]
fn report_has_all_layers() {
    let lines = sample(9).log_detailed_metrics("3.6", "96.4");
    assert_eq!(lines.len(), 31);
    assert_eq!(lines[1], "📋 Message: ON_COMMAND (ID: 9)");
    assert_eq!(lines[2], "⏰ Timestamp: 1700000000123 ms");
    assert_eq!(lines[3], "🔧 TRANSPORT LAYER (OSI L4):");
    assert_eq!(lines[5], "  Header Overhead: 40 bytes");
    assert_eq!(lines[8], "📞 SESSION LAYER (OSI L5):");
    assert_eq!(lines[10], "  Overhead: 35 bytes");
    assert_eq!(lines[13], "📄 PRESENTATION LAYER (OSI L6):");
    assert_eq!(lines[15], "  Overhead: 8 bytes");
    assert_eq!(lines[18], "🏠 APPLICATION LAYER (OSI L7):");
    assert_eq!(lines[21], "  Overhead: 25 bytes");
    assert_eq!(lines[25], "  💾 Payload Data: 4 bytes");
    assert_eq!(lines[26], "  📡 Protocol Overhead: 108 bytes");
    assert_eq!(lines[27], "  📦 Total Message: 112 bytes");
    assert_eq!(lines[28], "  ⚡ Efficiency: 3.6%");
    assert_eq!(lines[29], "  📈 Overhead: 96.4%");
    assert_eq!(lines[0], "🔬 === REAL MATTER OSI LAYER ANALYSIS ===");
    assert_eq!(lines[30], "🔬 ===================================");
}

#[test]
fn saving_fails_with_neither_error_on_plain_fields() {
    let m = MatterOSIMetrics::with_timestamp(0, 0, "", &[]);
    assert_eq!(
        m.save_to_csv(true, "", ""),
        Ok(b"0,Matter,0,,0,108,40,35,8,25,,\n".to_vec())
    );
    let quoted = MatterOSIMetrics::with_timestamp(2, 3, "line\nbreak \"q\"", &[]);
    assert_eq!(
        quoted.save_to_csv(true, "0.0", "100.0"),
        Ok(b"2,Matter,3,\"line\nbreak \"\"q\"\"\",0,108,40,35,8,25,0.0,100.0\n".to_vec())
    );
}
