//! A measurement as a row of a comma-separated file.

use vstd::prelude::*;
use vstd::string::*;
use crate::decimal::{decimal_digits, decimal_text};
use crate::metrics::{MatterOSIMetrics, MetricsModel};

verus! {

/// The error of the `csv` crate.
#[verifier::external_type_specification]
#[verifier::external_body]
pub struct ExCsvError(csv::Error);

/// What the `csv` crate makes of one record of the given fields, under
/// its default settings: the bytes it writes, terminator included, or
/// `None` where it reports an error.
pub uninterp spec fn csv_record_encoding(fields: Seq<Seq<char>>) -> Option<Seq<u8>>;

/// An encoding as plain values: the bytes, or `None` for an error.
pub open spec fn encoded(r: Result<Vec<u8>, csv::Error>) -> Option<Seq<u8>> {
    match r {
        Ok(bytes) => Some(bytes@),
        Err(_) => None,
    }
}

/// The texts of a list of strings.
pub open spec fn texts(fields: Seq<String>) -> Seq<Seq<char>> {
    Seq::new(fields.len(), |i: int| fields[i]@)
}

/// Encodes one record with a fresh `csv::Writer` over a byte vector:
/// `write_record`, then `flush`. Whether the calls succeed, and the
/// bytes they leave in the vector, depend on the fields alone and are
/// what the crate makes of them; nothing is claimed of which fields it
/// accepts.
#[verifier::external_body]
fn encode_record(fields: &Vec<String>) -> (r: Result<Vec<u8>, csv::Error>)
    ensures
        encoded(r) == csv_record_encoding(texts(fields@)),
{
    let mut sink: Vec<u8> = Vec::new();
    let mut writer = csv::Writer::from_writer(&mut sink);
    writer.write_record(fields)?;
    writer.flush()?;
    drop(writer);
    Ok(sink)
}

/// The value of the protocol column.
pub open spec fn protocol_name() -> Seq<char> {
    "Matter"@
}

/// The column names, in order.
pub open spec fn header_fields() -> Seq<Seq<char>> {
    seq![
        "Timestamp"@,
        "Protocol"@,
        "MessageID"@,
        "MessageType"@,
        "PayloadSize"@,
        "TotalSize"@,
        "TransportOverhead"@,
        "SessionOverhead"@,
        "PresentationOverhead"@,
        "ApplicationOverhead"@,
        "EfficiencyPercent"@,
        "OverheadPercent"@,
    ]
}

/// The fields of the row of `m`, in the order of the columns, with the
/// two percentages as the texts given.
pub open spec fn row_fields(m: MetricsModel, efficiency: Seq<char>, overhead: Seq<char>) -> Seq<
    Seq<char>,
> {
    seq![
        decimal_digits(m.timestamp),
        protocol_name(),
        decimal_digits(m.message_id),
        m.message_type,
        decimal_digits(m.payload_size),
        decimal_digits(m.total_size),
        decimal_digits(m.transport_overhead),
        decimal_digits(m.session_overhead),
        decimal_digits(m.presentation_overhead),
        decimal_digits(m.application_overhead),
        efficiency,
        overhead,
    ]
}

/// Why a row could not be produced.
#[derive(Clone, Copy, Debug, PartialEq, Eq, Structural)]
pub enum SaveError {
    /// The header could not be encoded.
    Header,
    /// The data row could not be encoded.
    Row,
}

/// What is appended to the file, given the encoding of the header
/// where one is due (the outer `None`: none is due) and that of the row.
/// A failed encoding gives the error that names its record, the
/// header's first.
pub open spec fn appended(header: Option<Option<Seq<u8>>>, row: Option<Seq<u8>>) -> Result<
    Seq<u8>,
    SaveError,
> {
    match header {
        Some(None) => Err(SaveError::Header),
        Some(Some(head)) => match row {
            Some(line) => Ok(head + line),
            None => Err(SaveError::Row),
        },
        None => match row {
            Some(line) => Ok(line),
            None => Err(SaveError::Row),
        },
    }
}

/// The encoding of a header, where one was made, as plain values.
pub open spec fn encoded_header(header: Option<Result<Vec<u8>, csv::Error>>) -> Option<
    Option<Seq<u8>>,
> {
    match header {
        Some(r) => Some(encoded(r)),
        None => None,
    }
}

/// What appending a measurement to the file adds to it: the header is
/// due exactly where the file did not exist.
pub open spec fn saved(
    file_exists: bool,
    m: MetricsModel,
    efficiency: Seq<char>,
    overhead: Seq<char>,
) -> Result<Seq<u8>, SaveError> {
    appended(
        if file_exists {
            None
        } else {
            Some(csv_record_encoding(header_fields()))
        },
        csv_record_encoding(row_fields(m, efficiency, overhead)),
    )
}

/// The view of an outcome of `append_encoded`.
pub open spec fn outcome_view(r: Result<Vec<u8>, SaveError>) -> Result<Seq<u8>, SaveError> {
    match r {
        Ok(bytes) => Ok(bytes@),
        Err(e) => Err(e),
    }
}

/// The column names, in order.
pub fn csv_header() -> (fields: Vec<String>)
    ensures
        texts(fields@) == header_fields(),
{
    let mut fields: Vec<String> = Vec::new();
    fields.push("Timestamp".to_owned());
    fields.push("Protocol".to_owned());
    fields.push("MessageID".to_owned());
    fields.push("MessageType".to_owned());
    fields.push("PayloadSize".to_owned());
    fields.push("TotalSize".to_owned());
    fields.push("TransportOverhead".to_owned());
    fields.push("SessionOverhead".to_owned());
    fields.push("PresentationOverhead".to_owned());
    fields.push("ApplicationOverhead".to_owned());
    fields.push("EfficiencyPercent".to_owned());
    fields.push("OverheadPercent".to_owned());
    assert(texts(fields@) =~= header_fields());
    fields
}

/// Joins the encodings of the header, where one is due, and of the row;
/// a failed encoding becomes the error that names its record, the
/// header's first.
pub fn append_encoded(
    header: Option<Result<Vec<u8>, csv::Error>>,
    row: Result<Vec<u8>, csv::Error>,
) -> (r: Result<Vec<u8>, SaveError>)
    ensures
        outcome_view(r) == appended(encoded_header(header), encoded(row)),
{
    let mut bytes: Vec<u8> = match header {
        Some(Err(_)) => {
            return Err(SaveError::Header);
        },
        Some(Ok(head)) => head,
        None => Vec::new(),
    };
    match row {
        Ok(line) => {
            let mut line = line;
            bytes.append(&mut line);
            assert(bytes@ =~= appended(encoded_header(header), encoded(row))->Ok_0);
            Ok(bytes)
        },
        Err(_) => Err(SaveError::Row),
    }
}

impl MatterOSIMetrics {
    /// The fields of this measurement's row, with the two percentages as
    /// the texts given.
    pub fn csv_row(&self, efficiency: &str, overhead: &str) -> (fields: Vec<String>)
        ensures
            texts(fields@) == row_fields(self@, efficiency@, overhead@),
    {
        let mut fields: Vec<String> = Vec::new();
        fields.push(decimal_text(self.timestamp));
        fields.push("Matter".to_owned());
        fields.push(decimal_text(self.message_id as u64));
        fields.push(self.message_type.clone());
        fields.push(decimal_text(self.payload_size as u64));
        fields.push(decimal_text(self.total_size as u64));
        fields.push(decimal_text(self.transport_overhead as u64));
        fields.push(decimal_text(self.session_overhead as u64));
        fields.push(decimal_text(self.presentation_overhead as u64));
        fields.push(decimal_text(self.application_overhead as u64));
        fields.push(efficiency.to_owned());
        fields.push(overhead.to_owned());
        assert(texts(fields@) =~= row_fields(self@, efficiency@, overhead@));
        fields
    }

    /// The bytes to append to the file for this measurement: the header
    /// first where the file did not exist, then the row. The two
    /// percentages are written as the texts given. It succeeds exactly
    /// where every record that is due can be encoded; a header that
    /// cannot gives `Header`, else a row that cannot gives `Row`.
    pub fn save_to_csv(&self, file_exists: bool, efficiency: &str, overhead: &str) -> (r: Result<
        Vec<u8>,
        SaveError,
    >)
        ensures
            outcome_view(r) == saved(file_exists, self@, efficiency@, overhead@),
    {
        let header = if file_exists {
            None
        } else {
            Some(encode_record(&csv_header()))
        };
        let row = encode_record(&self.csv_row(efficiency, overhead));
        append_encoded(header, row)
    }
}

/// Where the file exists nothing but the row is appended; where it does
/// not, the header comes first, and it comes once.
pub proof fn header_only_for_new_file(
    m: MetricsModel,
    efficiency: Seq<char>,
    overhead: Seq<char>,
)
    ensures
        saved(true, m, efficiency, overhead) matches Ok(bytes) ==> Some(bytes)
            == csv_record_encoding(row_fields(m, efficiency, overhead)),
        saved(false, m, efficiency, overhead) matches Ok(bytes) ==> bytes == csv_record_encoding(
            header_fields(),
        )->Some_0 + csv_record_encoding(row_fields(m, efficiency, overhead))->Some_0,
        saved(false, m, efficiency, overhead) is Ok ==> saved(true, m, efficiency, overhead) is Ok,
        saved(true, m, efficiency, overhead) is Err <==> csv_record_encoding(
            row_fields(m, efficiency, overhead),
        ) is None,
{
}

} // verus!
