use vstd::prelude::*;
use vstd::string::*;
use crate::record::{FieldValue, LogField, LogRecord, UtcTimestamp};
use crate::severity::Severity;

verus! {

/// The source location of an uncaught failure, when the runtime reports
/// one.
pub struct FailureLocation {
    pub file: String,
    pub line: u32,
    pub column: u32,
}

/// Build the one structured record the panic bridge emits for an uncaught
/// failure: exactly one error-level record carrying the rendered failure
/// message and, when a source location is available, its file, line and
/// column as structured fields.
///
/// The bridge only observes: after this record is emitted, the process's
/// default failure termination proceeds unchanged.
pub fn panic_record(
    now: UtcTimestamp,
    target: &str,
    message: &str,
    location: Option<&FailureLocation>,
) -> (r: LogRecord)
    ensures
        r.severity == Severity::Error,
        r.timestamp == now,
        r.target@ == target@,
        r.message@ == message@,
        match location {
            Some(loc) => {
                &&& r.fields@.len() == 3
                &&& r.fields@[0].key@ == "panic.file"@
                &&& (r.fields@[0].value matches FieldValue::Text(f) && f@ == loc.file@)
                &&& r.fields@[1].key@ == "panic.line"@
                &&& r.fields@[1].value == FieldValue::Integer(loc.line as u64)
                &&& r.fields@[2].key@ == "panic.column"@
                &&& r.fields@[2].value == FieldValue::Integer(loc.column as u64)
            },
            None => r.fields@.len() == 0,
        },
{
    let mut fields: Vec<LogField> = Vec::new();
    match location {
        Some(loc) => {
            fields.push(
                LogField {
                    key: String::from_str("panic.file"),
                    value: FieldValue::Text(loc.file.clone()),
                },
            );
            fields.push(
                LogField {
                    key: String::from_str("panic.line"),
                    value: FieldValue::Integer(loc.line as u64),
                },
            );
            fields.push(
                LogField {
                    key: String::from_str("panic.column"),
                    value: FieldValue::Integer(loc.column as u64),
                },
            );
        },
        None => {},
    }
    LogRecord {
        timestamp: now,
        severity: Severity::Error,
        target: target.to_owned(),
        message: message.to_owned(),
        fields,
    }
}

} // verus!
