use vstd::prelude::*;
use vstd::string::*;

use crate::document::{ObjectId, Record};
use crate::hex::{bytes_hex, hex_of_bytes};
use crate::normalize::NormalizeError;

verus! {

/// Where a failure goes.
#[derive(Debug)]
pub enum Route {
    /// One line `tag: message` in the append-only log.
    Log { tag: String, message: String },
    /// One line `tag: <the record>` in the append-only log.
    LogRecord { tag: String, doc: Record },
    /// The raw record, inserted as it is into the quarantine collection.
    Quarantine { doc: Record },
}

/// The log tag of a record: its identity in hexadecimal.
pub open spec fn identity_tag(id: ObjectId) -> Seq<char> {
    bytes_hex(id.bytes@)
}

pub fn identity_tag_of(id: &ObjectId) -> (r: String)
    ensures
        r@ == identity_tag(*id),
{
    hex_of_bytes(vstd::array::array_as_slice(&id.bytes))
}

/// The message logged for a field of an unusable type.
pub open spec fn shape_message(cause: Seq<char>) -> Seq<char> {
    "unexpected type in field "@ + cause
}

/// Sends a normalization failure to its sink: a malformed field to the log
/// under the record's identity, a record without identity to the log whole,
/// a record without contact address to quarantine, unchanged.
pub fn route_error(err: NormalizeError) -> (r: Route)
    ensures
        match err {
            NormalizeError::UnrecoverableShape { id, cause } => r matches Route::Log {
                tag,
                message,
            } && tag@ == identity_tag(id) && message@ == shape_message(cause@),
            NormalizeError::AmbiguousIdentity { doc } => r matches Route::LogRecord {
                tag,
                doc: d,
            } && tag@ == "Confused ID"@ && d == doc,
            NormalizeError::MissingRequiredField { doc } => r matches Route::Quarantine { doc: d }
                && d == doc,
        },
{
    match err {
        NormalizeError::UnrecoverableShape { id, cause } => {
            let tag = identity_tag_of(&id);
            let mut message = String::from_str("unexpected type in field ");
            message.append(cause.as_str());
            Route::Log { tag, message }
        },
        NormalizeError::AmbiguousIdentity { doc } => Route::LogRecord {
            tag: String::from_str("Confused ID"),
            doc,
        },
        NormalizeError::MissingRequiredField { doc } => Route::Quarantine { doc },
    }
}

/// The failure logged for a change event that carries no document.
pub fn missing_document_route() -> (r: Route)
    ensures
        r matches Route::Log { tag, message } && tag@ == "Change Stream Error"@ && message@
            == "No full document"@,
{
    Route::Log {
        tag: String::from_str("Change Stream Error"),
        message: String::from_str("No full document"),
    }
}

} // verus!
