//! The ways in which an operation on the store can fail, and the message
//! that the user sees for each.

use crate::text::{join2, join3};
use vstd::prelude::*;

verus! {

/// Why an operation failed.
#[derive(Clone, Copy, Debug, PartialEq, Eq, Structural)]
pub enum ErrorKind {
    /// The store already holds a book with these bytes.
    DuplicateContent,
    /// The file offered for import could not be read.
    SourceUnreadable,
    /// The legacy-format converter failed.
    NormalizationFailed,
    /// The canonical-format file could not be opened.
    UnrecognizedDocument,
    /// The derived artifact could not be produced.
    ConversionFailed,
    /// The sidecar record does not follow its schema.
    MalformedState,
    /// The store holds no book with this fingerprint.
    NotFound,
}

/// The message for a failure. `subject` names what the failure is about: the
/// fingerprint for a duplicate or a missing book, the parser's complaint for
/// a malformed record, the file for the others.
pub open spec fn message_of(kind: ErrorKind, subject: Seq<char>) -> Seq<char> {
    match kind {
        ErrorKind::DuplicateContent => "Error: Book is duplicate - "@ + subject,
        ErrorKind::SourceUnreadable => "Error: Could not access file \""@ + subject + "\""@,
        ErrorKind::NormalizationFailed => "Error: Normalization of "@ + subject + " Failed"@,
        ErrorKind::UnrecognizedDocument => "Error: Import of "@ + subject + " Failed"@,
        ErrorKind::ConversionFailed => "Error: Conversion of "@ + subject + " Failed"@,
        ErrorKind::MalformedState => "Malformed Data: "@ + subject,
        ErrorKind::NotFound => "Error: Book not found - "@ + subject,
    }
}

/// Writes the message for a failure.
pub fn message(kind: ErrorKind, subject: &str) -> (text: String)
    ensures
        text@ == message_of(kind, subject@),
{
    match kind {
        ErrorKind::DuplicateContent => join2("Error: Book is duplicate - ", subject),
        ErrorKind::SourceUnreadable => join3("Error: Could not access file \"", subject, "\""),
        ErrorKind::NormalizationFailed => join3("Error: Normalization of ", subject, " Failed"),
        ErrorKind::UnrecognizedDocument => join3("Error: Import of ", subject, " Failed"),
        ErrorKind::ConversionFailed => join3("Error: Conversion of ", subject, " Failed"),
        ErrorKind::MalformedState => join2("Malformed Data: ", subject),
        ErrorKind::NotFound => join2("Error: Book not found - ", subject),
    }
}

} // verus!
