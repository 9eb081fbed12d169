use vstd::prelude::*;

verus! {

/// Why a source of rows gave no transaction.
#[derive(Debug)]
pub enum CsvStreamerError {
    /// The source could not be opened or read.
    CsvReadError(String),
    /// A row could not be read as a transaction.
    DeserializeError(String),
}

impl CsvStreamerError {
    /// The text of `message`.
    pub open spec fn message_text(&self) -> Seq<char> {
        match self {
            CsvStreamerError::CsvReadError(reason) => "Read error ["@ + reason@ + "]"@,
            CsvStreamerError::DeserializeError(reason) => "Deserialization error ["@ + reason@
                + "]"@,
        }
    }

    /// The text shown to a user for this error.
    pub fn message(&self) -> (text: String)
        ensures
            text@ == self.message_text(),
    {
        match self {
            CsvStreamerError::CsvReadError(reason) => "Read error [".to_owned().concat(
                reason.as_str(),
            ).concat("]"),
            CsvStreamerError::DeserializeError(reason) => "Deserialization error [".to_owned().concat(
                reason.as_str(),
            ).concat("]"),
        }
    }
}

} // verus!
