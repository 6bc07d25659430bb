//! The ways an operation on the store can fail.
use vstd::prelude::*;

verus! {

/// A failure of a store operation; each carries the underlying cause where there is one.
#[derive(Debug, Clone, PartialEq, Eq)]
pub enum StoreError {
    /// The home directory could not be determined.
    HomeLocation,
    /// The downloads directory could not be determined.
    DownloadsLocation,
    /// The data file exists but could not be read.
    Read(String),
    /// The data file does not hold a serialized store.
    Parse(String),
    /// The directory of the data file could not be created.
    Directory(String),
    /// The store could not be serialized.
    Serialize(String),
    /// The data file could not be written.
    Write(String),
    /// The exported file could not be written.
    ExportWrite(String),
}

/// The text reported for `e`.
pub open spec fn message_of(e: StoreError) -> Seq<char> {
    match e {
        StoreError::HomeLocation => "Failed to get home directory"@,
        StoreError::DownloadsLocation => "Failed to get downloads directory"@,
        StoreError::Read(d) => "Failed to read data: "@ + d@,
        StoreError::Parse(d) => "Failed to parse data: "@ + d@,
        StoreError::Directory(d) => "Failed to create directory: "@ + d@,
        StoreError::Serialize(d) => "Failed to serialize data: "@ + d@,
        StoreError::Write(d) => "Failed to write data: "@ + d@,
        StoreError::ExportWrite(d) => "Failed to write file: "@ + d@,
    }
}

fn prefixed(prefix: &str, detail: &String) -> (r: String)
    ensures
        r@ == prefix@ + detail@,
{
    String::from_str(prefix).concat(detail.as_str())
}

impl StoreError {
    /// The message handed to the caller for this error.
    pub fn message(&self) -> (r: String)
        ensures
            r@ == message_of(*self),
    {
        match self {
            StoreError::HomeLocation => String::from_str("Failed to get home directory"),
            StoreError::DownloadsLocation => String::from_str("Failed to get downloads directory"),
            StoreError::Read(d) => prefixed("Failed to read data: ", d),
            StoreError::Parse(d) => prefixed("Failed to parse data: ", d),
            StoreError::Directory(d) => prefixed("Failed to create directory: ", d),
            StoreError::Serialize(d) => prefixed("Failed to serialize data: ", d),
            StoreError::Write(d) => prefixed("Failed to write data: ", d),
            StoreError::ExportWrite(d) => prefixed("Failed to write file: ", d),
        }
    }
}

} // verus!
