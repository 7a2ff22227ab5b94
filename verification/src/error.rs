//! The ways in which building a manifest fails.

use vstd::prelude::*;
use vstd::string::StringExecFns;

verus! {

/// A fatal error: the run ends with it, and nothing is tried again.
#[derive(Clone, Copy, Debug, PartialEq, Eq, Structural)]
pub enum ManifestError {
    /// A location is not a well-formed URI.
    MalformedUri,
    /// The source location does not have the object-store scheme.
    WrongScheme,
    /// A location names no bucket.
    MissingBucket,
    /// A text column cannot take another value: its bytes would pass what
    /// the columnar format can address.
    ColumnFull,
    /// The columnar library refused a batch.
    BatchRejected,
    /// A listing call failed on every attempt.
    ListingFailed,
    /// A batch could not be written, or the output could not be closed.
    WriteFailed,
    /// The upload failed on every attempt.
    UploadFailed,
    /// The run was told of something that cannot happen at its stage.
    OutOfTurn,
}

impl ManifestError {
    /// A sentence that says what went wrong.
    pub fn message(&self) -> (text: String)
        ensures
            text@ == match *self {
                ManifestError::MalformedUri => "Invalid URI"@,
                ManifestError::WrongScheme => "Invalid S3 URI scheme. Must start with 's3://'."@,
                ManifestError::MissingBucket => "Missing bucket name"@,
                ManifestError::ColumnFull => "Column buffer is full"@,
                ManifestError::BatchRejected => "Batch was rejected"@,
                ManifestError::ListingFailed => "Listing objects failed"@,
                ManifestError::WriteFailed => "Writing the manifest failed"@,
                ManifestError::UploadFailed => "Uploading the manifest failed"@,
                ManifestError::OutOfTurn => "Event out of turn"@,
            },
    {
        match self {
            ManifestError::MalformedUri => String::from_str("Invalid URI"),
            ManifestError::WrongScheme => String::from_str(
                "Invalid S3 URI scheme. Must start with 's3://'.",
            ),
            ManifestError::MissingBucket => String::from_str("Missing bucket name"),
            ManifestError::ColumnFull => String::from_str("Column buffer is full"),
            ManifestError::BatchRejected => String::from_str("Batch was rejected"),
            ManifestError::ListingFailed => String::from_str("Listing objects failed"),
            ManifestError::WriteFailed => String::from_str("Writing the manifest failed"),
            ManifestError::UploadFailed => String::from_str("Uploading the manifest failed"),
            ManifestError::OutOfTurn => String::from_str("Event out of turn"),
        }
    }
}

} // verus!
