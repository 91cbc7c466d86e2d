//! The conditions under which an operation is refused.

use vstd::prelude::*;

verus! {

/// Why an operation was refused. A refused operation writes nothing.
#[derive(Clone, Copy, Debug, PartialEq, Eq, Structural)]
pub enum ErrorCode {
    /// The file name is longer than [`crate::state::MAX_FILE_NAME_LEN`] bytes.
    FileNameTooLong,
    /// The declared file size is zero.
    InvalidFileSize,
    /// The declared chunk count is zero.
    InvalidChunkCount,
    /// The storage location is longer than
    /// [`crate::state::MAX_STORAGE_LOCATION_LEN`] bytes.
    StorageLocationTooLong,
    /// The storage location is empty.
    StorageLocationEmpty,
    /// The file is not in the status that the operation starts from.
    InvalidFileStatus,
    /// The file has no storage location.
    NoStorageLocation,
    /// The file is not active, so it cannot be shared.
    FileNotActive,
    /// The expiry is not after the time of the operation.
    InvalidExpirationTime,
    /// The caller is not the owner that the record names.
    Unauthorized,
    /// The grant governs another file than the one supplied.
    FileMismatch,
    /// The address already holds a record.
    AccountInUse,
    /// The address holds no record.
    AccountNotFound,
    /// A counter of the registry or of the profile is at its maximum.
    ArithmeticOverflow,
    /// The host did not supply the current time.
    ClockUnavailable,
}

impl ErrorCode {
    /// The description of the condition, as a sequence of characters.
    pub open spec fn spec_message(self) -> Seq<char> {
        match self {
            ErrorCode::FileNameTooLong => "File name is too long (max 50 characters)"@,
            ErrorCode::InvalidFileSize => "Invalid file size"@,
            ErrorCode::InvalidChunkCount => "Invalid chunk count"@,
            ErrorCode::StorageLocationTooLong
                => "Storage location string is too long (max 100 characters)"@,
            ErrorCode::StorageLocationEmpty => "Storage location cannot be empty"@,
            ErrorCode::InvalidFileStatus => "Invalid file status for this operation"@,
            ErrorCode::NoStorageLocation => "No storage location registered"@,
            ErrorCode::FileNotActive => "File must be active to share"@,
            ErrorCode::InvalidExpirationTime => "Expiration time must be in the future"@,
            ErrorCode::Unauthorized => "Caller is not the owner of the record"@,
            ErrorCode::FileMismatch => "Grant does not govern the supplied file"@,
            ErrorCode::AccountInUse => "Address already holds a record"@,
            ErrorCode::AccountNotFound => "Address holds no record"@,
            ErrorCode::ArithmeticOverflow => "Counter is at its maximum"@,
            ErrorCode::ClockUnavailable => "Current time is not available"@,
        }
    }

    /// The human-readable description of the condition.
    pub fn message(&self) -> (text: String)
        ensures
            text@ == self.spec_message(),
    {
        match self {
            ErrorCode::FileNameTooLong => "File name is too long (max 50 characters)".to_owned(),
            ErrorCode::InvalidFileSize => "Invalid file size".to_owned(),
            ErrorCode::InvalidChunkCount => "Invalid chunk count".to_owned(),
            ErrorCode::StorageLocationTooLong => {
                "Storage location string is too long (max 100 characters)".to_owned()
            },
            ErrorCode::StorageLocationEmpty => "Storage location cannot be empty".to_owned(),
            ErrorCode::InvalidFileStatus => "Invalid file status for this operation".to_owned(),
            ErrorCode::NoStorageLocation => "No storage location registered".to_owned(),
            ErrorCode::FileNotActive => "File must be active to share".to_owned(),
            ErrorCode::InvalidExpirationTime => "Expiration time must be in the future".to_owned(),
            ErrorCode::Unauthorized => "Caller is not the owner of the record".to_owned(),
            ErrorCode::FileMismatch => "Grant does not govern the supplied file".to_owned(),
            ErrorCode::AccountInUse => "Address already holds a record".to_owned(),
            ErrorCode::AccountNotFound => "Address holds no record".to_owned(),
            ErrorCode::ArithmeticOverflow => "Counter is at its maximum".to_owned(),
            ErrorCode::ClockUnavailable => "Current time is not available".to_owned(),
        }
    }
}

} // verus!
