use anchor_lang::prelude::ProgramError;
use soldrive::clock::{current_time, host_time};
use soldrive::state::{
    DEFAULT_MAX_FILE_SIZE, DEFAULT_STORAGE_FEE_PER_GB, INITIAL_REPUTATION_SCORE,
    MAX_FILE_NAME_LEN, MAX_STORAGE_LOCATION_LEN,
};
use soldrive::{
    AccessLevel, ErrorCode, FileAddress, FileRecord, FileStatus, GrantAddress, Pubkey,
    SharedAccess, SolDriveConfig, UserProfile,
};

#[test]
fn pubkey_keeps_its_bytes() {
    let mut bytes = [0u8; 32];
    for (i, byte) in bytes.iter_mut().enumerate() {
        *byte = i as u8;
    }
    let key = Pubkey::new_from_array(bytes);
    assert_eq!(key.to_bytes(), bytes);
    assert_eq!(key.bytes, bytes);
}

#[test]
fn pubkey_compares_every_byte() {
    let a = Pubkey::new_from_array([1; 32]);
    let mut bytes = [1u8; 32];
    assert!(a == Pubkey::new_from_array(bytes));
    bytes[31] = 2;
    assert!(a != Pubkey::new_from_array(bytes));
    bytes[31] = 1;
    bytes[0] = 0;
    assert!(a != Pubkey::new_from_array(bytes));
}

#[test]
fn constants_have_their_values() {
    assert_eq!(MAX_FILE_NAME_LEN, 50);
    assert_eq!(MAX_STORAGE_LOCATION_LEN, 100);
    assert_eq!(DEFAULT_STORAGE_FEE_PER_GB, 100_000_000);
    assert_eq!(DEFAULT_MAX_FILE_SIZE, 1_073_741_824);
    assert_eq!(INITIAL_REPUTATION_SCORE, 100);
}

#[test]
fn default_records_are_zeroed() {
    let zero = Pubkey::new_from_array([0; 32]);
    assert_eq!(
        SolDriveConfig::default(),
        SolDriveConfig { authority: zero, total_files: 0, storage_fee_per_gb: 0, max_file_size: 0 }
    );
    assert_eq!(
        UserProfile::default(),
        UserProfile {
            owner: zero,
            files_owned: 0,
            storage_used: 0,
            storage_paid_until: 0,
            reputation_score: 0,
        }
    );
    let file = FileRecord::default();
    assert_eq!(file.owner, zero);
    assert_eq!(file.file_name, "");
    assert_eq!(file.primary_storage, "");
    assert_eq!(file.merkle_root, [0; 32]);
    assert_eq!(file.file_hash, [0; 32]);
    assert_eq!(file.status, FileStatus::Uploading);
    assert!(!file.is_public);
    let grant = SharedAccess::default();
    assert_eq!(grant.access_level, AccessLevel::Read);
    assert_eq!(grant.expires_at, None);
    assert!(!grant.is_active);
}

#[test]
fn addresses_follow_the_records() {
    let owner = Pubkey::new_from_array([1; 32]);
    let grantee = Pubkey::new_from_array([2; 32]);
    let mut file = FileRecord::default();
    file.owner = owner;
    file.file_name = "report.pdf".to_string();
    let address = file.address();
    assert_eq!(address, FileAddress::new(owner, "report.pdf".to_string()));
    assert!(address.same(&FileAddress::new(owner, "report.pdf".to_string())));
    assert!(!address.same(&FileAddress::new(grantee, "report.pdf".to_string())));
    assert!(!address.same(&FileAddress::new(owner, "report.pdg".to_string())));

    let mut grant = SharedAccess::default();
    grant.file_record = address.clone();
    grant.shared_with = grantee;
    let grant_address = grant.address();
    assert_eq!(grant_address, GrantAddress::new(address.clone(), grantee));
    assert!(grant_address.same(&GrantAddress::new(address.clone(), grantee)));
    assert!(!grant_address.same(&GrantAddress::new(address, owner)));
}

#[test]
fn clones_are_equal() {
    let mut file = FileRecord::default();
    file.file_name = "a".to_string();
    file.primary_storage = "cid".to_string();
    file.file_size = 9;
    assert_eq!(file.clone(), file);
    let mut grant = SharedAccess::default();
    grant.expires_at = Some(4);
    assert_eq!(grant.clone(), grant);
}

#[test]
fn every_condition_has_its_description() {
    assert_eq!(
        ErrorCode::FileNameTooLong.message(),
        "File name is too long (max 50 characters)"
    );
    assert_eq!(ErrorCode::InvalidFileSize.message(), "Invalid file size");
    assert_eq!(ErrorCode::InvalidChunkCount.message(), "Invalid chunk count");
    assert_eq!(
        ErrorCode::StorageLocationTooLong.message(),
        "Storage location string is too long (max 100 characters)"
    );
    assert_eq!(ErrorCode::StorageLocationEmpty.message(), "Storage location cannot be empty");
    assert_eq!(
        ErrorCode::InvalidFileStatus.message(),
        "Invalid file status for this operation"
    );
    assert_eq!(ErrorCode::NoStorageLocation.message(), "No storage location registered");
    assert_eq!(ErrorCode::FileNotActive.message(), "File must be active to share");
    assert_eq!(
        ErrorCode::InvalidExpirationTime.message(),
        "Expiration time must be in the future"
    );
    assert_eq!(ErrorCode::Unauthorized.message(), "Caller is not the owner of the record");
    assert_eq!(ErrorCode::FileMismatch.message(), "Grant does not govern the supplied file");
    assert_eq!(ErrorCode::AccountInUse.message(), "Address already holds a record");
    assert_eq!(ErrorCode::AccountNotFound.message(), "Address holds no record");
    assert_eq!(ErrorCode::ArithmeticOverflow.message(), "Counter is at its maximum");
    assert_eq!(ErrorCode::ClockUnavailable.message(), "Current time is not available");
}

#[test]
fn host_time_keeps_the_time_and_names_the_failure() {
    assert_eq!(host_time(Ok(1_700_000_000)), Ok(1_700_000_000));
    assert_eq!(host_time(Ok(i64::MIN)), Ok(i64::MIN));
    assert_eq!(host_time(Err(ProgramError::UnsupportedSysvar)), Err(ErrorCode::ClockUnavailable));
    assert_eq!(host_time(Err(ProgramError::InvalidArgument)), Err(ErrorCode::ClockUnavailable));
}

#[test]
fn current_time_without_a_host_is_unavailable() {
    assert_eq!(current_time(), Err(ErrorCode::ClockUnavailable));
}
