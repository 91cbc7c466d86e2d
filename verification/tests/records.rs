use soldrive::instructions::{
    create_file, create_user_profile, finalize_file, finalize_file_at, grant_access,
    grant_access_at, initialize, register_storage, register_storage_at, revoke_access, CreateFile,
    CreateUserProfile, FinalizeFile, GrantAccess, Initialize, RegisterStorage, RevokeAccess,
};
use soldrive::{
    AccessLevel, ErrorCode, FileAddress, FileRecord, FileStatus, Pubkey, SharedAccess,
    SolDriveConfig, UserProfile,
};

fn key(byte: u8) -> Pubkey {
    Pubkey::new_from_array([byte; 32])
}

fn registry(total_files: u64) -> SolDriveConfig {
    SolDriveConfig {
        authority: key(9),
        total_files,
        storage_fee_per_gb: 100_000_000,
        max_file_size: 1_073_741_824,
    }
}

fn profile(owner: Pubkey, files_owned: u64, storage_used: u64) -> UserProfile {
    UserProfile { owner, files_owned, storage_used, storage_paid_until: 0, reputation_score: 100 }
}

fn file(owner: Pubkey, status: FileStatus, primary_storage: &str) -> FileRecord {
    FileRecord {
        owner,
        file_name: "report.pdf".to_string(),
        file_size: 1024,
        file_hash: [7; 32],
        chunk_count: 4,
        merkle_root: [0; 32],
        primary_storage: primary_storage.to_string(),
        created_at: 1_700_000_000,
        updated_at: 1_700_000_000,
        status,
        is_public: false,
    }
}

fn new_file_records(owner: Pubkey) -> CreateFile {
    CreateFile {
        file_record: FileRecord::default(),
        config: registry(3),
        user_profile: profile(owner, 2, 500),
        owner,
    }
}

#[test]
fn initialize_writes_the_defaults() {
    let mut ctx = Initialize { config: SolDriveConfig::default(), authority: key(1) };
    assert_eq!(initialize(&mut ctx), Ok(()));
    assert_eq!(ctx.config.authority, key(1));
    assert_eq!(ctx.config.total_files, 0);
    assert_eq!(ctx.config.storage_fee_per_gb, 100_000_000);
    assert_eq!(ctx.config.max_file_size, 1_073_741_824);
    assert_eq!(ctx.authority, key(1));
}

#[test]
fn create_user_profile_writes_the_defaults() {
    let mut ctx = CreateUserProfile { user_profile: profile(key(5), 8, 9), user: key(2) };
    assert_eq!(create_user_profile(&mut ctx), Ok(()));
    assert_eq!(
        ctx.user_profile,
        UserProfile {
            owner: key(2),
            files_owned: 0,
            storage_used: 0,
            storage_paid_until: 0,
            reputation_score: 100,
        }
    );
}

#[test]
fn create_file_writes_the_record_and_counts_it() {
    let owner = key(1);
    let mut ctx = new_file_records(owner);
    let result = create_file(&mut ctx, "report.pdf".to_string(), 1024, [7; 32], 4, 1_700_000_000);
    assert_eq!(result, Ok(()));
    assert_eq!(
        ctx.file_record,
        FileRecord {
            owner,
            file_name: "report.pdf".to_string(),
            file_size: 1024,
            file_hash: [7; 32],
            chunk_count: 4,
            merkle_root: [0; 32],
            primary_storage: String::new(),
            created_at: 1_700_000_000,
            updated_at: 1_700_000_000,
            status: FileStatus::Uploading,
            is_public: false,
        }
    );
    assert_eq!(ctx.config.total_files, 4);
    assert_eq!(ctx.user_profile.files_owned, 3);
    assert_eq!(ctx.user_profile.storage_used, 1524);
    assert_eq!(ctx.user_profile.reputation_score, 100);
}

#[test]
fn create_file_takes_a_name_of_fifty_bytes() {
    let mut ctx = new_file_records(key(1));
    let name = "n".repeat(50);
    assert_eq!(create_file(&mut ctx, name.clone(), 1, [0; 32], 1, 0), Ok(()));
    assert_eq!(ctx.file_record.file_name, name);
}

#[test]
fn create_file_refuses_a_name_of_fifty_one_bytes() {
    let mut ctx = new_file_records(key(1));
    let result = create_file(&mut ctx, "n".repeat(51), 1, [0; 32], 1, 0);
    assert_eq!(result, Err(ErrorCode::FileNameTooLong));
    assert_eq!(ctx.file_record, FileRecord::default());
    assert_eq!(ctx.config, registry(3));
    assert_eq!(ctx.user_profile, profile(key(1), 2, 500));
}

#[test]
fn create_file_measures_the_name_in_bytes() {
    let mut ctx = new_file_records(key(1));
    // 26 characters of two bytes each
    let result = create_file(&mut ctx, "é".repeat(26), 1, [0; 32], 1, 0);
    assert_eq!(result, Err(ErrorCode::FileNameTooLong));
    let mut ctx = new_file_records(key(1));
    assert_eq!(create_file(&mut ctx, "é".repeat(25), 1, [0; 32], 1, 0), Ok(()));
}

#[test]
fn create_file_refuses_size_zero() {
    let mut ctx = new_file_records(key(1));
    let result = create_file(&mut ctx, "a".to_string(), 0, [0; 32], 1, 0);
    assert_eq!(result, Err(ErrorCode::InvalidFileSize));
    assert_eq!(ctx.config.total_files, 3);
}

#[test]
fn create_file_refuses_chunk_count_zero() {
    let mut ctx = new_file_records(key(1));
    let result = create_file(&mut ctx, "a".to_string(), 1, [0; 32], 0, 0);
    assert_eq!(result, Err(ErrorCode::InvalidChunkCount));
    assert_eq!(ctx.user_profile.files_owned, 2);
}

#[test]
fn create_file_checks_the_name_before_the_size_before_the_chunks() {
    let mut ctx = new_file_records(key(1));
    assert_eq!(
        create_file(&mut ctx, "n".repeat(60), 0, [0; 32], 0, 0),
        Err(ErrorCode::FileNameTooLong)
    );
    assert_eq!(
        create_file(&mut ctx, "n".to_string(), 0, [0; 32], 0, 0),
        Err(ErrorCode::InvalidFileSize)
    );
}

#[test]
fn create_file_refuses_a_full_counter() {
    let owner = key(1);
    let mut ctx = new_file_records(owner);
    ctx.config.total_files = u64::MAX;
    let result = create_file(&mut ctx, "a".to_string(), 1, [0; 32], 1, 0);
    assert_eq!(result, Err(ErrorCode::ArithmeticOverflow));
    assert_eq!(ctx.config.total_files, u64::MAX);
    assert_eq!(ctx.file_record, FileRecord::default());

    let mut ctx = new_file_records(owner);
    ctx.user_profile.storage_used = u64::MAX - 9;
    let result = create_file(&mut ctx, "a".to_string(), 10, [0; 32], 1, 0);
    assert_eq!(result, Err(ErrorCode::ArithmeticOverflow));
    assert_eq!(ctx.user_profile, profile(owner, 2, u64::MAX - 9));
    assert_eq!(create_file(&mut ctx, "a".to_string(), 9, [0; 32], 1, 0), Ok(()));
    assert_eq!(ctx.user_profile.storage_used, u64::MAX);

    let mut ctx = new_file_records(owner);
    ctx.user_profile.files_owned = u64::MAX;
    let result = create_file(&mut ctx, "a".to_string(), 1, [0; 32], 1, 0);
    assert_eq!(result, Err(ErrorCode::ArithmeticOverflow));
}

#[test]
fn register_storage_at_moves_the_file_to_processing() {
    let owner = key(1);
    let mut ctx = RegisterStorage { file_record: file(owner, FileStatus::Uploading, ""), owner };
    let result = register_storage_at(&mut ctx, "cid123".to_string(), [3; 32], 1_700_000_100);
    assert_eq!(result, Ok(()));
    assert_eq!(ctx.file_record.primary_storage, "cid123");
    assert_eq!(ctx.file_record.merkle_root, [3; 32]);
    assert_eq!(ctx.file_record.status, FileStatus::Processing);
    assert_eq!(ctx.file_record.updated_at, 1_700_000_100);
    assert_eq!(ctx.file_record.created_at, 1_700_000_000);
    assert_eq!(ctx.file_record.file_name, "report.pdf");
    assert_eq!(ctx.file_record.file_hash, [7; 32]);
}

#[test]
fn register_storage_at_twice_fails_the_second_time() {
    let owner = key(1);
    let mut ctx = RegisterStorage { file_record: file(owner, FileStatus::Uploading, ""), owner };
    assert_eq!(register_storage_at(&mut ctx, "cid123".to_string(), [3; 32], 10), Ok(()));
    let after_first = ctx.file_record.clone();
    let second = register_storage_at(&mut ctx, "cid456".to_string(), [4; 32], 20);
    assert_eq!(second, Err(ErrorCode::InvalidFileStatus));
    assert_eq!(ctx.file_record, after_first);
}

#[test]
fn register_storage_at_refuses_every_status_but_uploading() {
    let owner = key(1);
    for status in [
        FileStatus::Processing,
        FileStatus::Active,
        FileStatus::Archived,
        FileStatus::Deleted,
    ] {
        let mut ctx = RegisterStorage { file_record: file(owner, status, "cid"), owner };
        let result = register_storage_at(&mut ctx, "cid123".to_string(), [3; 32], 10);
        assert_eq!(result, Err(ErrorCode::InvalidFileStatus));
        assert_eq!(ctx.file_record, file(owner, status, "cid"));
    }
}

#[test]
fn register_storage_at_refuses_another_caller() {
    let mut ctx =
        RegisterStorage { file_record: file(key(1), FileStatus::Uploading, ""), owner: key(2) };
    let result = register_storage_at(&mut ctx, "cid123".to_string(), [3; 32], 10);
    assert_eq!(result, Err(ErrorCode::Unauthorized));
    assert_eq!(ctx.file_record, file(key(1), FileStatus::Uploading, ""));
}

#[test]
fn register_storage_at_bounds_the_location() {
    let owner = key(1);
    let mut ctx = RegisterStorage { file_record: file(owner, FileStatus::Uploading, ""), owner };
    assert_eq!(
        register_storage_at(&mut ctx, "c".repeat(101), [3; 32], 10),
        Err(ErrorCode::StorageLocationTooLong)
    );
    assert_eq!(
        register_storage_at(&mut ctx, String::new(), [3; 32], 10),
        Err(ErrorCode::StorageLocationEmpty)
    );
    assert_eq!(ctx.file_record, file(owner, FileStatus::Uploading, ""));
    assert_eq!(register_storage_at(&mut ctx, "c".repeat(100), [3; 32], 10), Ok(()));
    assert_eq!(ctx.file_record.primary_storage.len(), 100);
}

#[test]
fn register_storage_without_a_host_changes_nothing() {
    let owner = key(1);
    let mut ctx = RegisterStorage { file_record: file(owner, FileStatus::Uploading, ""), owner };
    let result = register_storage(&mut ctx, "cid123".to_string(), [3; 32]);
    assert_eq!(result, Err(ErrorCode::ClockUnavailable));
    assert_eq!(ctx.file_record, file(owner, FileStatus::Uploading, ""));
}

#[test]
fn register_storage_checks_before_it_asks_the_time() {
    let owner = key(1);
    let mut ctx = RegisterStorage { file_record: file(owner, FileStatus::Active, "cid"), owner };
    let result = register_storage(&mut ctx, "cid123".to_string(), [3; 32]);
    assert_eq!(result, Err(ErrorCode::InvalidFileStatus));
    let mut ctx = RegisterStorage { file_record: file(owner, FileStatus::Uploading, ""), owner };
    assert_eq!(
        register_storage(&mut ctx, String::new(), [3; 32]),
        Err(ErrorCode::StorageLocationEmpty)
    );
}

#[test]
fn finalize_file_at_moves_the_file_to_active() {
    let owner = key(1);
    let mut ctx = FinalizeFile { file_record: file(owner, FileStatus::Processing, "cid123"), owner };
    assert_eq!(finalize_file_at(&mut ctx, 1_700_000_200), Ok(()));
    assert_eq!(ctx.file_record.status, FileStatus::Active);
    assert_eq!(ctx.file_record.updated_at, 1_700_000_200);
    assert_eq!(ctx.file_record.primary_storage, "cid123");
}

#[test]
fn finalize_file_at_refuses_processing_without_a_location() {
    let owner = key(1);
    let mut ctx = FinalizeFile { file_record: file(owner, FileStatus::Processing, ""), owner };
    assert_eq!(finalize_file_at(&mut ctx, 5), Err(ErrorCode::NoStorageLocation));
    assert_eq!(ctx.file_record, file(owner, FileStatus::Processing, ""));
}

#[test]
fn finalize_file_at_refuses_a_skipped_or_repeated_step() {
    let owner = key(1);
    let mut ctx = FinalizeFile { file_record: file(owner, FileStatus::Uploading, ""), owner };
    assert_eq!(finalize_file_at(&mut ctx, 5), Err(ErrorCode::InvalidFileStatus));
    let mut ctx = FinalizeFile { file_record: file(owner, FileStatus::Active, "cid"), owner };
    assert_eq!(finalize_file_at(&mut ctx, 5), Err(ErrorCode::InvalidFileStatus));
    assert_eq!(ctx.file_record, file(owner, FileStatus::Active, "cid"));
}

#[test]
fn finalize_file_at_refuses_another_caller() {
    let mut ctx =
        FinalizeFile { file_record: file(key(1), FileStatus::Processing, "cid"), owner: key(2) };
    assert_eq!(finalize_file_at(&mut ctx, 5), Err(ErrorCode::Unauthorized));
}

#[test]
fn finalize_file_without_a_host_changes_nothing() {
    let owner = key(1);
    let mut ctx = FinalizeFile { file_record: file(owner, FileStatus::Processing, "cid"), owner };
    assert_eq!(finalize_file(&mut ctx), Err(ErrorCode::ClockUnavailable));
    assert_eq!(ctx.file_record, file(owner, FileStatus::Processing, "cid"));
    let mut ctx = FinalizeFile { file_record: file(owner, FileStatus::Processing, ""), owner };
    assert_eq!(finalize_file(&mut ctx), Err(ErrorCode::NoStorageLocation));
}

fn grant_records(owner: Pubkey, status: FileStatus) -> GrantAccess {
    GrantAccess {
        shared_access: SharedAccess::default(),
        file_record: file(owner, status, "cid123"),
        owner,
    }
}

#[test]
fn grant_access_at_writes_the_grant() {
    let owner = key(1);
    let mut ctx = grant_records(owner, FileStatus::Active);
    let result = grant_access_at(&mut ctx, key(2), AccessLevel::Read, None, 1_700_000_300);
    assert_eq!(result, Ok(()));
    assert_eq!(
        ctx.shared_access,
        SharedAccess {
            file_record: FileAddress::new(owner, "report.pdf".to_string()),
            owner,
            shared_with: key(2),
            access_level: AccessLevel::Read,
            expires_at: None,
            created_at: 1_700_000_300,
            is_active: true,
        }
    );
    assert_eq!(ctx.file_record, file(owner, FileStatus::Active, "cid123"));
}

#[test]
fn grant_access_at_refuses_an_expiry_at_or_before_now() {
    let owner = key(1);
    let mut ctx = grant_records(owner, FileStatus::Active);
    assert_eq!(
        grant_access_at(&mut ctx, key(2), AccessLevel::Write, Some(1000), 1000),
        Err(ErrorCode::InvalidExpirationTime)
    );
    assert_eq!(
        grant_access_at(&mut ctx, key(2), AccessLevel::Write, Some(999), 1000),
        Err(ErrorCode::InvalidExpirationTime)
    );
    assert_eq!(
        grant_access_at(&mut ctx, key(2), AccessLevel::Write, Some(i64::MIN), i64::MIN),
        Err(ErrorCode::InvalidExpirationTime)
    );
    assert_eq!(ctx.shared_access, SharedAccess::default());
}

#[test]
fn grant_access_at_takes_an_expiry_one_second_ahead() {
    let owner = key(1);
    let mut ctx = grant_records(owner, FileStatus::Active);
    assert_eq!(grant_access_at(&mut ctx, key(2), AccessLevel::Admin, Some(1001), 1000), Ok(()));
    assert_eq!(ctx.shared_access.expires_at, Some(1001));
    assert_eq!(ctx.shared_access.access_level, AccessLevel::Admin);
    assert_eq!(ctx.shared_access.created_at, 1000);
    assert!(ctx.shared_access.is_active);
}

#[test]
fn grant_access_at_refuses_a_file_that_is_not_active() {
    let owner = key(1);
    for status in [
        FileStatus::Uploading,
        FileStatus::Processing,
        FileStatus::Archived,
        FileStatus::Deleted,
    ] {
        let mut ctx = grant_records(owner, status);
        assert_eq!(
            grant_access_at(&mut ctx, key(2), AccessLevel::Read, None, 10),
            Err(ErrorCode::FileNotActive)
        );
        assert_eq!(ctx.shared_access, SharedAccess::default());
    }
}

#[test]
fn grant_access_at_refuses_another_caller() {
    let mut ctx = grant_records(key(1), FileStatus::Active);
    ctx.owner = key(3);
    assert_eq!(
        grant_access_at(&mut ctx, key(2), AccessLevel::Read, None, 10),
        Err(ErrorCode::Unauthorized)
    );
}

#[test]
fn grant_access_without_a_host_changes_nothing() {
    let owner = key(1);
    let mut ctx = grant_records(owner, FileStatus::Active);
    assert_eq!(
        grant_access(&mut ctx, key(2), AccessLevel::Read, None),
        Err(ErrorCode::ClockUnavailable)
    );
    assert_eq!(ctx.shared_access, SharedAccess::default());
    let mut ctx = grant_records(owner, FileStatus::Processing);
    assert_eq!(
        grant_access(&mut ctx, key(2), AccessLevel::Read, None),
        Err(ErrorCode::FileNotActive)
    );
}

fn grant(owner: Pubkey, grantee: Pubkey) -> SharedAccess {
    SharedAccess {
        file_record: FileAddress::new(owner, "report.pdf".to_string()),
        owner,
        shared_with: grantee,
        access_level: AccessLevel::Read,
        expires_at: Some(50),
        created_at: 10,
        is_active: true,
    }
}

#[test]
fn revoke_access_clears_the_active_flag() {
    let owner = key(1);
    let mut ctx = RevokeAccess {
        shared_access: grant(owner, key(2)),
        file_record: file(owner, FileStatus::Active, "cid123"),
        owner,
    };
    assert_eq!(revoke_access(&mut ctx), Ok(()));
    let mut expected = grant(owner, key(2));
    expected.is_active = false;
    assert_eq!(ctx.shared_access, expected);
    // revoking again keeps it inactive
    assert_eq!(revoke_access(&mut ctx), Ok(()));
    assert_eq!(ctx.shared_access, expected);
}

#[test]
fn revoke_access_refuses_another_caller() {
    let owner = key(1);
    let mut ctx = RevokeAccess {
        shared_access: grant(owner, key(2)),
        file_record: file(owner, FileStatus::Active, "cid123"),
        owner: key(2),
    };
    assert_eq!(revoke_access(&mut ctx), Err(ErrorCode::Unauthorized));
    assert_eq!(ctx.shared_access, grant(owner, key(2)));
}

#[test]
fn revoke_access_refuses_another_file() {
    let owner = key(1);
    let mut other = file(owner, FileStatus::Active, "cid123");
    other.file_name = "other.pdf".to_string();
    let mut ctx = RevokeAccess { shared_access: grant(owner, key(2)), file_record: other, owner };
    assert_eq!(revoke_access(&mut ctx), Err(ErrorCode::FileMismatch));
    assert!(ctx.shared_access.is_active);
}
