//! The operations, each on the records that it names.
//!
//! An operation takes its records in a struct and changes them in place. It
//! either succeeds or returns the one condition that it is refused for and
//! leaves every record as it was. For each operation a spec function says
//! which condition that is, on every input.

use crate::clock::current_time;
use crate::error::ErrorCode;
use crate::pubkey::Pubkey;
use crate::state::{
    byte_len, time_view, zeroed_hash, AccessLevel, ConfigView, FileRecord, FileRecordView,
    FileStatus, ProfileView, SharedAccess, SharedAccessView, SolDriveConfig, UserProfile,
    DEFAULT_MAX_FILE_SIZE, DEFAULT_STORAGE_FEE_PER_GB, INITIAL_REPUTATION_SCORE,
    MAX_FILE_NAME_LEN, MAX_STORAGE_LOCATION_LEN,
};
use vstd::prelude::*;
use vstd::utf8::encode_utf8;

verus! {

/// Number of bytes that `text` takes when it is stored.
fn stored_len(text: &String) -> (len: usize)
    ensures
        len == byte_len(text@),
{
    text.as_str().as_bytes().len()
}

/// The records of [`initialize`].
pub struct Initialize {
    /// The registry, allocated and not written yet.
    pub config: SolDriveConfig,
    /// The caller, who becomes the administrator.
    pub authority: Pubkey,
}

/// Writes the registry: the caller is its administrator, no file is counted,
/// the fee and the largest file size are the defaults.
pub fn initialize(ctx: &mut Initialize) -> (result: Result<(), ErrorCode>)
    ensures
        result is Ok,
        final(ctx).config@ == ConfigView::initial(old(ctx).authority@),
        final(ctx).authority == old(ctx).authority,
{
    ctx.config.authority = ctx.authority;
    ctx.config.total_files = 0;
    ctx.config.storage_fee_per_gb = DEFAULT_STORAGE_FEE_PER_GB;
    ctx.config.max_file_size = DEFAULT_MAX_FILE_SIZE;
    Ok(())
}

/// The records of [`create_user_profile`].
pub struct CreateUserProfile {
    /// The profile, allocated and not written yet.
    pub user_profile: UserProfile,
    /// The caller, whose profile it becomes.
    pub user: Pubkey,
}

/// Writes the profile of the caller: no file, no bytes, nothing paid, a
/// reputation of 100.
pub fn create_user_profile(ctx: &mut CreateUserProfile) -> (result: Result<(), ErrorCode>)
    ensures
        result is Ok,
        final(ctx).user_profile@ == ProfileView::initial(old(ctx).user@),
        final(ctx).user == old(ctx).user,
{
    ctx.user_profile.owner = ctx.user;
    ctx.user_profile.files_owned = 0;
    ctx.user_profile.storage_used = 0;
    ctx.user_profile.storage_paid_until = 0;
    ctx.user_profile.reputation_score = INITIAL_REPUTATION_SCORE;
    Ok(())
}

/// The records of [`create_file`].
pub struct CreateFile {
    /// The file record, allocated and not written yet.
    pub file_record: FileRecord,
    /// The registry.
    pub config: SolDriveConfig,
    /// The profile of the caller.
    pub user_profile: UserProfile,
    /// The caller, who becomes the owner of the file.
    pub owner: Pubkey,
}

/// The condition that [`create_file`] is refused for, if any.
///
/// The name is checked first, then the size, then the chunk count, then
/// whether the three counters can take one more file.
pub open spec fn create_file_error(
    config: ConfigView,
    user_profile: ProfileView,
    file_name: Seq<char>,
    file_size: nat,
    chunk_count: nat,
) -> Option<ErrorCode> {
    if byte_len(file_name) > MAX_FILE_NAME_LEN {
        Some(ErrorCode::FileNameTooLong)
    } else if file_size == 0 {
        Some(ErrorCode::InvalidFileSize)
    } else if chunk_count == 0 {
        Some(ErrorCode::InvalidChunkCount)
    } else if config.total_files + 1 > u64::MAX || user_profile.files_owned + 1 > u64::MAX
        || user_profile.storage_used + file_size > u64::MAX {
        Some(ErrorCode::ArithmeticOverflow)
    } else {
        None
    }
}

/// Writes the record of a new file and counts it.
///
/// The record starts in `Uploading`, private, with an empty location and a
/// zero integrity root, created and updated at `timestamp`. The registry
/// counts one more file. The profile counts one more file and `file_size`
/// more bytes.
pub fn create_file(
    ctx: &mut CreateFile,
    file_name: String,
    file_size: u64,
    file_hash: [u8; 32],
    chunk_count: u32,
    timestamp: i64,
) -> (result: Result<(), ErrorCode>)
    ensures
        match result {
            Ok(()) => {
                &&& create_file_error(
                    old(ctx).config@,
                    old(ctx).user_profile@,
                    file_name@,
                    file_size as nat,
                    chunk_count as nat,
                ) is None
                &&& final(ctx).file_record@ == FileRecordView::created(
                    old(ctx).owner@,
                    file_name@,
                    file_size as nat,
                    file_hash@,
                    chunk_count as nat,
                    timestamp as int,
                )
                &&& final(ctx).file_record@.valid()
                &&& final(ctx).config@ == old(ctx).config@.count_file()
                &&& final(ctx).user_profile@ == old(ctx).user_profile@.count_file(file_size as nat)
                &&& final(ctx).owner == old(ctx).owner
            },
            Err(e) => {
                &&& create_file_error(
                    old(ctx).config@,
                    old(ctx).user_profile@,
                    file_name@,
                    file_size as nat,
                    chunk_count as nat,
                ) == Some(e)
                &&& *final(ctx) == *old(ctx)
            },
        },
{
    if stored_len(&file_name) > MAX_FILE_NAME_LEN {
        return Err(ErrorCode::FileNameTooLong);
    }
    if file_size == 0 {
        return Err(ErrorCode::InvalidFileSize);
    }
    if chunk_count == 0 {
        return Err(ErrorCode::InvalidChunkCount);
    }
    if ctx.config.total_files == u64::MAX || ctx.user_profile.files_owned == u64::MAX
        || ctx.user_profile.storage_used > u64::MAX - file_size {
        return Err(ErrorCode::ArithmeticOverflow);
    }
    ctx.file_record.owner = ctx.owner;
    ctx.file_record.file_name = file_name;
    ctx.file_record.file_size = file_size;
    ctx.file_record.file_hash = file_hash;
    ctx.file_record.chunk_count = chunk_count;
    ctx.file_record.created_at = timestamp;
    ctx.file_record.updated_at = timestamp;
    ctx.file_record.status = FileStatus::Uploading;
    ctx.file_record.is_public = false;
    ctx.file_record.primary_storage = String::new();
    ctx.file_record.merkle_root = [0u8; 32];

    ctx.config.total_files += 1;

    ctx.user_profile.files_owned += 1;
    ctx.user_profile.storage_used += file_size;

    proof {
        assert(ctx.file_record.merkle_root@ =~= zeroed_hash());
        assert(encode_utf8(Seq::<char>::empty()).len() == 0);
    }
    Ok(())
}

/// The records of [`register_storage`].
pub struct RegisterStorage {
    /// The file whose storage is registered.
    pub file_record: FileRecord,
    /// The caller.
    pub owner: Pubkey,
}

/// The condition that [`register_storage`] is refused for, if any, whatever
/// the time.
///
/// The caller must be the owner of the file. Then the file must be in
/// `Uploading`. Then the location must be within its bound, and not empty.
pub open spec fn register_storage_error(
    file_record: FileRecordView,
    caller: Seq<u8>,
    primary_storage: Seq<char>,
) -> Option<ErrorCode> {
    if file_record.owner != caller {
        Some(ErrorCode::Unauthorized)
    } else if file_record.status != FileStatus::Uploading {
        Some(ErrorCode::InvalidFileStatus)
    } else if byte_len(primary_storage) > MAX_STORAGE_LOCATION_LEN {
        Some(ErrorCode::StorageLocationTooLong)
    } else if primary_storage.len() == 0 {
        Some(ErrorCode::StorageLocationEmpty)
    } else {
        None
    }
}

/// Checks what [`register_storage`] checks.
fn check_register_storage(ctx: &RegisterStorage, primary_storage: &String) -> (result: Result<(), ErrorCode>)
    ensures
        match result {
            Ok(()) => register_storage_error(ctx.file_record@, ctx.owner@, primary_storage@)
                is None,
            Err(e) => register_storage_error(ctx.file_record@, ctx.owner@, primary_storage@)
                == Some(e),
        },
{
    if ctx.file_record.owner != ctx.owner {
        return Err(ErrorCode::Unauthorized);
    }
    if ctx.file_record.status != FileStatus::Uploading {
        return Err(ErrorCode::InvalidFileStatus);
    }
    if stored_len(primary_storage) > MAX_STORAGE_LOCATION_LEN {
        return Err(ErrorCode::StorageLocationTooLong);
    }
    if primary_storage.as_str().is_empty() {
        return Err(ErrorCode::StorageLocationEmpty);
    }
    Ok(())
}

/// Registers where the file is stored, at the time `now`.
///
/// The file takes the location and the integrity root, moves from
/// `Uploading` to `Processing` and is updated at `now`.
pub fn register_storage_at(
    ctx: &mut RegisterStorage,
    primary_storage: String,
    merkle_root: [u8; 32],
    now: i64,
) -> (result: Result<(), ErrorCode>)
    ensures
        match result {
            Ok(()) => {
                &&& register_storage_error(old(ctx).file_record@, old(ctx).owner@, primary_storage@)
                    is None
                &&& final(ctx).file_record@ == old(ctx).file_record@.stored(
                    primary_storage@,
                    merkle_root@,
                    now as int,
                )
                &&& final(ctx).owner == old(ctx).owner
            },
            Err(e) => {
                &&& register_storage_error(old(ctx).file_record@, old(ctx).owner@, primary_storage@)
                    == Some(e)
                &&& *final(ctx) == *old(ctx)
            },
        },
{
    check_register_storage(ctx, &primary_storage)?;
    ctx.file_record.primary_storage = primary_storage;
    ctx.file_record.merkle_root = merkle_root;
    ctx.file_record.status = FileStatus::Processing;
    ctx.file_record.updated_at = now;
    Ok(())
}

/// Registers where the file is stored, at the host's current time.
///
/// A call that [`register_storage_error`] refuses is refused for that
/// condition. Any other call either does what [`register_storage_at`] does
/// at the time that the host gave, or is refused with `ClockUnavailable`
/// where the host gave none.
pub fn register_storage(
    ctx: &mut RegisterStorage,
    primary_storage: String,
    merkle_root: [u8; 32],
) -> (result: Result<(), ErrorCode>)
    ensures
        register_storage_error(old(ctx).file_record@, old(ctx).owner@, primary_storage@)
            matches Some(e) ==> result == Err::<(), ErrorCode>(e),
        match result {
            Ok(()) => {
                &&& register_storage_error(old(ctx).file_record@, old(ctx).owner@, primary_storage@)
                    is None
                &&& final(ctx).file_record@ == old(ctx).file_record@.stored(
                    primary_storage@,
                    merkle_root@,
                    final(ctx).file_record@.updated_at,
                )
                &&& final(ctx).owner == old(ctx).owner
            },
            Err(e) => {
                &&& *final(ctx) == *old(ctx)
                &&& e == ErrorCode::ClockUnavailable || register_storage_error(
                    old(ctx).file_record@,
                    old(ctx).owner@,
                    primary_storage@,
                ) == Some(e)
            },
        },
{
    check_register_storage(ctx, &primary_storage)?;
    let now: i64 = current_time()?;
    register_storage_at(ctx, primary_storage, merkle_root, now)
}

/// The records of [`finalize_file`].
pub struct FinalizeFile {
    /// The file that is finalized.
    pub file_record: FileRecord,
    /// The caller.
    pub owner: Pubkey,
}

/// The condition that [`finalize_file`] is refused for, if any, whatever the
/// time.
///
/// The caller must be the owner of the file. Then the file must be in
/// `Processing`. Then it must have a storage location, which is checked
/// although no operation leads to `Processing` without one.
pub open spec fn finalize_file_error(file_record: FileRecordView, caller: Seq<u8>) -> Option<
    ErrorCode,
> {
    if file_record.owner != caller {
        Some(ErrorCode::Unauthorized)
    } else if file_record.status != FileStatus::Processing {
        Some(ErrorCode::InvalidFileStatus)
    } else if file_record.primary_storage.len() == 0 {
        Some(ErrorCode::NoStorageLocation)
    } else {
        None
    }
}

/// Checks what [`finalize_file`] checks.
fn check_finalize_file(ctx: &FinalizeFile) -> (result: Result<(), ErrorCode>)
    ensures
        match result {
            Ok(()) => finalize_file_error(ctx.file_record@, ctx.owner@) is None,
            Err(e) => finalize_file_error(ctx.file_record@, ctx.owner@) == Some(e),
        },
{
    if ctx.file_record.owner != ctx.owner {
        return Err(ErrorCode::Unauthorized);
    }
    if ctx.file_record.status != FileStatus::Processing {
        return Err(ErrorCode::InvalidFileStatus);
    }
    if ctx.file_record.primary_storage.as_str().is_empty() {
        return Err(ErrorCode::NoStorageLocation);
    }
    Ok(())
}

/// Confirms that the file is available, at the time `now`.
///
/// The file moves from `Processing` to `Active` and is updated at `now`.
pub fn finalize_file_at(ctx: &mut FinalizeFile, now: i64) -> (result: Result<(), ErrorCode>)
    ensures
        match result {
            Ok(()) => {
                &&& finalize_file_error(old(ctx).file_record@, old(ctx).owner@) is None
                &&& final(ctx).file_record@ == old(ctx).file_record@.finalized(now as int)
                &&& final(ctx).owner == old(ctx).owner
            },
            Err(e) => {
                &&& finalize_file_error(old(ctx).file_record@, old(ctx).owner@) == Some(e)
                &&& *final(ctx) == *old(ctx)
            },
        },
{
    check_finalize_file(ctx)?;
    ctx.file_record.status = FileStatus::Active;
    ctx.file_record.updated_at = now;
    Ok(())
}

/// Confirms that the file is available, at the host's current time.
///
/// A call that [`finalize_file_error`] refuses is refused for that
/// condition. Any other call either does what [`finalize_file_at`] does at
/// the time that the host gave, or is refused with `ClockUnavailable` where
/// the host gave none.
pub fn finalize_file(ctx: &mut FinalizeFile) -> (result: Result<(), ErrorCode>)
    ensures
        finalize_file_error(old(ctx).file_record@, old(ctx).owner@) matches Some(e) ==> result
            == Err::<(), ErrorCode>(e),
        match result {
            Ok(()) => {
                &&& finalize_file_error(old(ctx).file_record@, old(ctx).owner@) is None
                &&& final(ctx).file_record@ == old(ctx).file_record@.finalized(
                    final(ctx).file_record@.updated_at,
                )
                &&& final(ctx).owner == old(ctx).owner
            },
            Err(e) => {
                &&& *final(ctx) == *old(ctx)
                &&& e == ErrorCode::ClockUnavailable || finalize_file_error(
                    old(ctx).file_record@,
                    old(ctx).owner@,
                ) == Some(e)
            },
        },
{
    check_finalize_file(ctx)?;
    let now: i64 = current_time()?;
    finalize_file_at(ctx, now)
}

/// The records of [`grant_access`].
pub struct GrantAccess {
    /// The grant, allocated and not written yet.
    pub shared_access: SharedAccess,
    /// The file that is shared.
    pub file_record: FileRecord,
    /// The caller.
    pub owner: Pubkey,
}

/// The condition that [`grant_access`] is refused for whatever the time, if
/// any: the caller must be the owner of the file, and the file must be
/// `Active`.
pub open spec fn grant_access_account_error(file_record: FileRecordView, caller: Seq<u8>) -> Option<
    ErrorCode,
> {
    if file_record.owner != caller {
        Some(ErrorCode::Unauthorized)
    } else if file_record.status != FileStatus::Active {
        Some(ErrorCode::FileNotActive)
    } else {
        None
    }
}

/// The condition that [`grant_access`] is refused for at the time `now`, if
/// any: those of [`grant_access_account_error`], then an expiry that is not
/// after `now`.
pub open spec fn grant_access_error(
    file_record: FileRecordView,
    caller: Seq<u8>,
    expires_at: Option<int>,
    now: int,
) -> Option<ErrorCode> {
    if grant_access_account_error(file_record, caller) is Some {
        grant_access_account_error(file_record, caller)
    } else if expires_at is Some && expires_at->0 <= now {
        Some(ErrorCode::InvalidExpirationTime)
    } else {
        None
    }
}

/// Checks what [`grant_access`] checks whatever the time.
fn check_grant_access(ctx: &GrantAccess) -> (result: Result<(), ErrorCode>)
    ensures
        match result {
            Ok(()) => grant_access_account_error(ctx.file_record@, ctx.owner@) is None,
            Err(e) => grant_access_account_error(ctx.file_record@, ctx.owner@) == Some(e),
        },
{
    if ctx.file_record.owner != ctx.owner {
        return Err(ErrorCode::Unauthorized);
    }
    if ctx.file_record.status != FileStatus::Active {
        return Err(ErrorCode::FileNotActive);
    }
    Ok(())
}

/// Lets `shared_with` use the file, at the time `now`.
///
/// The grant names the file, its owner and the grantee, carries the level
/// and the expiry, is created at `now` and is active.
pub fn grant_access_at(
    ctx: &mut GrantAccess,
    shared_with: Pubkey,
    access_level: AccessLevel,
    expires_at: Option<i64>,
    now: i64,
) -> (result: Result<(), ErrorCode>)
    ensures
        match result {
            Ok(()) => {
                &&& grant_access_error(
                    old(ctx).file_record@,
                    old(ctx).owner@,
                    time_view(expires_at),
                    now as int,
                ) is None
                &&& final(ctx).shared_access@ == SharedAccessView::granted(
                    old(ctx).file_record@.address(),
                    old(ctx).owner@,
                    shared_with@,
                    access_level,
                    time_view(expires_at),
                    now as int,
                )
                &&& final(ctx).file_record == old(ctx).file_record
                &&& final(ctx).owner == old(ctx).owner
            },
            Err(e) => {
                &&& grant_access_error(
                    old(ctx).file_record@,
                    old(ctx).owner@,
                    time_view(expires_at),
                    now as int,
                ) == Some(e)
                &&& *final(ctx) == *old(ctx)
            },
        },
{
    check_grant_access(ctx)?;
    if let Some(expiry) = expires_at {
        if expiry <= now {
            return Err(ErrorCode::InvalidExpirationTime);
        }
    }
    ctx.shared_access.file_record = ctx.file_record.address();
    ctx.shared_access.owner = ctx.owner;
    ctx.shared_access.shared_with = shared_with;
    ctx.shared_access.access_level = access_level;
    ctx.shared_access.expires_at = expires_at;
    ctx.shared_access.created_at = now;
    ctx.shared_access.is_active = true;
    Ok(())
}

/// Lets `shared_with` use the file, at the host's current time.
///
/// A call that [`grant_access_account_error`] refuses is refused for that
/// condition. Any other call either does what [`grant_access_at`] does at
/// the time that the host gave, which the grant then holds as its time of
/// creation, or is refused with `ClockUnavailable` where the host gave none.
pub fn grant_access(
    ctx: &mut GrantAccess,
    shared_with: Pubkey,
    access_level: AccessLevel,
    expires_at: Option<i64>,
) -> (result: Result<(), ErrorCode>)
    ensures
        grant_access_account_error(old(ctx).file_record@, old(ctx).owner@) matches Some(e)
            ==> result == Err::<(), ErrorCode>(e),
        match result {
            Ok(()) => {
                &&& grant_access_error(
                    old(ctx).file_record@,
                    old(ctx).owner@,
                    time_view(expires_at),
                    final(ctx).shared_access@.created_at,
                ) is None
                &&& final(ctx).shared_access@ == SharedAccessView::granted(
                    old(ctx).file_record@.address(),
                    old(ctx).owner@,
                    shared_with@,
                    access_level,
                    time_view(expires_at),
                    final(ctx).shared_access@.created_at,
                )
                &&& final(ctx).file_record == old(ctx).file_record
                &&& final(ctx).owner == old(ctx).owner
            },
            Err(e) => {
                &&& *final(ctx) == *old(ctx)
                &&& e == ErrorCode::ClockUnavailable || exists|now: i64|
                    grant_access_error(
                        old(ctx).file_record@,
                        old(ctx).owner@,
                        time_view(expires_at),
                        now as int,
                    ) == Some(e)
            },
        },
{
    check_grant_access(ctx)?;
    let now: i64 = current_time()?;
    grant_access_at(ctx, shared_with, access_level, expires_at, now)
}

/// The records of [`revoke_access`].
pub struct RevokeAccess {
    /// The grant that is revoked.
    pub shared_access: SharedAccess,
    /// The file that the caller says the grant governs.
    pub file_record: FileRecord,
    /// The caller.
    pub owner: Pubkey,
}

/// The condition that [`revoke_access`] is refused for, if any.
///
/// The caller must be the owner that the grant names. Then the grant must
/// govern the file supplied.
pub open spec fn revoke_access_error(
    shared_access: SharedAccessView,
    file_record: FileRecordView,
    caller: Seq<u8>,
) -> Option<ErrorCode> {
    if shared_access.owner != caller {
        Some(ErrorCode::Unauthorized)
    } else if shared_access.file_record != file_record.address() {
        Some(ErrorCode::FileMismatch)
    } else {
        None
    }
}

/// Revokes the grant: it is no longer active, and nothing activates it again.
pub fn revoke_access(ctx: &mut RevokeAccess) -> (result: Result<(), ErrorCode>)
    ensures
        match result {
            Ok(()) => {
                &&& revoke_access_error(
                    old(ctx).shared_access@,
                    old(ctx).file_record@,
                    old(ctx).owner@,
                ) is None
                &&& final(ctx).shared_access@ == old(ctx).shared_access@.revoked()
                &&& final(ctx).file_record == old(ctx).file_record
                &&& final(ctx).owner == old(ctx).owner
            },
            Err(e) => {
                &&& revoke_access_error(
                    old(ctx).shared_access@,
                    old(ctx).file_record@,
                    old(ctx).owner@,
                ) == Some(e)
                &&& *final(ctx) == *old(ctx)
            },
        },
{
    if ctx.shared_access.owner != ctx.owner {
        return Err(ErrorCode::Unauthorized);
    }
    if !ctx.shared_access.file_record.same(&ctx.file_record.address()) {
        return Err(ErrorCode::FileMismatch);
    }
    ctx.shared_access.is_active = false;
    Ok(())
}

} // verus!
