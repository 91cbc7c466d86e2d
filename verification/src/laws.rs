//! What holds across several operations, proved over the views.

use crate::error::ErrorCode;
use crate::instructions::{
    finalize_file_error, grant_access_account_error, grant_access_error, register_storage_error,
};
use crate::ledger::LedgerView;
use crate::pubkey::Pubkey;
use crate::state::{
    byte_len, zeroed_hash, AccessLevel, FileAddressView, FileRecordView, FileStatus,
    GrantAddressView, SharedAccessView, MAX_FILE_NAME_LEN,
};
use vstd::prelude::*;

verus! {

impl LedgerView {
    /// The directory after an operation with the outcome `outcome`: the new
    /// directory where it succeeded, this one where it was refused.
    pub open spec fn after(self, outcome: Result<LedgerView, ErrorCode>) -> LedgerView {
        match outcome {
            Ok(next) => next,
            Err(_) => self,
        }
    }
}

/// An identity is its 32 bytes: two identities are the same exactly where
/// their views are.
pub proof fn law_identity_is_its_bytes(a: Pubkey, b: Pubkey)
    ensures
        a@.len() == 32,
        (a@ == b@) <==> (a == b),
{
    if a@ == b@ {
        assert(a.bytes =~= b.bytes);
    }
}

/// A file can be created where its address is free, the registry and the
/// profile of the owner exist, the name is within its bound, the size and
/// the chunk count are above zero and the counters are below their maximum.
/// Read back, the new record is in `Uploading`, with an empty location and a
/// zero integrity root, and the registry counts exactly one file more.
pub proof fn law_create_file_then_read(
    ledger: LedgerView,
    owner: Seq<u8>,
    file_name: Seq<char>,
    file_size: nat,
    file_hash: Seq<u8>,
    chunk_count: nat,
    timestamp: int,
)
    requires
        ledger.consistent(),
        !ledger.files.dom().contains(FileAddressView { owner, file_name }),
        ledger.config is Some,
        ledger.profiles.dom().contains(owner),
        byte_len(file_name) <= MAX_FILE_NAME_LEN,
        file_size > 0,
        chunk_count > 0,
        ledger.config->0.total_files < u64::MAX,
        ledger.profiles[owner].files_owned < u64::MAX,
        ledger.profiles[owner].storage_used + file_size <= u64::MAX,
    ensures
        ledger.create_file(owner, file_name, file_size, file_hash, chunk_count, timestamp) is Ok,
        ({
            let next = ledger.create_file(
                owner,
                file_name,
                file_size,
                file_hash,
                chunk_count,
                timestamp,
            )->Ok_0;
            let address = FileAddressView { owner, file_name };
            &&& next.files.dom().contains(address)
            &&& next.files[address].status == FileStatus::Uploading
            &&& next.files[address].primary_storage == Seq::<char>::empty()
            &&& next.files[address].merkle_root == zeroed_hash()
            &&& next.config is Some
            &&& next.config->0.total_files == ledger.config->0.total_files + 1
        }),
{
}

/// The owner of a file that is not in `Uploading` cannot register storage
/// for it: the call is refused with `InvalidFileStatus`, whatever the
/// location. For any caller the call is refused.
pub proof fn law_register_storage_needs_uploading(
    file_record: FileRecordView,
    caller: Seq<u8>,
    primary_storage: Seq<char>,
)
    requires
        file_record.status != FileStatus::Uploading,
    ensures
        register_storage_error(file_record, caller, primary_storage) is Some,
        file_record.owner == caller ==> register_storage_error(
            file_record,
            caller,
            primary_storage,
        ) == Some(ErrorCode::InvalidFileStatus),
{
}

/// Storage is registered once: after a registration that succeeded, a second
/// one by the owner is refused with `InvalidFileStatus` and leaves the
/// directory as the first one left it.
pub proof fn law_register_storage_once(
    ledger: LedgerView,
    file_record: FileAddressView,
    caller: Seq<u8>,
    first_storage: Seq<char>,
    first_root: Seq<u8>,
    first_time: int,
    second_storage: Seq<char>,
    second_root: Seq<u8>,
    second_time: int,
)
    requires
        ledger.register_storage(file_record, caller, first_storage, first_root, first_time) is Ok,
    ensures
        ({
            let next = ledger.register_storage(
                file_record,
                caller,
                first_storage,
                first_root,
                first_time,
            )->Ok_0;
            let again = next.register_storage(
                file_record,
                caller,
                second_storage,
                second_root,
                second_time,
            );
            &&& again == Err::<LedgerView, ErrorCode>(ErrorCode::InvalidFileStatus)
            &&& next.after(again) == next
        }),
{
}

/// A file without a storage location cannot be finalized, whatever its
/// status: in `Processing`, its owner is refused with `NoStorageLocation`.
pub proof fn law_finalize_needs_location(file_record: FileRecordView, caller: Seq<u8>)
    requires
        file_record.primary_storage.len() == 0,
    ensures
        finalize_file_error(file_record, caller) is Some,
        file_record.owner == caller && file_record.status == FileStatus::Processing
            ==> finalize_file_error(file_record, caller) == Some(ErrorCode::NoStorageLocation),
{
}

/// A grant whose expiry is at the time of the call or before it is refused:
/// for the owner of an active file, with `InvalidExpirationTime`.
pub proof fn law_grant_expiry_must_be_future(
    file_record: FileRecordView,
    caller: Seq<u8>,
    expires_at: int,
    now: int,
)
    requires
        expires_at <= now,
    ensures
        grant_access_error(file_record, caller, Some(expires_at), now) is Some,
        grant_access_account_error(file_record, caller) is None ==> grant_access_error(
            file_record,
            caller,
            Some(expires_at),
            now,
        ) == Some(ErrorCode::InvalidExpirationTime),
{
}

/// A grant that expires one second after the call is made: the owner of an
/// active file can grant it to a grantee who has no grant for that file.
pub proof fn law_grant_expiry_next_second(
    ledger: LedgerView,
    file_record: FileAddressView,
    caller: Seq<u8>,
    shared_with: Seq<u8>,
    access_level: AccessLevel,
    now: int,
)
    requires
        ledger.files.dom().contains(file_record),
        ledger.files[file_record].owner == caller,
        ledger.files[file_record].status == FileStatus::Active,
        !ledger.grants.dom().contains(GrantAddressView { file_record, shared_with }),
    ensures
        grant_access_error(ledger.files[file_record], caller, Some(now + 1), now) is None,
        ledger.grant_access(file_record, caller, shared_with, access_level, Some(now + 1), now)
            is Ok,
{
}

/// A refused grant leaves the directory as it was, and so does every grant
/// whose expiry is not after the time of the call.
pub proof fn law_grant_expired_is_refused(
    ledger: LedgerView,
    file_record: FileAddressView,
    caller: Seq<u8>,
    shared_with: Seq<u8>,
    access_level: AccessLevel,
    expires_at: int,
    now: int,
)
    requires
        expires_at <= now,
    ensures
        ledger.grant_access(file_record, caller, shared_with, access_level, Some(expires_at), now)
            is Err,
        ledger.after(
            ledger.grant_access(
                file_record,
                caller,
                shared_with,
                access_level,
                Some(expires_at),
                now,
            ),
        ) == ledger,
{
}

/// The registry is initialized once: on a directory whose registry exists,
/// initialization is refused with `AccountInUse`, and the registry keeps its
/// administrator, its counter and its prices.
pub proof fn law_initialize_once(ledger: LedgerView, authority: Seq<u8>)
    requires
        ledger.config is Some,
    ensures
        ledger.initialize(authority) == Err::<LedgerView, ErrorCode>(ErrorCode::AccountInUse),
        ledger.after(ledger.initialize(authority)) == ledger,
        ledger.after(ledger.initialize(authority)).config == ledger.config,
{
}

/// Initialization that succeeded cannot be repeated, by whomever.
pub proof fn law_initialize_twice(ledger: LedgerView, first: Seq<u8>, second: Seq<u8>)
    requires
        ledger.initialize(first) is Ok,
    ensures
        ledger.initialize(first)->Ok_0.initialize(second) == Err::<LedgerView, ErrorCode>(
            ErrorCode::AccountInUse,
        ),
{
}

/// A grantee has one grant per file: after a grant that succeeded, granting
/// to the same grantee again is refused with `AccountInUse`, also after the
/// grant was revoked.
pub proof fn law_grant_once(
    ledger: LedgerView,
    file_record: FileAddressView,
    caller: Seq<u8>,
    shared_with: Seq<u8>,
    access_level: AccessLevel,
    expires_at: Option<int>,
    now: int,
    later_level: AccessLevel,
    later_expiry: Option<int>,
    later: int,
)
    requires
        ledger.grant_access(file_record, caller, shared_with, access_level, expires_at, now) is Ok,
    ensures
        ({
            let address = GrantAddressView { file_record, shared_with };
            let granted = ledger.grant_access(
                file_record,
                caller,
                shared_with,
                access_level,
                expires_at,
                now,
            )->Ok_0;
            let revoked = granted.after(granted.revoke_access(address, file_record, caller));
            &&& granted.grants[address].is_active
            &&& granted.grant_access(
                file_record,
                caller,
                shared_with,
                later_level,
                later_expiry,
                later,
            ) == Err::<LedgerView, ErrorCode>(ErrorCode::AccountInUse)
            &&& revoked.grant_access(
                file_record,
                caller,
                shared_with,
                later_level,
                later_expiry,
                later,
            ) == Err::<LedgerView, ErrorCode>(ErrorCode::AccountInUse)
        }),
{
}

/// Every operation keeps the directory consistent.
pub proof fn law_operations_keep_consistency(
    ledger: LedgerView,
    owner: Seq<u8>,
    file_name: Seq<char>,
    file_size: nat,
    file_hash: Seq<u8>,
    chunk_count: nat,
    primary_storage: Seq<char>,
    merkle_root: Seq<u8>,
    shared_with: Seq<u8>,
    access_level: AccessLevel,
    expires_at: Option<int>,
    now: int,
)
    requires
        ledger.consistent(),
    ensures
        ledger.after(ledger.initialize(owner)).consistent(),
        ledger.after(ledger.create_user_profile(owner)).consistent(),
        ledger.after(
            ledger.create_file(owner, file_name, file_size, file_hash, chunk_count, now),
        ).consistent(),
        ledger.after(
            ledger.register_storage(
                FileAddressView { owner, file_name },
                owner,
                primary_storage,
                merkle_root,
                now,
            ),
        ).consistent(),
        ledger.after(
            ledger.finalize_file(FileAddressView { owner, file_name }, owner, now),
        ).consistent(),
        ledger.after(
            ledger.grant_access(
                FileAddressView { owner, file_name },
                owner,
                shared_with,
                access_level,
                expires_at,
                now,
            ),
        ).consistent(),
        ledger.after(
            ledger.revoke_access(
                GrantAddressView { file_record: FileAddressView { owner, file_name }, shared_with },
                FileAddressView { owner, file_name },
                owner,
            ),
        ).consistent(),
{
    assert(vstd::utf8::encode_utf8(Seq::<char>::empty()).len() == 0);
}

/// How far a status is along the lifecycle.
pub open spec fn stage(status: FileStatus) -> nat {
    match status {
        FileStatus::Uploading => 0,
        FileStatus::Processing => 1,
        FileStatus::Active => 2,
        FileStatus::Archived => 3,
        FileStatus::Deleted => 4,
    }
}

impl LedgerView {
    /// Whether this directory can follow `before`.
    ///
    /// No record is gone. The registry keeps its administrator and its
    /// prices, and its counter is not lower. A profile keeps its owner, and
    /// its counters are not lower. A file keeps its owner, name, size,
    /// digest, chunk count and time of creation, and its status is not
    /// earlier in the lifecycle. A grant keeps everything but its active
    /// flag, which is not set again once it was cleared.
    pub open spec fn follows(self, before: LedgerView) -> bool {
        &&& before.config matches Some(old) ==> {
            &&& self.config matches Some(new)
            &&& new.authority == old.authority
            &&& new.storage_fee_per_gb == old.storage_fee_per_gb
            &&& new.max_file_size == old.max_file_size
            &&& new.total_files >= old.total_files
        }
        &&& forall|owner: Seq<u8>| #[trigger]
            before.profiles.dom().contains(owner) ==> {
                &&& self.profiles.dom().contains(owner)
                &&& self.profiles[owner].owner == before.profiles[owner].owner
                &&& self.profiles[owner].files_owned >= before.profiles[owner].files_owned
                &&& self.profiles[owner].storage_used >= before.profiles[owner].storage_used
            }
        &&& forall|address: FileAddressView| #[trigger]
            before.files.dom().contains(address) ==> {
                &&& self.files.dom().contains(address)
                &&& self.files[address].owner == before.files[address].owner
                &&& self.files[address].file_name == before.files[address].file_name
                &&& self.files[address].file_size == before.files[address].file_size
                &&& self.files[address].file_hash == before.files[address].file_hash
                &&& self.files[address].chunk_count == before.files[address].chunk_count
                &&& self.files[address].created_at == before.files[address].created_at
                &&& stage(self.files[address].status) >= stage(before.files[address].status)
            }
        &&& forall|address: GrantAddressView| #[trigger]
            before.grants.dom().contains(address) ==> {
                &&& self.grants.dom().contains(address)
                &&& self.grants[address] == (SharedAccessView {
                    is_active: self.grants[address].is_active,
                    ..before.grants[address]
                })
                &&& self.grants[address].is_active ==> before.grants[address].is_active
            }
    }
}

/// No operation removes a record, rewrites what identifies it, lowers a
/// counter, moves a file back in its lifecycle or activates a revoked grant.
pub proof fn law_operations_only_advance(
    ledger: LedgerView,
    owner: Seq<u8>,
    file_name: Seq<char>,
    file_size: nat,
    file_hash: Seq<u8>,
    chunk_count: nat,
    file_record: FileAddressView,
    primary_storage: Seq<char>,
    merkle_root: Seq<u8>,
    shared_with: Seq<u8>,
    access_level: AccessLevel,
    expires_at: Option<int>,
    now: int,
)
    ensures
        ledger.after(ledger.initialize(owner)).follows(ledger),
        ledger.after(ledger.create_user_profile(owner)).follows(ledger),
        ledger.after(
            ledger.create_file(owner, file_name, file_size, file_hash, chunk_count, now),
        ).follows(ledger),
        ledger.after(
            ledger.register_storage(file_record, owner, primary_storage, merkle_root, now),
        ).follows(ledger),
        ledger.after(ledger.finalize_file(file_record, owner, now)).follows(ledger),
        ledger.after(
            ledger.grant_access(file_record, owner, shared_with, access_level, expires_at, now),
        ).follows(ledger),
        ledger.after(
            ledger.revoke_access(GrantAddressView { file_record, shared_with }, file_record, owner),
        ).follows(ledger),
{
}

/// Following is transitive: what holds of each step holds of every run.
pub proof fn law_follows_is_transitive(first: LedgerView, second: LedgerView, third: LedgerView)
    requires
        second.follows(first),
        third.follows(second),
    ensures
        third.follows(first),
{
}

} // verus!
