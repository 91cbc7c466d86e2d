//! The four kinds of record and their mathematical views.
//!
//! A view replaces bytes by `Seq<u8>`, text by `Seq<char>` and fixed-width
//! numbers by `nat` and `int`. The contracts of the operations speak of views.

use crate::pubkey::Pubkey;
use vstd::prelude::*;
use vstd::utf8::encode_utf8;

verus! {

/// Longest file name, in bytes.
pub const MAX_FILE_NAME_LEN: usize = 50;

/// Longest storage location, in bytes.
pub const MAX_STORAGE_LOCATION_LEN: usize = 100;

/// Storage fee of a new registry, in currency units per gigabyte per month.
pub const DEFAULT_STORAGE_FEE_PER_GB: u64 = 100_000_000;

/// Largest file size that a new registry allows, in bytes.
pub const DEFAULT_MAX_FILE_SIZE: u64 = 1_073_741_824;

/// Reputation score of a new profile.
pub const INITIAL_REPUTATION_SCORE: u32 = 100;

/// Number of bytes that a text takes when it is stored.
pub open spec fn byte_len(text: Seq<char>) -> nat {
    encode_utf8(text).len()
}

/// The 32 zero bytes of an integrity root that was not registered yet.
pub open spec fn zeroed_hash() -> Seq<u8> {
    Seq::new(32, |i: int| 0u8)
}

/// What a grantee may do with a file.
#[derive(Clone, Copy, Debug, PartialEq, Eq, Structural)]
pub enum AccessLevel {
    Read,
    Write,
    Admin,
}

/// Where a file stands in its lifecycle.
///
/// The operations lead from `Uploading` to `Processing` to `Active`. No
/// operation leads to `Archived` or `Deleted`.
#[derive(Clone, Copy, Debug, PartialEq, Eq, Structural)]
pub enum FileStatus {
    Uploading,
    Processing,
    Active,
    Archived,
    Deleted,
}

/// The registry: the one record of the platform's counters and prices.
#[derive(Clone, Copy, Debug, PartialEq, Eq)]
pub struct SolDriveConfig {
    /// The administrator.
    pub authority: Pubkey,
    /// Number of file records ever created.
    pub total_files: u64,
    /// Currency units per gigabyte per month.
    pub storage_fee_per_gb: u64,
    /// Largest file size allowed, in bytes.
    pub max_file_size: u64,
}

/// View of a [`SolDriveConfig`].
pub struct ConfigView {
    pub authority: Seq<u8>,
    pub total_files: nat,
    pub storage_fee_per_gb: nat,
    pub max_file_size: nat,
}

impl View for SolDriveConfig {
    type V = ConfigView;

    open spec fn view(&self) -> ConfigView {
        ConfigView {
            authority: self.authority@,
            total_files: self.total_files as nat,
            storage_fee_per_gb: self.storage_fee_per_gb as nat,
            max_file_size: self.max_file_size as nat,
        }
    }
}

impl ConfigView {
    /// The registry as initialization leaves it.
    pub open spec fn initial(authority: Seq<u8>) -> ConfigView {
        ConfigView {
            authority,
            total_files: 0,
            storage_fee_per_gb: DEFAULT_STORAGE_FEE_PER_GB as nat,
            max_file_size: DEFAULT_MAX_FILE_SIZE as nat,
        }
    }

    /// The registry after one more file was created.
    pub open spec fn count_file(self) -> ConfigView {
        ConfigView { total_files: self.total_files + 1, ..self }
    }
}

impl Default for SolDriveConfig {
    /// The content of an address that was allocated and not written yet.
    fn default() -> (config: SolDriveConfig)
        ensures
            config@ == (ConfigView {
                authority: zeroed_hash(),
                total_files: 0,
                storage_fee_per_gb: 0,
                max_file_size: 0,
            }),
    {
        let config = SolDriveConfig {
            authority: Pubkey::new_from_array([0u8; 32]),
            total_files: 0,
            storage_fee_per_gb: 0,
            max_file_size: 0,
        };
        assert(config.authority@ =~= zeroed_hash());
        config
    }
}

/// The profile of one identity: its quota and reputation.
#[derive(Clone, Copy, Debug, PartialEq, Eq)]
pub struct UserProfile {
    /// The identity that the profile belongs to.
    pub owner: Pubkey,
    /// Number of files that the owner created.
    pub files_owned: u64,
    /// Sum of the declared sizes of those files, in bytes. It never decreases.
    pub storage_used: u64,
    /// Time until which storage is paid.
    pub storage_paid_until: i64,
    /// Reputation of the owner.
    pub reputation_score: u32,
}

/// View of a [`UserProfile`].
pub struct ProfileView {
    pub owner: Seq<u8>,
    pub files_owned: nat,
    pub storage_used: nat,
    pub storage_paid_until: int,
    pub reputation_score: nat,
}

impl View for UserProfile {
    type V = ProfileView;

    open spec fn view(&self) -> ProfileView {
        ProfileView {
            owner: self.owner@,
            files_owned: self.files_owned as nat,
            storage_used: self.storage_used as nat,
            storage_paid_until: self.storage_paid_until as int,
            reputation_score: self.reputation_score as nat,
        }
    }
}

impl ProfileView {
    /// The profile as its creation leaves it.
    pub open spec fn initial(owner: Seq<u8>) -> ProfileView {
        ProfileView {
            owner,
            files_owned: 0,
            storage_used: 0,
            storage_paid_until: 0,
            reputation_score: INITIAL_REPUTATION_SCORE as nat,
        }
    }

    /// The profile after its owner created a file of `file_size` bytes.
    pub open spec fn count_file(self, file_size: nat) -> ProfileView {
        ProfileView {
            files_owned: self.files_owned + 1,
            storage_used: self.storage_used + file_size,
            ..self
        }
    }
}

impl Default for UserProfile {
    /// The content of an address that was allocated and not written yet.
    fn default() -> (profile: UserProfile)
        ensures
            profile@ == (ProfileView {
                owner: zeroed_hash(),
                files_owned: 0,
                storage_used: 0,
                storage_paid_until: 0,
                reputation_score: 0,
            }),
    {
        let profile = UserProfile {
            owner: Pubkey::new_from_array([0u8; 32]),
            files_owned: 0,
            storage_used: 0,
            storage_paid_until: 0,
            reputation_score: 0,
        };
        assert(profile.owner@ =~= zeroed_hash());
        profile
    }
}

/// The address of a file record: its owner and its name.
#[derive(Debug, PartialEq, Eq)]
pub struct FileAddress {
    pub owner: Pubkey,
    pub file_name: String,
}

/// View of a [`FileAddress`].
pub struct FileAddressView {
    pub owner: Seq<u8>,
    pub file_name: Seq<char>,
}

impl View for FileAddress {
    type V = FileAddressView;

    open spec fn view(&self) -> FileAddressView {
        FileAddressView { owner: self.owner@, file_name: self.file_name@ }
    }
}

impl Clone for FileAddress {
    fn clone(&self) -> (copy: FileAddress)
        ensures
            copy == *self,
    {
        FileAddress { owner: self.owner, file_name: self.file_name.clone() }
    }
}

impl FileAddress {
    /// The address of the file that `owner` named `file_name`.
    pub fn new(owner: Pubkey, file_name: String) -> (address: FileAddress)
        ensures
            address@ == (FileAddressView { owner: owner@, file_name: file_name@ }),
    {
        FileAddress { owner, file_name }
    }

    /// Whether two addresses are the same address.
    pub fn same(&self, other: &FileAddress) -> (equal: bool)
        ensures
            equal == (self@ == other@),
    {
        self.owner == other.owner && self.file_name == other.file_name
    }
}

/// The address of an access grant: the file and the grantee.
#[derive(Debug, PartialEq, Eq)]
pub struct GrantAddress {
    pub file_record: FileAddress,
    pub shared_with: Pubkey,
}

/// View of a [`GrantAddress`].
pub struct GrantAddressView {
    pub file_record: FileAddressView,
    pub shared_with: Seq<u8>,
}

impl View for GrantAddress {
    type V = GrantAddressView;

    open spec fn view(&self) -> GrantAddressView {
        GrantAddressView { file_record: self.file_record@, shared_with: self.shared_with@ }
    }
}

impl Clone for GrantAddress {
    fn clone(&self) -> (copy: GrantAddress)
        ensures
            copy == *self,
    {
        GrantAddress { file_record: self.file_record.clone(), shared_with: self.shared_with }
    }
}

impl GrantAddress {
    /// The address of the grant that lets `shared_with` use `file_record`.
    pub fn new(file_record: FileAddress, shared_with: Pubkey) -> (address: GrantAddress)
        ensures
            address@ == (GrantAddressView {
                file_record: file_record@,
                shared_with: shared_with@,
            }),
    {
        GrantAddress { file_record, shared_with }
    }

    /// Whether two addresses are the same address.
    pub fn same(&self, other: &GrantAddress) -> (equal: bool)
        ensures
            equal == (self@ == other@),
    {
        self.file_record.same(&other.file_record) && self.shared_with == other.shared_with
    }
}

/// The record of one file: who owns it, what it holds and where it is stored.
#[derive(Debug, PartialEq, Eq)]
pub struct FileRecord {
    pub owner: Pubkey,
    /// At most [`MAX_FILE_NAME_LEN`] bytes.
    pub file_name: String,
    /// Declared size in bytes, above zero.
    pub file_size: u64,
    /// Digest of the content.
    pub file_hash: [u8; 32],
    /// Number of chunks, above zero.
    pub chunk_count: u32,
    /// Integrity root, zero until storage is registered.
    pub merkle_root: [u8; 32],
    /// Storage location, empty until storage is registered, at most
    /// [`MAX_STORAGE_LOCATION_LEN`] bytes.
    pub primary_storage: String,
    pub created_at: i64,
    pub updated_at: i64,
    pub status: FileStatus,
    pub is_public: bool,
}

/// View of a [`FileRecord`].
pub struct FileRecordView {
    pub owner: Seq<u8>,
    pub file_name: Seq<char>,
    pub file_size: nat,
    pub file_hash: Seq<u8>,
    pub chunk_count: nat,
    pub merkle_root: Seq<u8>,
    pub primary_storage: Seq<char>,
    pub created_at: int,
    pub updated_at: int,
    pub status: FileStatus,
    pub is_public: bool,
}

impl View for FileRecord {
    type V = FileRecordView;

    open spec fn view(&self) -> FileRecordView {
        FileRecordView {
            owner: self.owner@,
            file_name: self.file_name@,
            file_size: self.file_size as nat,
            file_hash: self.file_hash@,
            chunk_count: self.chunk_count as nat,
            merkle_root: self.merkle_root@,
            primary_storage: self.primary_storage@,
            created_at: self.created_at as int,
            updated_at: self.updated_at as int,
            status: self.status,
            is_public: self.is_public,
        }
    }
}

impl FileRecordView {
    /// What holds of every file record that the operations write: the name
    /// and the location are within their bounds, and the size and the chunk
    /// count are above zero.
    pub open spec fn valid(self) -> bool {
        &&& byte_len(self.file_name) <= MAX_FILE_NAME_LEN
        &&& self.file_size > 0
        &&& self.chunk_count > 0
        &&& byte_len(self.primary_storage) <= MAX_STORAGE_LOCATION_LEN
    }

    /// The address that the record stands at.
    pub open spec fn address(self) -> FileAddressView {
        FileAddressView { owner: self.owner, file_name: self.file_name }
    }

    /// The record as the creation of a file leaves it.
    pub open spec fn created(
        owner: Seq<u8>,
        file_name: Seq<char>,
        file_size: nat,
        file_hash: Seq<u8>,
        chunk_count: nat,
        timestamp: int,
    ) -> FileRecordView {
        FileRecordView {
            owner,
            file_name,
            file_size,
            file_hash,
            chunk_count,
            merkle_root: zeroed_hash(),
            primary_storage: Seq::empty(),
            created_at: timestamp,
            updated_at: timestamp,
            status: FileStatus::Uploading,
            is_public: false,
        }
    }

    /// The record after its storage was registered at time `now`.
    pub open spec fn stored(
        self,
        primary_storage: Seq<char>,
        merkle_root: Seq<u8>,
        now: int,
    ) -> FileRecordView {
        FileRecordView {
            primary_storage,
            merkle_root,
            status: FileStatus::Processing,
            updated_at: now,
            ..self
        }
    }

    /// The record after it was finalized at time `now`.
    pub open spec fn finalized(self, now: int) -> FileRecordView {
        FileRecordView { status: FileStatus::Active, updated_at: now, ..self }
    }
}

impl Clone for FileRecord {
    fn clone(&self) -> (copy: FileRecord)
        ensures
            copy == *self,
    {
        FileRecord {
            owner: self.owner,
            file_name: self.file_name.clone(),
            file_size: self.file_size,
            file_hash: self.file_hash,
            chunk_count: self.chunk_count,
            merkle_root: self.merkle_root,
            primary_storage: self.primary_storage.clone(),
            created_at: self.created_at,
            updated_at: self.updated_at,
            status: self.status,
            is_public: self.is_public,
        }
    }
}

impl Default for FileRecord {
    /// The content of an address that was allocated and not written yet.
    fn default() -> (record: FileRecord)
        ensures
            record@ == (FileRecordView {
                owner: zeroed_hash(),
                file_name: Seq::empty(),
                file_size: 0,
                file_hash: zeroed_hash(),
                chunk_count: 0,
                merkle_root: zeroed_hash(),
                primary_storage: Seq::empty(),
                created_at: 0,
                updated_at: 0,
                status: FileStatus::Uploading,
                is_public: false,
            }),
    {
        let record = FileRecord {
            owner: Pubkey::new_from_array([0u8; 32]),
            file_name: String::new(),
            file_size: 0,
            file_hash: [0u8; 32],
            chunk_count: 0,
            merkle_root: [0u8; 32],
            primary_storage: String::new(),
            created_at: 0,
            updated_at: 0,
            status: FileStatus::Uploading,
            is_public: false,
        };
        assert(record.owner@ =~= zeroed_hash());
        assert(record.file_hash@ =~= zeroed_hash());
        assert(record.merkle_root@ =~= zeroed_hash());
        record
    }
}

impl FileRecord {
    /// The address that the record stands at.
    pub fn address(&self) -> (address: FileAddress)
        ensures
            address@ == self@.address(),
    {
        FileAddress { owner: self.owner, file_name: self.file_name.clone() }
    }
}

/// The record of one access grant: who may use which file, and how.
#[derive(Debug, PartialEq, Eq)]
pub struct SharedAccess {
    /// The file that the grant governs.
    pub file_record: FileAddress,
    /// The owner of that file, who made the grant.
    pub owner: Pubkey,
    /// The grantee.
    pub shared_with: Pubkey,
    pub access_level: AccessLevel,
    /// When the grant expires, if ever. Nothing clears an expired grant: who
    /// reads it compares this with the current time.
    pub expires_at: Option<i64>,
    pub created_at: i64,
    /// Cleared by revocation, for good.
    pub is_active: bool,
}

/// View of a [`SharedAccess`].
pub struct SharedAccessView {
    pub file_record: FileAddressView,
    pub owner: Seq<u8>,
    pub shared_with: Seq<u8>,
    pub access_level: AccessLevel,
    pub expires_at: Option<int>,
    pub created_at: int,
    pub is_active: bool,
}

/// View of an optional point in time.
pub open spec fn time_view(time: Option<i64>) -> Option<int> {
    match time {
        Some(t) => Some(t as int),
        None => None,
    }
}

impl View for SharedAccess {
    type V = SharedAccessView;

    open spec fn view(&self) -> SharedAccessView {
        SharedAccessView {
            file_record: self.file_record@,
            owner: self.owner@,
            shared_with: self.shared_with@,
            access_level: self.access_level,
            expires_at: time_view(self.expires_at),
            created_at: self.created_at as int,
            is_active: self.is_active,
        }
    }
}

impl SharedAccessView {
    /// The address that the record stands at.
    pub open spec fn address(self) -> GrantAddressView {
        GrantAddressView { file_record: self.file_record, shared_with: self.shared_with }
    }

    /// The record as the granting of access leaves it.
    pub open spec fn granted(
        file_record: FileAddressView,
        owner: Seq<u8>,
        shared_with: Seq<u8>,
        access_level: AccessLevel,
        expires_at: Option<int>,
        now: int,
    ) -> SharedAccessView {
        SharedAccessView {
            file_record,
            owner,
            shared_with,
            access_level,
            expires_at,
            created_at: now,
            is_active: true,
        }
    }

    /// The record after it was revoked.
    pub open spec fn revoked(self) -> SharedAccessView {
        SharedAccessView { is_active: false, ..self }
    }
}

impl Clone for SharedAccess {
    fn clone(&self) -> (copy: SharedAccess)
        ensures
            copy == *self,
    {
        SharedAccess {
            file_record: self.file_record.clone(),
            owner: self.owner,
            shared_with: self.shared_with,
            access_level: self.access_level,
            expires_at: self.expires_at,
            created_at: self.created_at,
            is_active: self.is_active,
        }
    }
}

impl Default for SharedAccess {
    /// The content of an address that was allocated and not written yet.
    fn default() -> (record: SharedAccess)
        ensures
            record@ == (SharedAccessView {
                file_record: FileAddressView { owner: zeroed_hash(), file_name: Seq::empty() },
                owner: zeroed_hash(),
                shared_with: zeroed_hash(),
                access_level: AccessLevel::Read,
                expires_at: None,
                created_at: 0,
                is_active: false,
            }),
    {
        let zero = Pubkey::new_from_array([0u8; 32]);
        assert(zero@ =~= zeroed_hash());
        SharedAccess {
            file_record: FileAddress { owner: zero, file_name: String::new() },
            owner: zero,
            shared_with: zero,
            access_level: AccessLevel::Read,
            expires_at: None,
            created_at: 0,
            is_active: false,
        }
    }
}

impl SharedAccess {
    /// The address that the record stands at.
    pub fn address(&self) -> (address: GrantAddress)
        ensures
            address@ == self@.address(),
    {
        GrantAddress { file_record: self.file_record.clone(), shared_with: self.shared_with }
    }
}

} // verus!
