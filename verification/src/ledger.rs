//! The directory of records.
//!
//! Every record stands at an address: the registry at the one address of
//! its kind, a profile at its owner, a file at its owner and name, a grant at
//! its file and grantee. An address holds at most one record, so creating a
//! record at an address that holds one is refused. Records are never
//! removed.
//!
//! [`LedgerView`] is the directory as four maps, and says for each operation
//! what it returns and what the directory is afterwards. [`Ledger`] holds the
//! records and runs the operations of [`crate::instructions`] on them, each
//! as one step that either happens whole or leaves the directory as it was.

use crate::error::ErrorCode;
use crate::instructions::{
    create_file_error, finalize_file_error, grant_access_error, register_storage_error,
    revoke_access_error, CreateFile, CreateUserProfile, FinalizeFile, GrantAccess, Initialize,
    RegisterStorage, RevokeAccess,
};
use crate::pubkey::Pubkey;
use crate::state::{
    time_view, AccessLevel, ConfigView, FileAddress, FileAddressView, FileRecord, FileRecordView,
    GrantAddress, GrantAddressView, ProfileView, SharedAccess, SharedAccessView, SolDriveConfig,
    UserProfile,
};
use crate::table::{
    lemma_table_at, lemma_table_len, lemma_table_push, lemma_table_update, table,
};
use vstd::prelude::*;

verus! {

/// The directory as mathematics: the registry, if it was initialized, and
/// the profiles, files and grants by address.
pub struct LedgerView {
    pub config: Option<ConfigView>,
    pub profiles: Map<Seq<u8>, ProfileView>,
    pub files: Map<FileAddressView, FileRecordView>,
    pub grants: Map<GrantAddressView, SharedAccessView>,
}

impl LedgerView {
    /// The directory that holds no record.
    pub open spec fn empty() -> LedgerView {
        LedgerView {
            config: None,
            profiles: Map::empty(),
            files: Map::empty(),
            grants: Map::empty(),
        }
    }

    /// What holds of every directory that the operations lead to: each
    /// record stands at its own address, each file record is valid, and the
    /// registry counts the file records.
    pub open spec fn consistent(self) -> bool {
        &&& forall|owner: Seq<u8>| #[trigger]
            self.profiles.dom().contains(owner) ==> self.profiles[owner].owner == owner
        &&& forall|address: FileAddressView| #[trigger]
            self.files.dom().contains(address) ==> self.files[address].address() == address
                && self.files[address].valid()
        &&& forall|address: GrantAddressView| #[trigger]
            self.grants.dom().contains(address) ==> self.grants[address].address() == address
        &&& self.files.dom().finite()
        &&& match self.config {
            Some(config) => config.total_files == self.files.dom().len(),
            None => self.files.dom().len() == 0,
        }
    }

    /// Initializes the registry, once.
    pub open spec fn initialize(self, authority: Seq<u8>) -> Result<LedgerView, ErrorCode> {
        if self.config is Some {
            Err(ErrorCode::AccountInUse)
        } else {
            Ok(LedgerView { config: Some(ConfigView::initial(authority)), ..self })
        }
    }

    /// Creates the profile of `user`, once.
    pub open spec fn create_user_profile(self, user: Seq<u8>) -> Result<LedgerView, ErrorCode> {
        if self.profiles.dom().contains(user) {
            Err(ErrorCode::AccountInUse)
        } else {
            Ok(LedgerView { profiles: self.profiles.insert(user, ProfileView::initial(user)), ..self })
        }
    }

    /// Creates the file that `owner` names `file_name`, once.
    ///
    /// The address must be free, the registry and the profile of `owner`
    /// must exist, and [`create_file_error`] must find nothing.
    pub open spec fn create_file(
        self,
        owner: Seq<u8>,
        file_name: Seq<char>,
        file_size: nat,
        file_hash: Seq<u8>,
        chunk_count: nat,
        timestamp: int,
    ) -> Result<LedgerView, ErrorCode> {
        let address = FileAddressView { owner, file_name };
        if self.files.dom().contains(address) {
            Err(ErrorCode::AccountInUse)
        } else if self.config is None || !self.profiles.dom().contains(owner) {
            Err(ErrorCode::AccountNotFound)
        } else if let Some(e) = create_file_error(
            self.config->0,
            self.profiles[owner],
            file_name,
            file_size,
            chunk_count,
        ) {
            Err(e)
        } else {
            Ok(
                LedgerView {
                    config: Some(self.config->0.count_file()),
                    profiles: self.profiles.insert(
                        owner,
                        self.profiles[owner].count_file(file_size),
                    ),
                    files: self.files.insert(
                        address,
                        FileRecordView::created(
                            owner,
                            file_name,
                            file_size,
                            file_hash,
                            chunk_count,
                            timestamp,
                        ),
                    ),
                    grants: self.grants,
                },
            )
        }
    }

    /// Registers the storage of the file at `file_record`, as `caller`.
    pub open spec fn register_storage(
        self,
        file_record: FileAddressView,
        caller: Seq<u8>,
        primary_storage: Seq<char>,
        merkle_root: Seq<u8>,
        now: int,
    ) -> Result<LedgerView, ErrorCode> {
        if !self.files.dom().contains(file_record) {
            Err(ErrorCode::AccountNotFound)
        } else if let Some(e) = register_storage_error(self.files[file_record], caller, primary_storage) {
            Err(e)
        } else {
            Ok(
                LedgerView {
                    files: self.files.insert(
                        file_record,
                        self.files[file_record].stored(primary_storage, merkle_root, now),
                    ),
                    ..self
                },
            )
        }
    }

    /// Finalizes the file at `file_record`, as `caller`.
    pub open spec fn finalize_file(self, file_record: FileAddressView, caller: Seq<u8>, now: int)
        -> Result<LedgerView, ErrorCode> {
        if !self.files.dom().contains(file_record) {
            Err(ErrorCode::AccountNotFound)
        } else if let Some(e) = finalize_file_error(self.files[file_record], caller) {
            Err(e)
        } else {
            Ok(
                LedgerView {
                    files: self.files.insert(file_record, self.files[file_record].finalized(now)),
                    ..self
                },
            )
        }
    }

    /// Grants `shared_with` access to the file at `file_record`, as `caller`.
    ///
    /// The address of the grant must be free: a grantee has one grant per
    /// file, revoked or not.
    pub open spec fn grant_access(
        self,
        file_record: FileAddressView,
        caller: Seq<u8>,
        shared_with: Seq<u8>,
        access_level: AccessLevel,
        expires_at: Option<int>,
        now: int,
    ) -> Result<LedgerView, ErrorCode> {
        let address = GrantAddressView { file_record, shared_with };
        if self.grants.dom().contains(address) {
            Err(ErrorCode::AccountInUse)
        } else if !self.files.dom().contains(file_record) {
            Err(ErrorCode::AccountNotFound)
        } else if let Some(e) = grant_access_error(self.files[file_record], caller, expires_at, now) {
            Err(e)
        } else {
            Ok(
                LedgerView {
                    grants: self.grants.insert(
                        address,
                        SharedAccessView::granted(
                            self.files[file_record].address(),
                            caller,
                            shared_with,
                            access_level,
                            expires_at,
                            now,
                        ),
                    ),
                    ..self
                },
            )
        }
    }

    /// Revokes the grant at `shared_access`, which `caller` says governs the
    /// file at `file_record`.
    pub open spec fn revoke_access(
        self,
        shared_access: GrantAddressView,
        file_record: FileAddressView,
        caller: Seq<u8>,
    ) -> Result<LedgerView, ErrorCode> {
        if !self.grants.dom().contains(shared_access) || !self.files.dom().contains(file_record) {
            Err(ErrorCode::AccountNotFound)
        } else if let Some(e) = revoke_access_error(self.grants[shared_access], self.files[file_record], caller) {
            Err(e)
        } else {
            Ok(
                LedgerView {
                    grants: self.grants.insert(shared_access, self.grants[shared_access].revoked()),
                    ..self
                },
            )
        }
    }
}

/// The directory: the registry, if it was initialized, and the profiles,
/// files and grants, each kind in a list in which no address occurs twice.
pub struct Ledger {
    config: Option<SolDriveConfig>,
    profiles: Vec<UserProfile>,
    files: Vec<FileRecord>,
    grants: Vec<SharedAccess>,
}

impl View for Ledger {
    type V = LedgerView;

    open spec fn view(&self) -> LedgerView {
        self.as_view()
    }
}

impl Ledger {
    spec fn profile_keys(self) -> Seq<Seq<u8>> {
        Seq::new(self.profiles.len() as nat, |i: int| self.profiles[i].owner@)
    }

    spec fn profile_views(self) -> Seq<ProfileView> {
        Seq::new(self.profiles.len() as nat, |i: int| self.profiles[i]@)
    }

    spec fn file_keys(self) -> Seq<FileAddressView> {
        Seq::new(self.files.len() as nat, |i: int| self.files[i]@.address())
    }

    spec fn file_views(self) -> Seq<FileRecordView> {
        Seq::new(self.files.len() as nat, |i: int| self.files[i]@)
    }

    spec fn grant_keys(self) -> Seq<GrantAddressView> {
        Seq::new(self.grants.len() as nat, |i: int| self.grants[i]@.address())
    }

    spec fn grant_views(self) -> Seq<SharedAccessView> {
        Seq::new(self.grants.len() as nat, |i: int| self.grants[i]@)
    }

    /// The directory as four maps.
    pub closed spec fn as_view(self) -> LedgerView {
        LedgerView {
            config: match self.config {
                Some(config) => Some(config@),
                None => None,
            },
            profiles: table(self.profile_keys(), self.profile_views()),
            files: table(self.file_keys(), self.file_views()),
            grants: table(self.grant_keys(), self.grant_views()),
        }
    }

    /// No address occurs twice, each file record is valid, and the registry
    /// counts the file records. Every operation requires and keeps this.
    pub closed spec fn wf(self) -> bool {
        &&& self.profile_keys().no_duplicates()
        &&& self.file_keys().no_duplicates()
        &&& self.grant_keys().no_duplicates()
        &&& forall|i: int| 0 <= i < self.files.len() ==> (#[trigger] self.files[i])@.valid()
        &&& match self.config {
            Some(config) => config.total_files == self.files.len(),
            None => self.files.len() == 0,
        }
    }

    /// A well-formed directory has a consistent view: each record stands at
    /// its own address, each file record is valid, and the registry counts
    /// the file records.
    pub proof fn law_well_formed_is_consistent(self)
        requires
            self.wf(),
        ensures
            self@.consistent(),
    {
        let view = self@;
        assert forall|owner: Seq<u8>| #[trigger]
            view.profiles.dom().contains(owner) implies view.profiles[owner].owner == owner by {
            let i = self.profile_keys().index_of(owner);
            assert(self.profile_keys()[i] == owner);
        }
        assert forall|address: FileAddressView| #[trigger]
            view.files.dom().contains(address) implies view.files[address].address() == address
            && view.files[address].valid() by {
            let i = self.file_keys().index_of(address);
            assert(self.file_keys()[i] == address);
            assert(self.files[i]@.valid());
        }
        assert forall|address: GrantAddressView| #[trigger]
            view.grants.dom().contains(address) implies view.grants[address].address()
            == address by {
            let i = self.grant_keys().index_of(address);
            assert(self.grant_keys()[i] == address);
        }
        lemma_table_len(self.file_keys(), self.file_views());
    }

    /// The directory that holds no record.
    pub fn new() -> (ledger: Ledger)
        ensures
            ledger.wf(),
            ledger@ == LedgerView::empty(),
    {
        let ledger = Ledger {
            config: None,
            profiles: Vec::new(),
            files: Vec::new(),
            grants: Vec::new(),
        };
        assert(ledger@.profiles =~= Map::empty());
        assert(ledger@.files =~= Map::empty());
        assert(ledger@.grants =~= Map::empty());
        ledger
    }

    /// Where the profile of `owner` stands in the list.
    fn find_profile(&self, owner: &Pubkey) -> (found: Option<usize>)
        ensures
            match found {
                Some(i) => i < self.profiles.len() && self.profile_keys()[i as int] == owner@,
                None => !self.profile_keys().contains(owner@),
            },
    {
        let mut i: usize = 0;
        while i < self.profiles.len()
            invariant
                i <= self.profiles.len(),
                forall|j: int| 0 <= j < i ==> self.profile_keys()[j] != owner@,
            decreases self.profiles.len() - i,
        {
            if self.profiles[i].owner == *owner {
                return Some(i);
            }
            i += 1;
        }
        None
    }

    /// Where the file at `address` stands in the list.
    fn find_file(&self, address: &FileAddress) -> (found: Option<usize>)
        ensures
            match found {
                Some(i) => i < self.files.len() && self.file_keys()[i as int] == address@,
                None => !self.file_keys().contains(address@),
            },
    {
        let mut i: usize = 0;
        while i < self.files.len()
            invariant
                i <= self.files.len(),
                forall|j: int| 0 <= j < i ==> self.file_keys()[j] != address@,
            decreases self.files.len() - i,
        {
            if self.files[i].owner == address.owner && self.files[i].file_name
                == address.file_name {
                return Some(i);
            }
            i += 1;
        }
        None
    }

    /// Where the grant at `address` stands in the list.
    fn find_grant(&self, address: &GrantAddress) -> (found: Option<usize>)
        ensures
            match found {
                Some(i) => i < self.grants.len() && self.grant_keys()[i as int] == address@,
                None => !self.grant_keys().contains(address@),
            },
    {
        let mut i: usize = 0;
        while i < self.grants.len()
            invariant
                i <= self.grants.len(),
                forall|j: int| 0 <= j < i ==> self.grant_keys()[j] != address@,
            decreases self.grants.len() - i,
        {
            if self.grants[i].file_record.same(&address.file_record) && self.grants[i].shared_with
                == address.shared_with {
                return Some(i);
            }
            i += 1;
        }
        None
    }

    /// The registry, if it was initialized.
    pub fn config(&self) -> (config: Option<&SolDriveConfig>)
        ensures
            match config {
                Some(config) => self@.config == Some(config@),
                None => self@.config is None,
            },
    {
        self.config.as_ref()
    }

    /// The profile of `owner`, if it was created.
    pub fn user_profile(&self, owner: &Pubkey) -> (profile: Option<&UserProfile>)
        requires
            self.wf(),
        ensures
            match profile {
                Some(profile) => self@.profiles.dom().contains(owner@) && self@.profiles[owner@]
                    == profile@,
                None => !self@.profiles.dom().contains(owner@),
            },
    {
        match self.find_profile(owner) {
            Some(i) => {
                proof {
                    lemma_table_at(self.profile_keys(), self.profile_views(), i as int);
                }
                Some(&self.profiles[i])
            },
            None => None,
        }
    }

    /// The file record at `address`, if it was created.
    pub fn file_record(&self, address: &FileAddress) -> (record: Option<&FileRecord>)
        requires
            self.wf(),
        ensures
            match record {
                Some(record) => self@.files.dom().contains(address@) && self@.files[address@]
                    == record@,
                None => !self@.files.dom().contains(address@),
            },
    {
        match self.find_file(address) {
            Some(i) => {
                proof {
                    lemma_table_at(self.file_keys(), self.file_views(), i as int);
                }
                Some(&self.files[i])
            },
            None => None,
        }
    }

    /// The grant at `address`, if it was created.
    pub fn shared_access(&self, address: &GrantAddress) -> (record: Option<&SharedAccess>)
        requires
            self.wf(),
        ensures
            match record {
                Some(record) => self@.grants.dom().contains(address@) && self@.grants[address@]
                    == record@,
                None => !self@.grants.dom().contains(address@),
            },
    {
        match self.find_grant(address) {
            Some(i) => {
                proof {
                    lemma_table_at(self.grant_keys(), self.grant_views(), i as int);
                }
                Some(&self.grants[i])
            },
            None => None,
        }
    }

    /// Initializes the registry with `authority` as its administrator.
    ///
    /// Refused with `AccountInUse` where the registry was initialized before:
    /// its counter and its prices then stay as they are.
    pub fn initialize(&mut self, authority: Pubkey) -> (result: Result<(), ErrorCode>)
        requires
            old(self).wf(),
        ensures
            final(self).wf(),
            match old(self)@.initialize(authority@) {
                Ok(next) => result is Ok && final(self)@ == next,
                Err(e) => result == Err::<(), ErrorCode>(e) && *final(self) == *old(self),
            },
    {
        if self.config.is_some() {
            return Err(ErrorCode::AccountInUse);
        }
        let mut ctx = Initialize { config: SolDriveConfig::default(), authority };
        match crate::instructions::initialize(&mut ctx) {
            Ok(()) => {
                self.config = Some(ctx.config);
                Ok(())
            },
            Err(e) => Err(e),
        }
    }

    /// Creates the profile of `user`.
    ///
    /// Refused with `AccountInUse` where `user` has a profile.
    pub fn create_user_profile(&mut self, user: Pubkey) -> (result: Result<(), ErrorCode>)
        requires
            old(self).wf(),
        ensures
            final(self).wf(),
            match old(self)@.create_user_profile(user@) {
                Ok(next) => result is Ok && final(self)@ == next,
                Err(e) => result == Err::<(), ErrorCode>(e) && *final(self) == *old(self),
            },
    {
        if self.find_profile(&user).is_some() {
            return Err(ErrorCode::AccountInUse);
        }
        let mut ctx = CreateUserProfile { user_profile: UserProfile::default(), user };
        match crate::instructions::create_user_profile(&mut ctx) {
            Ok(()) => {
                proof {
                    lemma_table_push(
                        self.profile_keys(),
                        self.profile_views(),
                        user@,
                        ctx.user_profile@,
                    );
                }
                let ghost before = *self;
                self.profiles.push(ctx.user_profile);
                proof {
                    assert(self.profile_keys() =~= before.profile_keys().push(user@));
                    assert(self.profile_views() =~= before.profile_views().push(
                        ctx.user_profile@,
                    ));
                    assert(self.file_keys() =~= before.file_keys());
                    assert(self.file_views() =~= before.file_views());
                    assert(self.grant_keys() =~= before.grant_keys());
                    assert(self.grant_views() =~= before.grant_views());
                }
                Ok(())
            },
            Err(e) => Err(e),
        }
    }

    /// Creates the file that `owner` names `file_name`.
    ///
    /// Refused with `AccountInUse` where `owner` has a file of that name,
    /// with `AccountNotFound` where the registry or the profile of `owner`
    /// is missing, and else for what [`create_file_error`] finds. On success
    /// the new record is in `Uploading`, with an empty location and a zero
    /// integrity root, and the registry counts exactly one file more.
    pub fn create_file(
        &mut self,
        owner: Pubkey,
        file_name: String,
        file_size: u64,
        file_hash: [u8; 32],
        chunk_count: u32,
        timestamp: i64,
    ) -> (result: Result<(), ErrorCode>)
        requires
            old(self).wf(),
        ensures
            final(self).wf(),
            match old(self)@.create_file(
                owner@,
                file_name@,
                file_size as nat,
                file_hash@,
                chunk_count as nat,
                timestamp as int,
            ) {
                Ok(next) => result is Ok && final(self)@ == next,
                Err(e) => result == Err::<(), ErrorCode>(e) && *final(self) == *old(self),
            },
    {
        let address = FileAddress::new(owner, file_name.clone());
        if self.find_file(&address).is_some() {
            return Err(ErrorCode::AccountInUse);
        }
        let config = match self.config {
            Some(config) => config,
            None => {
                return Err(ErrorCode::AccountNotFound);
            },
        };
        let p: usize = match self.find_profile(&owner) {
            Some(p) => p,
            None => {
                return Err(ErrorCode::AccountNotFound);
            },
        };
        proof {
            lemma_table_at(self.profile_keys(), self.profile_views(), p as int);
        }
        let mut ctx = CreateFile {
            file_record: FileRecord::default(),
            config,
            user_profile: self.profiles[p],
            owner,
        };
        match crate::instructions::create_file(
            &mut ctx,
            file_name,
            file_size,
            file_hash,
            chunk_count,
            timestamp,
        ) {
            Ok(()) => {
                let ghost before = *self;
                proof {
                    lemma_table_update(
                        before.profile_keys(),
                        before.profile_views(),
                        p as int,
                        ctx.user_profile@,
                    );
                    lemma_table_push(
                        before.file_keys(),
                        before.file_views(),
                        address@,
                        ctx.file_record@,
                    );
                }
                self.config = Some(ctx.config);
                self.profiles.set(p, ctx.user_profile);
                self.files.push(ctx.file_record);
                proof {
                    assert(self.profile_keys() =~= before.profile_keys());
                    assert(self.profile_views() =~= before.profile_views().update(
                        p as int,
                        ctx.user_profile@,
                    ));
                    assert(self.file_keys() =~= before.file_keys().push(address@));
                    assert(self.file_views() =~= before.file_views().push(ctx.file_record@));
                    assert(self.grant_keys() =~= before.grant_keys());
                    assert(self.grant_views() =~= before.grant_views());
                }
                Ok(())
            },
            Err(e) => Err(e),
        }
    }

    /// Replaces the file record at position `i` by one at the same address.
    fn put_file(&mut self, i: usize, record: FileRecord)
        requires
            old(self).wf(),
            i < old(self).files.len(),
            record@.address() == old(self).file_keys()[i as int],
            record@.valid(),
        ensures
            final(self).wf(),
            final(self)@ == (LedgerView {
                files: old(self)@.files.insert(record@.address(), record@),
                ..old(self)@
            }),
    {
        let ghost before = *self;
        proof {
            lemma_table_update(before.file_keys(), before.file_views(), i as int, record@);
        }
        self.files.set(i, record);
        proof {
            assert(self.profile_keys() =~= before.profile_keys());
            assert(self.profile_views() =~= before.profile_views());
            assert(self.file_keys() =~= before.file_keys());
            assert(self.file_views() =~= before.file_views().update(i as int, record@));
            assert(self.grant_keys() =~= before.grant_keys());
            assert(self.grant_views() =~= before.grant_views());
        }
    }

    /// Registers where the file at `file_record` is stored, as `owner`, at
    /// the time `now`.
    ///
    /// Refused with `AccountNotFound` where the address holds no file, and
    /// else for what [`register_storage_error`] finds.
    pub fn register_storage(
        &mut self,
        file_record: &FileAddress,
        owner: Pubkey,
        primary_storage: String,
        merkle_root: [u8; 32],
        now: i64,
    ) -> (result: Result<(), ErrorCode>)
        requires
            old(self).wf(),
        ensures
            final(self).wf(),
            match old(self)@.register_storage(
                file_record@,
                owner@,
                primary_storage@,
                merkle_root@,
                now as int,
            ) {
                Ok(next) => result is Ok && final(self)@ == next,
                Err(e) => result == Err::<(), ErrorCode>(e) && *final(self) == *old(self),
            },
    {
        let i: usize = match self.find_file(file_record) {
            Some(i) => i,
            None => {
                return Err(ErrorCode::AccountNotFound);
            },
        };
        proof {
            lemma_table_at(self.file_keys(), self.file_views(), i as int);
        }
        let mut ctx = RegisterStorage { file_record: self.files[i].clone(), owner };
        match crate::instructions::register_storage_at(&mut ctx, primary_storage, merkle_root, now) {
            Ok(()) => {
                self.put_file(i, ctx.file_record);
                Ok(())
            },
            Err(e) => Err(e),
        }
    }

    /// Finalizes the file at `file_record`, as `owner`, at the time `now`.
    ///
    /// Refused with `AccountNotFound` where the address holds no file, and
    /// else for what [`finalize_file_error`] finds.
    pub fn finalize_file(&mut self, file_record: &FileAddress, owner: Pubkey, now: i64) -> (result:
        Result<(), ErrorCode>)
        requires
            old(self).wf(),
        ensures
            final(self).wf(),
            match old(self)@.finalize_file(file_record@, owner@, now as int) {
                Ok(next) => result is Ok && final(self)@ == next,
                Err(e) => result == Err::<(), ErrorCode>(e) && *final(self) == *old(self),
            },
    {
        let i: usize = match self.find_file(file_record) {
            Some(i) => i,
            None => {
                return Err(ErrorCode::AccountNotFound);
            },
        };
        proof {
            lemma_table_at(self.file_keys(), self.file_views(), i as int);
        }
        let mut ctx = FinalizeFile { file_record: self.files[i].clone(), owner };
        match crate::instructions::finalize_file_at(&mut ctx, now) {
            Ok(()) => {
                self.put_file(i, ctx.file_record);
                Ok(())
            },
            Err(e) => Err(e),
        }
    }

    /// Grants `shared_with` access to the file at `file_record`, as `owner`,
    /// at the time `now`.
    ///
    /// Refused with `AccountInUse` where `shared_with` has a grant for that
    /// file, revoked or not, with `AccountNotFound` where the address holds
    /// no file, and else for what [`grant_access_error`] finds.
    pub fn grant_access(
        &mut self,
        file_record: &FileAddress,
        owner: Pubkey,
        shared_with: Pubkey,
        access_level: AccessLevel,
        expires_at: Option<i64>,
        now: i64,
    ) -> (result: Result<(), ErrorCode>)
        requires
            old(self).wf(),
        ensures
            final(self).wf(),
            match old(self)@.grant_access(
                file_record@,
                owner@,
                shared_with@,
                access_level,
                time_view(expires_at),
                now as int,
            ) {
                Ok(next) => result is Ok && final(self)@ == next,
                Err(e) => result == Err::<(), ErrorCode>(e) && *final(self) == *old(self),
            },
    {
        let address = GrantAddress::new(file_record.clone(), shared_with);
        if self.find_grant(&address).is_some() {
            return Err(ErrorCode::AccountInUse);
        }
        let i: usize = match self.find_file(file_record) {
            Some(i) => i,
            None => {
                return Err(ErrorCode::AccountNotFound);
            },
        };
        proof {
            lemma_table_at(self.file_keys(), self.file_views(), i as int);
        }
        let mut ctx = GrantAccess {
            shared_access: SharedAccess::default(),
            file_record: self.files[i].clone(),
            owner,
        };
        match crate::instructions::grant_access_at(
            &mut ctx,
            shared_with,
            access_level,
            expires_at,
            now,
        ) {
            Ok(()) => {
                let ghost before = *self;
                proof {
                    lemma_table_push(
                        before.grant_keys(),
                        before.grant_views(),
                        address@,
                        ctx.shared_access@,
                    );
                }
                self.grants.push(ctx.shared_access);
                proof {
                    assert(self.profile_keys() =~= before.profile_keys());
                    assert(self.profile_views() =~= before.profile_views());
                    assert(self.file_keys() =~= before.file_keys());
                    assert(self.file_views() =~= before.file_views());
                    assert(self.grant_keys() =~= before.grant_keys().push(address@));
                    assert(self.grant_views() =~= before.grant_views().push(ctx.shared_access@));
                }
                Ok(())
            },
            Err(e) => Err(e),
        }
    }

    /// Revokes the grant at `shared_access`, which `owner` says governs the
    /// file at `file_record`.
    ///
    /// Refused with `AccountNotFound` where either address holds no record,
    /// and else for what [`revoke_access_error`] finds. The grant stays at
    /// its address, inactive.
    pub fn revoke_access(
        &mut self,
        shared_access: &GrantAddress,
        file_record: &FileAddress,
        owner: Pubkey,
    ) -> (result: Result<(), ErrorCode>)
        requires
            old(self).wf(),
        ensures
            final(self).wf(),
            match old(self)@.revoke_access(shared_access@, file_record@, owner@) {
                Ok(next) => result is Ok && final(self)@ == next,
                Err(e) => result == Err::<(), ErrorCode>(e) && *final(self) == *old(self),
            },
    {
        let g: usize = match self.find_grant(shared_access) {
            Some(g) => g,
            None => {
                return Err(ErrorCode::AccountNotFound);
            },
        };
        let f: usize = match self.find_file(file_record) {
            Some(f) => f,
            None => {
                return Err(ErrorCode::AccountNotFound);
            },
        };
        proof {
            lemma_table_at(self.grant_keys(), self.grant_views(), g as int);
            lemma_table_at(self.file_keys(), self.file_views(), f as int);
        }
        let mut ctx = RevokeAccess {
            shared_access: self.grants[g].clone(),
            file_record: self.files[f].clone(),
            owner,
        };
        match crate::instructions::revoke_access(&mut ctx) {
            Ok(()) => {
                let ghost before = *self;
                proof {
                    lemma_table_update(
                        before.grant_keys(),
                        before.grant_views(),
                        g as int,
                        ctx.shared_access@,
                    );
                }
                self.grants.set(g, ctx.shared_access);
                proof {
                    assert(self.profile_keys() =~= before.profile_keys());
                    assert(self.profile_views() =~= before.profile_views());
                    assert(self.file_keys() =~= before.file_keys());
                    assert(self.file_views() =~= before.file_views());
                    assert(self.grant_keys() =~= before.grant_keys());
                    assert(self.grant_views() =~= before.grant_views().update(
                        g as int,
                        ctx.shared_access@,
                    ));
                }
                Ok(())
            },
            Err(e) => Err(e),
        }
    }
}

} // verus!
