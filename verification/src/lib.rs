//! Metadata ledger and access-control layer for a decentralized file-storage
//! network.
//!
//! The crate keeps track of who owns which file, where its bytes are stored,
//! which integrity root covers it and who else may read it. File bytes never
//! pass through it.
//!
//! * [`pubkey`] holds the identity of a caller.
//! * [`state`] holds the four record types and their mathematical views.
//! * [`error`] holds the conditions for which an operation is refused.
//! * [`clock`] asks the host for the time.
//! * [`instructions`] holds the operations on the records an operation names.
//! * [`table`] reads a list of records as a map from address to record.
//! * [`ledger`] is the directory of records, addressed by owner, file name and
//!   grantee, on which every operation runs as one all-or-nothing step.
//! * [`laws`] states what holds across several operations.
//!
//! The caller of an operation is an identity that the host has authenticated:
//! the crate compares identities and verifies no signature.

pub mod clock;
pub mod error;
pub mod instructions;
pub mod laws;
pub mod ledger;
pub mod pubkey;
pub mod state;
pub mod table;

pub use error::ErrorCode;
pub use ledger::Ledger;
pub use pubkey::Pubkey;
pub use state::{
    AccessLevel, FileAddress, FileRecord, FileStatus, GrantAddress, SharedAccess, SolDriveConfig,
    UserProfile,
};
