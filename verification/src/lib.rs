//! Read access to the metadata registry of Cosmos blockchain networks: a
//! version-controlled tree of JSON documents, mirrored locally and scanned
//! for the record whose chain identifier equals a caller-supplied key.
//!
//! The crate has two halves. `sync` decides how a local mirror of the remote
//! tree is created or fast-forwarded: it is a state machine from the outcome
//! of one repository operation to the next operation, so that a driver which
//! performs the actual repository work can follow it step by step. `registry`
//! holds the lookup: given the candidate documents of a synchronized mirror,
//! it scans them in order and returns the first record whose `chain_id`
//! matches, a `Malformed` error on the first document that does not parse, or
//! `NotFound` when the scan is exhausted.

pub mod chain;
pub mod registry;
pub mod sync;
pub mod text;

pub use chain::ChainInfo;
pub use chain::ChainInfoView;
pub use registry::ChainRegistry;
pub use registry::LookupError;
pub use sync::RemoteSource;
pub use sync::SyncError;
