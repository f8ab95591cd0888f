//! Lifecycle management for a single remote compute instance.
//!
//! The crate covers four concerns:
//! - credentials loaded from a delimited text file (`credential`);
//! - capability contracts any compute backend must satisfy, together with
//!   the status-polling reconciliation engine for start/stop operations
//!   (`vm`);
//! - resolving an instance handle from a provider's full listing
//!   (`instance`);
//! - helpers for the remote command channel (`ssh`).
//!
//! A scripted in-memory backend (`double`) implements the capability
//! contracts deterministically, so the reconciliation engine can be
//! exercised without a cloud provider.

pub mod credential;
pub mod double;
pub mod instance;
pub mod ssh;
pub mod vm;
