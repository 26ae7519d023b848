//! Administrative reconciliation for a fleet of versioned token distributors.
//!
//! An operator pushes one change (a new admin, a new clawback receiver, a new clawback
//! start time) to every distributor named by the tree files of a directory or by a range
//! of versions. For each distributor the record on chain is read and compared: where it
//! already holds the value nothing is done; otherwise the instructions are built and
//! either submitted as a signed transaction, and tried again until they go through, or
//! printed once as an unsigned message for the admin to sign elsewhere.
//!
//! This crate holds the decisions. It touches neither disk nor network: a [`run::Run`]
//! names what is to be done next and is told what came of it.
pub mod key;
pub mod error;
pub mod operation;
pub mod instruction;
pub mod address;
pub mod message;
pub mod path_order;
pub mod version_source;
pub mod run;
pub mod laws;
pub mod report;

pub use run::{process_set_admin, process_set_clawback_receiver, process_set_clawback_start_ts};
