//! Change monitoring for the packages a publisher owns on a registry.
//!
//! A run compares the snapshot of packages the registry reports now with the
//! snapshot kept from the previous run and classifies every package that is
//! currently published: is it new, did its downloads move a lot, did the list
//! of packages depending on it change.

pub mod analysis;
pub mod decimal;
pub mod files;
pub mod laws;
pub mod registry;
pub mod snapshot;
pub mod version;

pub use analysis::{perform_analysis, should_notify, CrateChanges, ReportCrate};
pub use registry::{
    get_crates, Crate, CratesResponse, Links, Meta, ReverseDepsResponse, OWNER,
};
pub use snapshot::{is_valid_snapshot, CrateInfo, ReverseDep, Timestamp};
pub use version::{Identifier, Version};
