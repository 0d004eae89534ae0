//! Update detection for a status-bar package monitor: version ordering,
//! update records, the two package sources, the refresh schedule and the
//! text that is shown for a set of pending updates.

pub mod cache;
pub mod color;
pub mod context;
pub mod format;
pub mod package;
pub mod repo;
pub mod scheduler;
pub mod text;
pub mod version;

pub use crate::format::highlight_semantic_version;
pub use crate::package::{Package, UpdateType};
pub use crate::repo::{AURepo, IsPackageRepo, OfficialRepo};
pub use crate::version::is_version_newer;
