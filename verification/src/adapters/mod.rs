//! Adapters — concrete clocks, the local git scanner, the GitHub and cache
//! anti-corruption mappings, and where files are kept.

pub mod clock;
pub mod dirs;
pub mod file_cache;
pub mod github;
pub mod local_git;

pub use clock::{FixedClock, SystemClock};
pub use file_cache::{FileCacheStore, FileProjectStore};
pub use local_git::LocalGitScanner;
