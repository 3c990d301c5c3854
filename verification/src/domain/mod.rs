//! Domain layer — pure types and business rules (no I/O).

pub mod poll;
pub mod project;
pub mod project_status;
pub mod run;
pub mod status;

pub use poll::{PollIntervals, PollTier};
pub use project::{ParseProjectError, Project};
pub use project_status::{LoadState, ProjectStatus};
pub use run::WorkflowRun;
pub use status::RunState;
