//! Command-line surface — the parsed arguments, independent of the parser
//! that fills them.

use vstd::prelude::*;

verus! {

/// Interactive dashboard for GitHub Actions status across your projects.
#[derive(Debug)]
pub struct Cli {
    /// Path to the config file (defaults to the platform config dir).
    pub config: Option<String>,
    /// The chosen subcommand, if any.
    pub command: Option<CommandKind>,
}

/// The subcommands.
#[derive(Debug)]
pub enum CommandKind {
    /// Launch the interactive TUI (default when no subcommand is given).
    Tui,
    /// Print a one-line status per project and exit.
    List,
    /// Refresh all projects; exit non-zero if any latest run is failing.
    Check,
    /// Add one or more repositories (owner/repo[@branch], or a GitHub URL).
    Add { repos: Vec<String> },
    /// Remove one or more repositories (owner/repo).
    Remove { repos: Vec<String> },
    /// Bulk-import repositories from git clones or a GitHub account.
    Import(ImportArgs),
    /// Write a starter config file.
    Init { force: bool },
    /// Diagnose setup: token, GitHub CLI, config, and connectivity.
    Doctor,
    /// Print the resolved config file path.
    Where,
}

/// Source selection for `ghs import`; with no source chosen, the current
/// directory is scanned for git clones.
#[derive(Debug)]
pub struct ImportArgs {
    /// Scan a local directory for cloned GitHub repos.
    pub local: Option<String>,
    /// How many directory levels to descend when scanning locally.
    pub depth: usize,
    /// Import repositories owned by the authenticated user (needs a token).
    pub me: bool,
    /// Import a specific user's public repositories.
    pub user: Option<String>,
    /// Import an organization's repositories.
    pub org: Option<String>,
    /// Preview what would be imported without writing the config.
    pub dry_run: bool,
}

/// The command run when none is given.
pub const DEFAULT_COMMAND: CommandKind = CommandKind::Tui;

impl Cli {
    /// The effective command, defaulting to the TUI.
    pub fn command(&self) -> (r: &CommandKind)
        ensures
            match self.command {
                Some(c) => *r == c,
                None => *r is Tui,
            },
    {
        match &self.command {
            Some(c) => c,
            None => &DEFAULT_COMMAND,
        }
    }
}

} // verus!
