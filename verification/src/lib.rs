//! github-status (`ghs`) — the verified core of a terminal dashboard for
//! GitHub Actions status across many repositories.

pub mod text;
pub mod domain;
pub mod ports;
pub mod adapters;
pub mod app;
pub mod config;
pub mod cli;
pub mod tui;
pub mod commands;
