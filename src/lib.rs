//! Decision logic for publishing a private history to a public mirror remote:
//! branch-name derivation, command-outcome interpretation, and the step
//! sequences of the worktree and squash publishers.

/// Character-level helpers: whitespace, trimming, substring search.
pub mod text;
/// Deriving a ref-safe branch name from a free-text message.
pub mod branch_name;
/// Reading ahead/behind counts from a revision-count listing.
pub mod counts;
/// Interpreting the exit codes and output of git commands.
pub mod command;
/// The guard that removes the temporary worktree.
pub mod cleanup;
/// The worktree publisher's steps.
pub mod worktree;
/// The squash publisher's steps, with the divergence resolver.
pub mod squash;
/// The git arguments of each step.
pub mod commands;
