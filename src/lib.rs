//! Trunk stores: repository-wide documents kept beside a Git repository's
//! history rather than in it.
//!
//! A store `<name>` lives in three places: a mirror directory
//! `<root>/.trunk/<name>` that is a repository of its own, the ref
//! `refs/trunk/<name>` in the main repository, and the same ref on a remote.
//! Each command (`init`, `commit`, `checkout`, `push`, `delete`, `stegano`,
//! `hooks`, `info`) is a state machine: it names the next action (a Git
//! command, a file-system step, a question) and its host hands back what
//! came of it, until the command finishes with an `Outcome`.
//!
//! The ignore-file editing (`ignore`) and the reading of Git's output
//! (`listing`) are plain functions on text.
pub mod checkout;
pub mod commit;
pub mod date;
pub mod delete;
pub mod hooks;
pub mod ignore;
pub mod info;
pub mod init;
pub mod listing;
pub mod protocol;
pub mod push;
pub mod stegano;
pub mod store;
pub mod text;
