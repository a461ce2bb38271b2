//! Remote-execution client core: given a resolved request (server address,
//! username, credential, command, environment entries, sync-skip flag) this
//! library plans every decision of one run — authentication, workspace
//! provisioning, ignore-aware synchronization, environment injection with a
//! shell-level fallback, and the non-blocking drain of the two remote output
//! streams — while the thin binary around it performs the network and
//! filesystem calls.

pub mod command;
pub mod parse;
pub mod ssh;
pub mod stream;
pub mod sync;
pub mod workspace;
