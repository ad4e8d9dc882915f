//! A store of secrets that is encrypted at rest and kept in step with a git
//! remote.
//!
//! The heart of the crate is the synchronization in [`engine`]: local
//! changes are committed, the remote branch is fetched, the local commits
//! are replayed on it ([`rebase`]), and the result is pushed, with the
//! credentials that [`credentials`] picks. None of these modules touches a
//! repository: each is a state machine that says what is to be done and
//! takes in what came of it, and [`sync_laws`] holds what is proved of
//! every run. [`secrets`] edits the secrets file in clear, [`age_keys`]
//! finds the public key of a key pair, and [`layout`] names the files.

pub mod age_keys;
pub mod credentials;
pub mod engine;
pub mod errors;
pub mod identity;
pub mod layout;
pub mod rebase;
pub mod secrets;
pub mod status;
pub mod sync_laws;
pub mod text;
pub mod yaml;
