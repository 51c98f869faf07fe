//! A small verified core for a clone-and-open helper: given a repository
//! locator, derive the directory to clone into, convert between the SSH and
//! HTTPS locator forms for a retry, and decide, step by step, when to clone
//! and when to launch the editor.
//!
//! Locators and names are handled as byte strings (`Vec<u8>`), so every rule
//! about them is stated over `Seq<u8>` and proved. The processes themselves
//! (the version-control client, the editor) run outside this crate: the
//! [`flow`] module only decides which of them to run next.

pub mod flow;
pub mod urls;
