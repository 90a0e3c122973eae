//! A broker for sealed secrets.
//!
//! A sealed reference is a text that begins with `sealed.`; what follows
//! is a ciphertext that only a trusted service can turn into plaintext.
//! The broker finds such references in the environment of a container, in
//! the files of its staging directories and in its mounts, and resolves
//! them just before the container starts.
//!
//! This library holds the broker's decisions and nothing else. It opens
//! no socket and touches no file: where a decision needs the outside
//! world, the library says what is to be done, and is told what came of
//! it.

pub mod cdh;
pub mod env;
pub mod error;
pub mod file;
pub mod mount;
pub mod sealed;
pub mod text;
