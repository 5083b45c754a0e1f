//! Thin volumes on a shared cluster volume.
//!
//! A client sees volumes that it can create, describe, expand and delete one
//! by one. Each of them is a directory with a quota inside one shared volume
//! of a storage cluster. This library decides what such a volume is called,
//! how large it is, how it is described and mounted, and which actions on the
//! store make, grow and remove it. It performs none of these actions: the
//! caller carries them out and hands back what the store answered.
//!
//! - `names`: display names, and the paths of a volume
//! - `identity`: the identities of volumes and nodes
//! - `capacity`: sizes and quotas
//! - `mount`: what a client mounts
//! - `volume`: the description of a volume
//! - `store`: the actions on the store and its answers
//! - `lifecycle`: the operations, action by action
//! - `topology`: this node and its peers
//! - `auth`: the credential of a request
//! - `laws`: what holds of every run of an operation
//! - `error`: the failures
//! - `text`: characters, strings and lists of strings

pub mod auth;
pub mod capacity;
pub mod error;
pub mod identity;
pub mod laws;
pub mod lifecycle;
pub mod mount;
pub mod names;
pub mod store;
pub mod text;
pub mod topology;
pub mod volume;
