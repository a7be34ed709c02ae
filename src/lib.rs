//! Core decisions of a run that transforms every regular file below a
//! directory under one symmetric key: the direction of the transform, the
//! validation of the key, the reading of the invocation, the run identifier
//! and a work-stack planner for the depth-first walk.

mod action;
mod invocation;
mod key;
mod run_id;
mod walk;

pub use action::{inverse_of, label_of, Action};
pub use invocation::{chosen_key, configure, ConfigError, RunConfig};
pub use key::{byte_len, provision_key, Key, KeyError, KEY_LEN};
pub use run_id::{is_random_uuid, RunId};
pub use walk::{dir_paths, file_paths, texts, Entry, EntryKind, Walker};
