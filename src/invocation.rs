use vstd::prelude::*;
use crate::action::Action;
use crate::key::{byte_len, provision_key, Key, KeyError, KEY_LEN};

verus! {

/// Why an invocation was refused before any file was touched.
#[derive(Clone, Copy, Debug, PartialEq, Eq, Structural)]
pub enum ConfigError {
    /// No target directory was given.
    MissingTarget,
    /// The key that would be used has the wrong length.
    InvalidKey(KeyError),
}

/// What a run needs before it touches the tree: where, which way, and under
/// which key.
pub struct RunConfig {
    pub target: String,
    pub action: Action,
    pub key: Key,
}

/// The key text that an invocation selects: its fourth argument when there
/// is one, else the default.
pub open spec fn chosen_key(args: Seq<String>, default_key: Seq<char>) -> Seq<char> {
    if args.len() > 3 {
        args[3]@
    } else {
        default_key
    }
}

/// Reads `<program> <mode-flag> <target-directory> [key]`. A missing target
/// and a key that is not exactly `KEY_LEN` bytes are refused; a run always
/// transforms in the `Encrypt` direction.
pub fn configure(args: &Vec<String>, default_key: String) -> (r: Result<RunConfig, ConfigError>)
    ensures
        args@.len() < 3 ==> r == Err::<RunConfig, ConfigError>(ConfigError::MissingTarget),
        args@.len() >= 3 ==> {
            let chosen = chosen_key(args@, default_key@);
            &&& r is Ok <==> byte_len(chosen) == KEY_LEN
            &&& r matches Ok(c) ==> {
                &&& c.target@ == args@[2]@
                &&& c.action == Action::Encrypt
                &&& c.key@ == chosen
            }
            &&& r matches Err(e) ==> e == ConfigError::InvalidKey(
                KeyError::WrongLength { len: byte_len(chosen) as usize },
            )
        },
{
    if args.len() < 3 {
        return Err(ConfigError::MissingTarget);
    }
    let custom = if args.len() > 3 {
        Some(args[3].clone())
    } else {
        None
    };
    match provision_key(custom, default_key) {
        Ok(key) => Ok(RunConfig { target: args[2].clone(), action: Action::Encrypt, key }),
        Err(e) => Err(ConfigError::InvalidKey(e)),
    }
}

} // verus!
