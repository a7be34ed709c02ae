use vstd::prelude::*;
use vstd::utf8::encode_utf8;

verus! {

/// The number of bytes that a key must have.
pub const KEY_LEN: usize = 32;

/// The number of bytes in the UTF-8 encoding of some text.
pub open spec fn byte_len(s: Seq<char>) -> nat {
    encode_utf8(s).len()
}

/// Why a candidate key was refused.
#[derive(Clone, Copy, Debug, PartialEq, Eq, Structural)]
pub enum KeyError {
    /// The candidate's UTF-8 encoding has `len` bytes instead of `KEY_LEN`.
    WrongLength { len: usize },
}

/// A key of exactly `KEY_LEN` bytes, the only one in use during a run.
pub struct Key {
    text: String,
}

impl View for Key {
    type V = Seq<char>;

    closed spec fn view(&self) -> Seq<char> {
        self.text@
    }
}

impl Key {
    #[verifier::type_invariant]
    spec fn inv(&self) -> bool {
        byte_len(self.text@) == KEY_LEN
    }

    /// Accepts `text` as a key when its encoding has exactly `KEY_LEN` bytes.
    pub fn new(text: String) -> (r: Result<Key, KeyError>)
        ensures
            r is Ok <==> byte_len(text@) == KEY_LEN,
            r matches Ok(k) ==> k@ == text@,
            r matches Err(KeyError::WrongLength { len }) ==> len == byte_len(text@),
    {
        let len = text.as_str().as_bytes().len();
        if len == KEY_LEN {
            Ok(Key { text })
        } else {
            Err(KeyError::WrongLength { len })
        }
    }

    /// The key's text.
    pub fn as_str(&self) -> (r: &str)
        ensures
            r@ == self@,
            byte_len(r@) == KEY_LEN,
    {
        proof {
            use_type_invariant(self);
        }
        self.text.as_str()
    }

    /// The key's bytes, `KEY_LEN` of them.
    pub fn as_bytes(&self) -> (r: &[u8])
        ensures
            r@ == encode_utf8(self@),
            r@.len() == KEY_LEN,
    {
        proof {
            use_type_invariant(self);
        }
        self.text.as_str().as_bytes()
    }
}

/// Picks the key of a run: the custom key verbatim when one is given, else
/// the default; either is accepted only at exactly `KEY_LEN` bytes.
pub fn provision_key(custom: Option<String>, default: String) -> (r: Result<Key, KeyError>)
    ensures
        ({
            let chosen = match custom {
                Some(c) => c@,
                None => default@,
            };
            &&& r is Ok <==> byte_len(chosen) == KEY_LEN
            &&& r matches Ok(k) ==> k@ == chosen
            &&& r matches Err(KeyError::WrongLength { len }) ==> len == byte_len(chosen)
        }),
{
    let chosen = match custom {
        Some(c) => c,
        None => default,
    };
    Key::new(chosen)
}

} // verus!
