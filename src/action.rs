use vstd::prelude::*;

verus! {

/// The direction in which a file's bytes are rewritten.
#[derive(Clone, Copy, Debug, PartialEq, Eq, Structural)]
pub enum Action {
    Encrypt,
    Decrypt,
}

/// The word that names an action in progress lines.
pub open spec fn label_of(a: Action) -> Seq<char> {
    match a {
        Action::Encrypt => "Encrypt"@,
        Action::Decrypt => "Decrypt"@,
    }
}

/// The action that undoes the given one.
pub open spec fn inverse_of(a: Action) -> Action {
    match a {
        Action::Encrypt => Action::Decrypt,
        Action::Decrypt => Action::Encrypt,
    }
}

impl Action {
    /// The word that names this action.
    pub fn label(&self) -> (r: &'static str)
        ensures
            r@ == label_of(*self),
    {
        match self {
            Action::Encrypt => "Encrypt",
            Action::Decrypt => "Decrypt",
        }
    }

    /// The action that undoes this one.
    pub fn inverse(&self) -> (r: Action)
        ensures
            r == inverse_of(*self),
            r != *self,
    {
        match self {
            Action::Encrypt => Action::Decrypt,
            Action::Decrypt => Action::Encrypt,
        }
    }
}

/// Undoing an action twice gives the action back.
pub proof fn lemma_inverse_involutive(a: Action)
    ensures
        inverse_of(inverse_of(a)) == a,
{
}

} // verus!
