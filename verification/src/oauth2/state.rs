//! The token that ties a callback to the run that asked for it.

use vstd::prelude::*;
use crate::bindings::{is_alphanumeric, random_alphanumeric};

verus! {

/// The number of characters in a token that the library draws itself.
pub const STATE_LENGTH: usize = 64;

/// An opaque text, made once per run and compared exactly with the `state`
/// that a callback brings.
#[derive(Clone, Debug)]
pub struct StateToken {
    value: String,
}

impl View for StateToken {
    type V = Seq<char>;

    closed spec fn view(&self) -> Seq<char> {
        self.value@
    }
}

/// A text that could have been drawn: `STATE_LENGTH` characters, each one of
/// `A`-`Z`, `a`-`z`, `0`-`9`.
pub open spec fn is_drawn_token(text: Seq<char>) -> bool {
    &&& text.len() == STATE_LENGTH
    &&& forall|i: int| 0 <= i < text.len() ==> is_alphanumeric(#[trigger] text[i])
}

impl StateToken {
    /// The token that the operator supplied, taken as it is: neither its
    /// length nor its characters are looked at.
    pub fn supplied(value: String) -> (token: StateToken)
        ensures
            token@ == value@,
    {
        StateToken { value }
    }

    /// A fresh token of `STATE_LENGTH` random alphanumeric characters.
    pub fn random() -> (token: StateToken)
        ensures
            is_drawn_token(token@),
    {
        StateToken { value: random_alphanumeric(STATE_LENGTH) }
    }

    /// The token of a run: the supplied one where there is one, else a fresh
    /// random one.
    pub fn obtain(supplied: &Option<String>) -> (token: StateToken)
        ensures
            match supplied {
                Some(value) => token@ == value@,
                None => is_drawn_token(token@),
            },
    {
        match supplied {
            Some(value) => StateToken::supplied(value.clone()),
            None => StateToken::random(),
        }
    }

    /// The token's text.
    pub fn as_str(&self) -> (text: &str)
        ensures
            text@ == self@,
    {
        self.value.as_str()
    }

    /// Whether a candidate is this token, character for character.
    pub fn matches(&self, candidate: &String) -> (same: bool)
        ensures
            same == (candidate@ == self@),
    {
        self.value == *candidate
    }
}

} // verus!
