//! Checked request bodies for creating applications, surveys and questions.
use vstd::prelude::*;

pub mod application;
pub mod question;
pub mod survey;

verus! {

/// The least number of characters in a name or a question text.
pub const MIN_TEXT_LEN: usize = 5;

/// A request body that breaks a rule of its type; the text says which.
#[derive(Debug, PartialEq, Eq)]
pub enum DtoError {
    Input(String),
}

/// `s` is long enough to name something.
pub open spec fn long_enough(s: Seq<char>) -> bool {
    s.len() >= MIN_TEXT_LEN
}

/// Whether `s` has at least `MIN_TEXT_LEN` characters.
pub fn check_length(s: &String) -> (r: bool)
    ensures
        r == long_enough(s@),
{
    s.as_str().unicode_len() >= MIN_TEXT_LEN
}

} // verus!
