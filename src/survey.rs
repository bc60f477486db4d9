//! The kinds of question a survey can ask.
use vstd::prelude::*;

verus! {

/// How a survey question is answered.
#[derive(Debug, Clone, PartialEq)]
pub enum QuestionType {
    Open,
    YesNo,
    Range { limit: u8, labels: Vec<String> },
    Option { options: Vec<String> },
    Multiple { options: Vec<String> },
}

} // verus!
