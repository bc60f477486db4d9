//! The body that adds a question to a survey.
use vstd::prelude::*;
use crate::dtos::{check_length, long_enough, DtoError};
use crate::survey::QuestionType;

verus! {

/// A new question: its text has at least five characters.
#[derive(Debug)]
pub struct CreateDto {
    pub text: String,
    pub q_type: QuestionType,
    pub order: u8,
    pub required: bool,
}

impl CreateDto {
    /// The body for the given question, or an input error where its text
    /// is too short.
    pub fn new(text: String, q_type: QuestionType, order: u8, required: bool) -> (r: Result<Self, DtoError>)
        ensures
            long_enough(text@) <==> r is Ok,
            r matches Ok(dto) ==> dto.text == text && dto.q_type == q_type && dto.order == order
                && dto.required == required,
    {
        if !check_length(&text) {
            return Err(DtoError::Input("text: must have at least 5 characters".to_string()));
        }
        Ok(CreateDto { text, q_type, order, required })
    }
}

} // verus!
