//! The body that creates a survey.
use vstd::prelude::*;
use crate::dtos::{check_length, long_enough, DtoError};

verus! {

/// A new survey of application `app_id`: its name has at least five
/// characters.
#[derive(Debug)]
pub struct CreateDto {
    pub app_id: i32,
    pub name: String,
}

impl CreateDto {
    /// The body for `app_id` and `name`, or an input error where the name is
    /// too short.
    pub fn new(app_id: i32, name: String) -> (r: Result<Self, DtoError>)
        ensures
            long_enough(name@) <==> r is Ok,
            r matches Ok(dto) ==> dto.app_id == app_id && dto.name == name,
    {
        if !check_length(&name) {
            return Err(DtoError::Input("name: must have at least 5 characters".to_string()));
        }
        Ok(CreateDto { app_id, name })
    }
}

} // verus!
