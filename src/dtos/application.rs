//! The body that creates an application.
use vstd::prelude::*;
use crate::dtos::{check_length, long_enough, DtoError};

verus! {

/// A new application: its name has at least five characters.
#[derive(Debug)]
pub struct CreateDto {
    pub name: String,
}

impl CreateDto {
    /// The body for `name`, or an input error where the name is too short.
    pub fn new(name: String) -> (r: Result<Self, DtoError>)
        ensures
            long_enough(name@) <==> r is Ok,
            r matches Ok(dto) ==> dto.name == name,
    {
        if !check_length(&name) {
            return Err(DtoError::Input("name: must have at least 5 characters".to_string()));
        }
        Ok(CreateDto { name })
    }
}

} // verus!
