//! Parameters and errors of the service layer.
use vstd::prelude::*;
use std::collections::HashMap;
use crate::error::{api_error_text, ApiError};
use crate::strings::{append_str, decimal, push_decimal};

verus! {

/// Errors of the service layer.
#[derive(Debug)]
pub enum ServiceError {
    Api(ApiError),
    Validation { field: String, message: String },
    NotFound { resource_type: String, id: u32 },
    Config(String),
}

/// The message of a service error.
pub open spec fn service_layer_error_text(e: ServiceError) -> Seq<char> {
    match e {
        ServiceError::Api(a) => "API error: "@ + api_error_text(a),
        ServiceError::Validation { field, message } => "Validation error: "@ + field@ + ": "@
            + message@,
        ServiceError::NotFound { resource_type, id } => "Not found: "@ + resource_type@
            + " with ID "@ + decimal(id as nat),
        ServiceError::Config(m) => "Configuration error: "@ + m@,
    }
}

impl ServiceError {
    /// The message of this error.
    pub fn to_display_string(&self) -> (r: String)
        ensures
            r@ == service_layer_error_text(*self),
    {
        let mut r = String::new();
        match self {
            ServiceError::Api(a) => {
                append_str(&mut r, "API error: ");
                let t = a.to_display_string();
                append_str(&mut r, t.as_str());
            },
            ServiceError::Validation { field, message } => {
                append_str(&mut r, "Validation error: ");
                append_str(&mut r, field.as_str());
                append_str(&mut r, ": ");
                append_str(&mut r, message.as_str());
            },
            ServiceError::NotFound { resource_type, id } => {
                append_str(&mut r, "Not found: ");
                append_str(&mut r, resource_type.as_str());
                append_str(&mut r, " with ID ");
                push_decimal(&mut r, *id as u64);
            },
            ServiceError::Config(m) => {
                append_str(&mut r, "Configuration error: ");
                append_str(&mut r, m.as_str());
            },
        }
        r
    }
}

impl From<ApiError> for ServiceError {
    fn from(e: ApiError) -> (r: Self) {
        ServiceError::Api(e)
    }
}

impl vstd::std_specs::convert::FromSpecImpl<ApiError> for ServiceError {
    open spec fn obeys_from_spec() -> bool {
        true
    }

    open spec fn from_spec(e: ApiError) -> Self {
        ServiceError::Api(e)
    }
}

/// Parameters of listing questions.
#[derive(Debug, Clone)]
pub struct ListParams {
    pub search: Option<String>,
    pub limit: Option<u32>,
    pub collection: Option<String>,
    pub offset: Option<u32>,
}

/// Parameters of running a question.
#[derive(Debug, Clone)]
pub struct ExecuteParams {
    /// Question parameters by name.
    pub parameters: HashMap<String, String>,
    pub format: String,
    pub limit: Option<u32>,
    pub offset: Option<usize>,
    pub page_size: usize,
}

} // verus!
