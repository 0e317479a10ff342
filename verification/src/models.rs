//! Model list API: `GET /models`.
use vstd::prelude::*;

verus! {

/// Route of the model list endpoint.
pub const MODELS_ROUTE: &'static str = "/models";

/// Model list response.
#[derive(Debug, Clone, PartialEq, Eq)]
pub struct Models {
    /// Always `list`.
    pub object: String,
    pub data: Vec<ModelInfo>,
}

/// Model info entry.
#[derive(Debug, Clone, PartialEq, Eq)]
pub struct ModelInfo {
    /// The model identifier, which can be referenced in the API endpoints.
    pub id: String,
    /// The object type, which is always "model".
    pub object: String,
    /// The organization that owns the model.
    pub owned_by: String,
}

} // verus!
