//! Chat completion request/response models for the `/chat/completions` API.
pub mod request;
pub mod response;

use vstd::prelude::*;

verus! {

/// Route of the chat completion endpoint.
pub const CHAT_COMPLETIONS_ROUTE: &'static str = "/chat/completions";

/// Whether an optional list is absent or empty; such a list is left out of a request body.
pub fn is_none_or_empty_vec<T>(opt: &Option<Vec<T>>) -> (res: bool)
    ensures
        res == match opt {
            None => true,
            Some(v) => v@.len() == 0,
        },
{
    match opt {
        None => true,
        Some(v) => v.len() == 0,
    }
}

} // verus!
