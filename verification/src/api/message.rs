//! User messages: requests.

use vstd::prelude::*;

use crate::api::ApiParams;
use crate::wire::{param, ParamView, Params, WireValue};

verus! {

/// Parameters of `get_user_message`.
#[non_exhaustive]
#[derive(Clone, Debug, PartialEq)]
pub struct GetUserMessageRequest {
    /// The message to fetch.
    pub message_id: u32,
}

impl GetUserMessageRequest {
    /// A request with the given parameters.
    pub fn new(message_id: u32) -> (r: Self)
        ensures
            r == (Self { message_id }),
    {
        Self { message_id }
    }
}

impl ApiParams for GetUserMessageRequest {
    open spec fn spec_params(&self) -> Seq<ParamView> {
        param("ref"@, self.message_id.wire())
    }

    fn to_params(&self) -> (r: Params) {
        let mut p = Params::new();
        p.push("ref", &self.message_id);
        p
    }
}

} // verus!
