//! The envelope that every request answers with.
use vstd::prelude::*;

use crate::error::PanError;

verus! {

/// A request's answer: `status` 0 with data, or -1 with a message.
pub struct RpcResponse<T> {
    pub status: i8,
    pub data: Option<T>,
    pub error: String,
}

impl<T> RpcResponse<T> {
    /// Wraps `json` when there is no error; with an error, answers failed with its
    /// message and no data.
    pub fn new(json: T, error: &Option<PanError>) -> (r: Self)
        ensures
            error is None ==> r.status == 0 && r.data == Some(json) && r.error@ == Seq::<
                char,
            >::empty(),
            error matches Some(e) ==> r.status == -1 && r.data is None && r.error@
                == e.message_spec(),
    {
        match error {
            None => RpcResponse { status: 0, data: Some(json), error: String::new() },
            Some(e) => RpcResponse { status: -1, data: None, error: e.message() },
        }
    }

    /// A successful answer carrying `json`.
    pub fn ok(json: T) -> (r: Self)
        ensures
            r.status == 0,
            r.data == Some(json),
            r.error@ == Seq::<char>::empty(),
    {
        RpcResponse { status: 0, data: Some(json), error: String::new() }
    }

    /// A failed answer carrying the error's message and no data.
    pub fn err(error: PanError) -> (r: Self)
        ensures
            r.status == -1,
            r.data is None,
            r.error@ == error.message_spec(),
    {
        RpcResponse { status: -1, data: None, error: error.message() }
    }
}

} // verus!
