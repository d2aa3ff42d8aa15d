use vstd::prelude::*;

verus! {

/// JSON-RPC error code for a request that the server refuses as invalid.
pub const INVALID_REQUEST_ERROR_CODE: i64 = -32600;

/// JSON-RPC error code for a failure inside the server.
pub const INTERNAL_ERROR_CODE: i64 = -32603;

/// The error object of a JSON-RPC response.
#[derive(Debug)]
pub struct JSONRPCErrorError {
    pub code: i64,
    pub message: String,
}

/// What an error object holds, as mathematical values.
pub ghost struct RpcErrorView {
    pub code: i64,
    pub message: Seq<char>,
}

impl View for JSONRPCErrorError {
    type V = RpcErrorView;

    open spec fn view(&self) -> RpcErrorView {
        RpcErrorView { code: self.code, message: self.message@ }
    }
}

/// The invalid-request error carrying `message`.
pub open spec fn invalid_request_view(message: Seq<char>) -> RpcErrorView {
    RpcErrorView { code: INVALID_REQUEST_ERROR_CODE, message }
}

/// The internal error carrying `message`.
pub open spec fn internal_error_view(message: Seq<char>) -> RpcErrorView {
    RpcErrorView { code: INTERNAL_ERROR_CODE, message }
}

/// An invalid-request error carrying `message`.
pub fn invalid_request(message: String) -> (e: JSONRPCErrorError)
    ensures
        e@ == invalid_request_view(message@),
{
    JSONRPCErrorError { code: INVALID_REQUEST_ERROR_CODE, message }
}

/// An internal error carrying `message`.
pub fn internal_error(message: String) -> (e: JSONRPCErrorError)
    ensures
        e@ == internal_error_view(message@),
{
    JSONRPCErrorError { code: INTERNAL_ERROR_CODE, message }
}

} // verus!
