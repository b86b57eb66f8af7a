//! What the gateway decides about talking to the model backend: where to send
//! a completion request, and which replies count as failures.
use vstd::prelude::*;

use crate::error::{GatewayError, code_of, status_of};

verus! {

/// The path of the chat-completions endpoint, below the backend's base URL.
pub open spec fn completions_path() -> Seq<char> {
    "/chat/completions"@
}

/// The URL a completion request is posted to: the backend's base URL
/// followed by `/chat/completions`.
pub fn completions_url(base: &str) -> (r: String)
    ensures
        r@ == base@ + completions_path(),
        r@ == base@ + "/chat/completions"@,
{
    let mut url = String::from_str(base);
    url.append("/chat/completions");
    url
}

/// Whether a reply status is a success (200..=299), as
/// `StatusCode::is_success` of the http crate decides it.
pub open spec fn is_success_spec(status: u16) -> bool {
    200 <= status < 300
}

/// Whether the backend's reply status counts as success. Any other reply is
/// turned into `GatewayError::BackendStatus`.
pub fn is_success(status: u16) -> (r: bool)
    ensures
        r == is_success_spec(status),
        r <==> 200 <= status <= 299,
{
    200 <= status && status < 300
}

/// Exactly the statuses 200..=299 count as success: every status below 200
/// or from 300 up is a failure.
pub proof fn lemma_only_2xx_succeeds(status: u16)
    ensures
        is_success_spec(status) <==> 200 <= status <= 299,
        status >= 300 ==> !is_success_spec(status),
        status < 200 ==> !is_success_spec(status),
{
}

/// Replies are posted to the base URL followed by `/chat/completions`.
pub proof fn lemma_completions_path()
    ensures
        completions_path() == "/chat/completions"@,
{
}

/// A backend reply outside 200..=299 reaches the client as 502 Bad Gateway
/// with the code `backend_error`, and an unreachable backend as 502 with
/// `backend_unreachable`: backend failures are never blamed on the client.
pub proof fn lemma_backend_failures_are_502(status: u16, body: String, cause: String)
    ensures
        !is_success_spec(status) ==> status_of(GatewayError::BackendStatus { status, body }) == 502
            && code_of(GatewayError::BackendStatus { status, body }) == "backend_error"@,
        status_of(GatewayError::BackendUnreachable(cause)) == 502,
        code_of(GatewayError::BackendUnreachable(cause)) == "backend_unreachable"@,
{
}

} // verus!
