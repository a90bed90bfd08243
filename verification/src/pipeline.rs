//! One source's capture pipeline, per attempt: classify what the transport
//! returned, and on success compose the storage write whose key is the
//! content digest. The fetch itself and the write itself are the host's;
//! everything decided between them is here.

use vstd::prelude::*;
use crate::digest::digest_spec;
use crate::fetch::Exchange;
use crate::fetch::FetchError;
use crate::fetch::classify_exchange;
use crate::fetch::is_success_status;
use crate::keys::StoreRequest;
use crate::keys::object_key_spec;
use crate::keys::store_request_for;

verus! {

/// One capture attempt, after the transport answered: a 2xx response's body
/// becomes the storage write (content-addressed key, long-lived public
/// cache metadata); any other outcome is the typed failure the retry
/// machine sees.
pub fn capture_attempt(source_id: &str, exchange: Exchange) -> (r: Result<
    StoreRequest,
    FetchError,
>)
    ensures
        exchange matches Exchange::Response(code, body) ==> {
            &&& is_success_status(code) ==> {
                &&& r matches Ok(req)
                &&& req.key@ == object_key_spec(source_id@, digest_spec(body@))
                &&& req.cache_control@ == "max-age=604800, public"@
                &&& req.body == body
            }
            &&& !is_success_status(code) ==> (r matches Err(e) && e == FetchError::BadStatus(code))
        },
        exchange is Failed ==> (r matches Err(e) && e == FetchError::Transport),
{
    match classify_exchange(exchange) {
        Ok(body) => Ok(store_request_for(source_id, body)),
        Err(e) => Err(e),
    }
}

} // verus!
