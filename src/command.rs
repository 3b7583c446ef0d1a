use vstd::prelude::*;

pub mod meta;
pub mod misc;
pub mod schema;

use crate::connection::http::{request_view, HttpRequest, RequestView};
use crate::error::Error;

verus! {

/// A remote operation whose result is a `T`: it names the request that carries
/// it out, and the caller sends that request and reads the reply.
pub trait Command<T> {
    /// The command can build its request.
    spec fn ready(&self) -> bool;

    /// `r` is the outcome of building the request that this command calls for.
    spec fn sends(&self, r: Result<RequestView, Error>) -> bool;

    fn request(&self) -> (r: Result<HttpRequest, Error>)
        requires
            self.ready(),
        ensures
            self.sends(request_view(r)),
            r matches Ok(req) ==> req.headers.wf(),
    ;
}

} // verus!
