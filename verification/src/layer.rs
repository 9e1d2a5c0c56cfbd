//! The layer service: answers content-addressed "does this layer exist"
//! queries. The service validates the request and computes the canonical
//! path; the filesystem probe at that path is the caller's, and its outcome
//! is handed back in to build the reply.

use vstd::prelude::*;

use crate::addressing::Algorithm;
use crate::addressing::Layer;
use crate::addressing::canonical_path_of;
use crate::addressing::construct_absolute_path;

verus! {

/// A malformed call, surfaced to the calling peer as an RPC-level failure
/// carrying a message; the connection stays usable for further calls.
#[derive(Debug)]
pub struct RequestError {
    pub message: String,
}

/// The fields of a layer-existence request as they arrive on the wire:
/// the digest field may be absent.
pub struct LayerRequest {
    pub algorithm: Algorithm,
    pub digest: Option<String>,
    pub name: String,
    pub repo: String,
}

/// The reply to one layer-existence query.
pub struct LayerResult {
    pub exists: bool,
    pub length: u64,
}

/// The `length` field of every reply is this fixed placeholder, not the
/// file's real size.
pub const PLACEHOLDER_LENGTH: u64 = 1337;

/// Backend functions for layer-based operations. Stateless: no result is
/// cached across calls.
pub struct LayerImpl;

impl LayerImpl {
    /// Validate a request and compute the canonical path to probe.
    /// A request with a digest always succeeds, and the path is built from
    /// the algorithm and digest alone; one missing its digest fails with a
    /// `RequestError`, never with a default reply.
    pub fn request_path(&self, request: LayerRequest) -> (r: Result<String, RequestError>)
        ensures
            request.digest is Some ==> r is Ok
                && r->Ok_0@ == canonical_path_of(request.algorithm, request.digest->0@),
            request.digest is None ==> r is Err
                && r->Err_0.message@ == "missing digest in layer reference"@,
    {
        match request.digest {
            Some(digest) => Ok(
                construct_absolute_path(
                    Layer {
                        algorithm: request.algorithm,
                        digest,
                        name: request.name,
                        repo: request.repo,
                    },
                ),
            ),
            None => Err(
                RequestError { message: "missing digest in layer reference".to_owned() },
            ),
        }
    }

    /// Build the reply from the outcome of the filesystem probe at the
    /// canonical path: `exists` is exactly that outcome, and `length` is the
    /// documented placeholder.
    pub fn layer_exists(&mut self, found: bool) -> (r: LayerResult)
        ensures
            r.exists == found,
            r.length == PLACEHOLDER_LENGTH,
            *final(self) == *old(self),
    {
        LayerResult { exists: found, length: PLACEHOLDER_LENGTH }
    }
}

} // verus!
