//! The local filesystem: the file is read whole and the callback runs before
//! the call returns.

use crate::error::Error;
use crate::error::Response;
use vstd::prelude::*;

verus! {

/// The response for a local file: the bytes as they were read, or the I/O
/// failure with its cause.
pub open spec fn file_response(read: Result<Vec<u8>, std::io::Error>) -> Response {
    match read {
        Ok(bytes) => Ok(bytes),
        Err(cause) => Err(Error::IOError(cause)),
    }
}

/// Completes a load from the local filesystem. `read` is the outcome of
/// opening the file and reading it to its end.
pub fn load_file_desktop<F: FnOnce(Response)>(
    read: Result<Vec<u8>, std::io::Error>,
    on_loaded: F,
)
    requires
        call_requires(on_loaded, (file_response(read),)),
    ensures
        call_ensures(on_loaded, (file_response(read),), ()),
{
    let response = match read {
        Ok(bytes) => Ok(bytes),
        Err(cause) => Err(Error::from(cause)),
    };
    on_loaded(response)
}

} // verus!
