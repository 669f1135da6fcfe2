//! iOS: resources of the application's main bundle.

use crate::error::Error;
use crate::error::Response;
use vstd::prelude::*;

verus! {

/// How a lookup in the main bundle ended.
#[derive(Debug)]
pub enum BundleRead {
    /// The bundle has no path for the resource.
    NoSuchFile,
    /// The resource has a path, but no data or no bytes came back for it.
    NoData,
    /// The resource's bytes, copied out of the bundle's own memory.
    Data(Vec<u8>),
}

/// The response for a bundle lookup. A missing resource and unreadable
/// contents stay apart.
pub open spec fn bundle_response(found: BundleRead) -> Response {
    match found {
        BundleRead::NoSuchFile => Err(Error::IOSAssetNoSuchFile),
        BundleRead::NoData => Err(Error::IOSAssetNoData),
        BundleRead::Data(bytes) => Ok(bytes),
    }
}

/// Completes the load of a bundled resource.
pub fn load_file<F: FnOnce(Response)>(found: BundleRead, on_loaded: F)
    requires
        call_requires(on_loaded, (bundle_response(found),)),
    ensures
        call_ensures(on_loaded, (bundle_response(found),), ()),
{
    let response = match found {
        BundleRead::NoSuchFile => Err(Error::IOSAssetNoSuchFile),
        BundleRead::NoData => Err(Error::IOSAssetNoData),
        BundleRead::Data(bytes) => Ok(bytes),
    };
    on_loaded(response)
}

} // verus!
