//! Android: bundled assets and the application's internal storage, each
//! behind a native primitive that answers at once.
//!
//! A read primitive fills a record with a pointer and a length. A null
//! pointer means it has nothing; otherwise the embedding code copies the
//! bytes out before it calls in here. `None` stands for the null pointer.

use crate::error::Error;
use crate::error::Response;
use vstd::prelude::*;

verus! {

/// The response for a bundled asset.
pub open spec fn asset_response(asset: Option<Vec<u8>>) -> Response {
    match asset {
        Some(bytes) => Ok(bytes),
        None => Err(Error::AndroidAssetLoadingError),
    }
}

/// The response for a file in internal storage.
pub open spec fn storage_response(stored: Option<Vec<u8>>) -> Response {
    match stored {
        Some(bytes) => Ok(bytes),
        None => Err(Error::AndroidInternalStorageError),
    }
}

/// Completes the load of a bundled asset.
pub fn load_asset_android<F: FnOnce(Response)>(asset: Option<Vec<u8>>, on_loaded: F)
    requires
        call_requires(on_loaded, (asset_response(asset),)),
    ensures
        call_ensures(on_loaded, (asset_response(asset),), ()),
{
    let response = match asset {
        Some(bytes) => Ok(bytes),
        None => Err(Error::AndroidAssetLoadingError),
    };
    on_loaded(response)
}

/// Completes a read from internal storage.
pub fn read_internal_storage_android<F: FnOnce(Response)>(stored: Option<Vec<u8>>, on_loaded: F)
    requires
        call_requires(on_loaded, (storage_response(stored),)),
    ensures
        call_ensures(on_loaded, (storage_response(stored),), ()),
{
    let response = match stored {
        Some(bytes) => Ok(bytes),
        None => Err(Error::AndroidInternalStorageError),
    };
    on_loaded(response)
}

/// Completes a write to internal storage. The write primitive reports
/// success as a flag and nothing else, and the flag goes to the callback as
/// it is.
pub fn write_internal_storage_android<F: FnOnce(bool)>(success: bool, on_written: F)
    requires
        call_requires(on_written, (success,)),
    ensures
        call_ensures(on_written, (success,), ()),
{
    on_written(success)
}

} // verus!
