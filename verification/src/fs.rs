//! The operations callers use, over whichever platform is active.
//!
//! One platform is chosen when the program is built. Here the choice is a
//! value: [`Backend`] names the platform, and [`Loaded`] carries what that
//! platform's load primitive handed back.

use crate::android::asset_response;
use crate::android::load_asset_android;
use crate::android::read_internal_storage_android;
use crate::android::storage_response;
use crate::android::write_internal_storage_android;
use crate::desktop::file_response;
use crate::desktop::load_file_desktop;
use crate::error::Response;
use crate::ios::bundle_response;
use crate::ios::BundleRead;
use crate::wasm::issued;
use crate::wasm::PendingRequests;
use vstd::prelude::*;

verus! {

/// The platforms.
#[derive(Clone, Copy, Debug, PartialEq, Eq, Structural)]
pub enum Backend {
    /// A desktop system: assets are files of the local filesystem.
    Desktop,
    /// Android: assets come from the application package, and the
    /// application has internal storage of its own.
    Android,
    /// iOS: assets are resources of the main bundle.
    Ios,
    /// A host runtime fetches assets and reports back later.
    Wasm,
}

impl Backend {
    /// Whether the platform has private storage, which `read_file` and
    /// `save_file` need. Only Android has.
    pub open spec fn supports_private_storage(self) -> bool {
        self == Backend::Android
    }

    /// Whether a load completes after the call has returned. Only the host
    /// runtime defers.
    pub open spec fn defers_completion(self) -> bool {
        self == Backend::Wasm
    }

    /// Whether the platform has private storage.
    pub fn has_private_storage(self) -> (supported: bool)
        ensures
            supported == self.supports_private_storage(),
    {
        match self {
            Backend::Android => true,
            Backend::Desktop => false,
            Backend::Ios => false,
            Backend::Wasm => false,
        }
    }

    /// Whether a load completes after the call has returned.
    pub fn is_deferred(self) -> (deferred: bool)
        ensures
            deferred == self.defers_completion(),
    {
        match self {
            Backend::Wasm => true,
            Backend::Desktop => false,
            Backend::Android => false,
            Backend::Ios => false,
        }
    }
}

/// What the active platform's load primitive handed back.
#[derive(Debug)]
pub enum Loaded {
    /// The outcome of reading a local file whole.
    Desktop(Result<Vec<u8>, std::io::Error>),
    /// The asset's bytes, or `None` where the primitive had nothing.
    Android(Option<Vec<u8>>),
    /// How the lookup in the main bundle ended.
    Ios(BundleRead),
    /// The identifier under which the runtime accepted the request.
    Wasm(u32),
}

impl Loaded {
    /// The platform that produced this.
    pub open spec fn backend(self) -> Backend {
        match self {
            Loaded::Desktop(_) => Backend::Desktop,
            Loaded::Android(_) => Backend::Android,
            Loaded::Ios(_) => Backend::Ios,
            Loaded::Wasm(_) => Backend::Wasm,
        }
    }

    /// The response that is ready when the load call returns; none while the
    /// request is in flight at the runtime.
    pub open spec fn response(self) -> Option<Response> {
        match self {
            Loaded::Desktop(read) => Some(file_response(read)),
            Loaded::Android(asset) => Some(asset_response(asset)),
            Loaded::Ios(found) => Some(bundle_response(found)),
            Loaded::Wasm(_) => None,
        }
    }

    /// The identifier of the request in flight, on the platform that defers.
    pub open spec fn request(self) -> Option<u32> {
        match self {
            Loaded::Wasm(file_id) => Some(file_id),
            _ => None,
        }
    }
}

/// A load takes one path and never both: the response is ready when the
/// call returns exactly where no request is left in flight, and a request is
/// left in flight exactly on the platform that defers.
pub proof fn lemma_load_completes_now_or_later(loaded: Loaded)
    ensures
        loaded.response() is Some <==> loaded.request() is None,
        loaded.request() is Some <==> loaded.backend().defers_completion(),
{
}

/// Loads a read-only asset.
///
/// On a platform that answers at once, `on_loaded` is invoked here with the
/// response and the table is left alone. On the platform that defers, the
/// callback is stored under the request's identifier and is invoked when the
/// notification for that identifier is delivered.
pub fn load_file<F: FnOnce(Response)>(
    table: &mut PendingRequests<F>,
    loaded: Loaded,
    on_loaded: F,
)
    requires
        old(table).wf(),
        forall|response: Response| call_requires(on_loaded, (response,)),
        loaded.request() matches Some(file_id) ==> !old(table)@.contains_key(file_id),
    ensures
        final(table).wf(),
        loaded.response() matches Some(response) ==> {
            &&& call_ensures(on_loaded, (response,), ())
            &&& final(table)@ == old(table)@
        },
        loaded.request() matches Some(file_id) ==> final(table)@ == issued(
            old(table)@,
            file_id,
            on_loaded,
        ),
{
    match loaded {
        Loaded::Desktop(read) => load_file_desktop(read, on_loaded),
        Loaded::Android(asset) => load_asset_android(asset, on_loaded),
        Loaded::Ios(found) => crate::ios::load_file(found, on_loaded),
        Loaded::Wasm(file_id) => crate::wasm::load_file(table, file_id, on_loaded),
    }
}

/// Loads as [`load_file`] does, for a caller that cannot know whether the
/// request's identifier is in flight. A load that completes at once is never
/// refused. A deferred load is refused exactly where its identifier is in
/// flight: the table is left as it was and `on_loaded` comes back unused.
pub fn try_load_file<F: FnOnce(Response)>(
    table: &mut PendingRequests<F>,
    loaded: Loaded,
    on_loaded: F,
) -> (refused: Option<F>)
    requires
        old(table).wf(),
        forall|response: Response| call_requires(on_loaded, (response,)),
    ensures
        final(table).wf(),
        refused is Some <==> {
            &&& loaded.request() matches Some(file_id)
            &&& old(table)@.contains_key(file_id)
        },
        refused matches Some(unused) ==> unused == on_loaded && final(table)@ == old(table)@,
        refused is None ==> {
            &&& loaded.response() matches Some(response) ==> {
                &&& call_ensures(on_loaded, (response,), ())
                &&& final(table)@ == old(table)@
            }
            &&& loaded.request() matches Some(file_id) ==> final(table)@ == issued(
                old(table)@,
                file_id,
                on_loaded,
            )
        },
{
    match loaded {
        Loaded::Wasm(file_id) => crate::wasm::try_load_file(table, file_id, on_loaded),
        ready => {
            load_file(table, ready, on_loaded);
            None
        },
    }
}

/// Private storage is Android's alone: on every other platform the
/// condition under which [`read_file`] and [`save_file`] may be called is
/// false, so neither can be reached there, with any stored bytes, any flag
/// and any callback. The platform that has it answers at once.
pub proof fn lemma_private_storage_is_android_only(backend: Backend)
    ensures
        backend.supports_private_storage() <==> backend == Backend::Android,
        !(backend.supports_private_storage() && backend.defers_completion()),
{
}

/// Reads a file of the application's private storage and invokes
/// `on_loaded` with the response. `stored` is what the storage primitive
/// handed back: the bytes, or `None` where it had nothing.
///
/// Private storage is apart from the bundled assets, and a platform without
/// it offers no read: no caller may ask for one there.
pub fn read_file<F: FnOnce(Response)>(backend: Backend, stored: Option<Vec<u8>>, on_loaded: F)
    requires
        backend.supports_private_storage(),
        call_requires(on_loaded, (storage_response(stored),)),
    ensures
        call_ensures(on_loaded, (storage_response(stored),), ()),
{
    read_internal_storage_android(stored, on_loaded)
}

/// Writes to the application's private storage and invokes `on_saved` with
/// the success flag that the write primitive returned.
///
/// Bundled assets are never written, and a platform without private storage
/// offers no write: no caller may ask for one there.
pub fn save_file<F: FnOnce(bool)>(backend: Backend, written: bool, on_saved: F)
    requires
        backend.supports_private_storage(),
        call_requires(on_saved, (written,)),
    ensures
        call_ensures(on_saved, (written,), ()),
{
    write_internal_storage_android(written, on_saved)
}

} // verus!
