//! Platform-agnostic file access behind one completion contract.
//!
//! A caller asks for a bundled asset ([`load_file`]), for a file in private
//! storage ([`read_file`]) or for a write to private storage ([`save_file`])
//! and supplies a callback. The callback is invoked once with the outcome,
//! either before the call returns or, where a host runtime fetches the
//! resource, when the runtime reports that the transfer has ended.
//!
//! The crate holds the decisions only. The platform primitives themselves are
//! run by the embedding code, which hands their plain results in: the bytes
//! read or their absence, a success flag, a request identifier, a reported
//! size.

pub mod android;
pub mod desktop;
pub mod error;
pub mod fs;
pub mod ios;
pub mod wasm;

pub use error::Error;
pub use error::Response;
pub use fs::load_file;
pub use fs::read_file;
pub use fs::save_file;
pub use fs::try_load_file;
pub use fs::Backend;
pub use fs::Loaded;
