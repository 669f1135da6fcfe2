//! The failure kinds a read operation can report, and the response that every
//! completion callback of a read receives.

use vstd::prelude::*;
use vstd::string::StringExecFns;

verus! {

/// The operating system's I/O error. The crate carries it from the failed
/// read to the callback and never looks inside.
#[verifier::external_type_specification]
#[verifier::external_body]
pub struct ExIoError(std::io::Error);

/// Why a read operation produced no bytes.
#[derive(Debug)]
pub enum Error {
    /// Opening or reading a local file failed; the cause is kept for
    /// diagnostics.
    IOError(std::io::Error),
    /// The host runtime did not complete the fetch.
    DownloadFailed,
    /// The Android asset primitive returned no data.
    AndroidAssetLoadingError,
    /// The Android internal-storage primitive returned no data.
    AndroidInternalStorageError,
    /// The application bundle holds no resource under that name.
    IOSAssetNoSuchFile,
    /// The bundled resource exists, but its contents could not be obtained.
    IOSAssetNoData,
}

/// What the callback of a read operation receives: all the bytes, or the
/// reason there are none.
pub type Response = Result<Vec<u8>, Error>;

impl From<std::io::Error> for Error {
    fn from(cause: std::io::Error) -> (error: Error) {
        Error::IOError(cause)
    }
}

impl vstd::std_specs::convert::FromSpecImpl<std::io::Error> for Error {
    open spec fn obeys_from_spec() -> bool {
        true
    }

    open spec fn from_spec(cause: std::io::Error) -> Error {
        Error::IOError(cause)
    }
}

/// What every message begins with.
pub open spec fn message_prefix() -> Seq<char> {
    "Error: "@
}

/// What the message of an I/O failure puts before the cause.
pub open spec fn io_message_opening() -> Seq<char> {
    "Error: IOError("@
}

/// What the message of an I/O failure puts after the cause.
pub open spec fn io_message_closing() -> Seq<char> {
    ")"@
}

/// The `Debug` text of `std::io::Error`, as `std`'s `format!` produces it.
/// The text depends on the operating system's description of the cause, and
/// nothing is claimed of it.
#[verifier::external_body]
fn cause_text(cause: &std::io::Error) -> (text: String) {
    format!("{:?}", cause)
}

impl Error {
    /// The text of a failure kind that carries no cause: the word `Error`, a
    /// colon, a space and the kind's name. For an I/O failure the text depends
    /// on the cause and is not fixed here.
    pub open spec fn fixed_message(self) -> Option<Seq<char>> {
        match self {
            Error::IOError(_) => None,
            Error::DownloadFailed => Some("Error: DownloadFailed"@),
            Error::AndroidAssetLoadingError => Some("Error: AndroidAssetLoadingError"@),
            Error::AndroidInternalStorageError => Some("Error: AndroidInternalStorageError"@),
            Error::IOSAssetNoSuchFile => Some("Error: IOSAssetNoSuchFile"@),
            Error::IOSAssetNoData => Some("Error: IOSAssetNoData"@),
        }
    }

    /// The error as a line for a log: the prefix, then the kind, and for an
    /// I/O failure its cause in parentheses.
    pub fn message(&self) -> (text: String)
        ensures
            message_prefix().is_prefix_of(text@),
            self.fixed_message() matches Some(fixed) ==> text@ == fixed,
            self is IOError ==> exists|cause: Seq<char>|
                text@ == io_message_opening() + cause + io_message_closing(),
    {
        proof {
            reveal_strlit("Error: ");
            reveal_strlit("Error: IOError(");
            reveal_strlit(")");
            reveal_strlit("Error: DownloadFailed");
            reveal_strlit("Error: AndroidAssetLoadingError");
            reveal_strlit("Error: AndroidInternalStorageError");
            reveal_strlit("Error: IOSAssetNoSuchFile");
            reveal_strlit("Error: IOSAssetNoData");
        }
        match self {
            Error::IOError(cause) => {
                let inner = cause_text(cause);
                let text = String::from_str("Error: IOError(").concat(inner.as_str()).concat(")");
                assert(text@ == io_message_opening() + inner@ + io_message_closing());
                text
            },
            Error::DownloadFailed => "Error: DownloadFailed".to_owned(),
            Error::AndroidAssetLoadingError => "Error: AndroidAssetLoadingError".to_owned(),
            Error::AndroidInternalStorageError => "Error: AndroidInternalStorageError".to_owned(),
            Error::IOSAssetNoSuchFile => "Error: IOSAssetNoSuchFile".to_owned(),
            Error::IOSAssetNoData => "Error: IOSAssetNoData".to_owned(),
        }
    }
}

} // verus!
