//! The closed error taxonomy of the updater.
//!
//! Every failure an attempt can report is one of these kinds, each carrying a
//! renderable message, so callers branch on the kind rather than matching
//! message substrings.

use vstd::prelude::*;

verus! {

/// The kind of an [`UpdateError`], with no message attached.
#[derive(Clone, Copy, Debug, PartialEq, Eq, Structural)]
pub enum UpdateErrorKind {
    /// A network request could not be made or completed.
    Network,
    /// Text from outside (feed JSON, version output, supervisor output)
    /// did not have the expected shape.
    Parse,
    /// A release with the wanted tag, or the local state file, is missing.
    NotFound,
    /// The operation is not supported for the given asset.
    NotSupported,
    /// The supervisor has no unit for the asset.
    UnitNotFound,
    /// A file's permissions could not be set.
    Permission,
    /// A binary could not be downloaded.
    Download,
    /// The release feed answered with a non-success response; the message is
    /// the raw response body.
    Response,
}

/// An error of the updater: a kind plus a renderable message.
#[derive(Debug)]
pub enum UpdateError {
    NetworkError(String),
    ParseError(String),
    NotFoundError(String),
    NotSupportedError(String),
    UnitNotFoundError(String),
    PermissionError(String),
    DownloadError(String),
    ResponseError(String),
}

impl Clone for UpdateError {
    fn clone(&self) -> (r: Self)
        ensures
            r.kind_spec() == self.kind_spec(),
            r.message_spec() == self.message_spec(),
    {
        match self {
            UpdateError::NetworkError(m) => UpdateError::NetworkError(m.clone()),
            UpdateError::ParseError(m) => UpdateError::ParseError(m.clone()),
            UpdateError::NotFoundError(m) => UpdateError::NotFoundError(m.clone()),
            UpdateError::NotSupportedError(m) => UpdateError::NotSupportedError(m.clone()),
            UpdateError::UnitNotFoundError(m) => UpdateError::UnitNotFoundError(m.clone()),
            UpdateError::PermissionError(m) => UpdateError::PermissionError(m.clone()),
            UpdateError::DownloadError(m) => UpdateError::DownloadError(m.clone()),
            UpdateError::ResponseError(m) => UpdateError::ResponseError(m.clone()),
        }
    }
}

impl UpdateError {
    /// The kind of this error, as a spec-level value.
    pub open spec fn kind_spec(&self) -> UpdateErrorKind {
        match self {
            UpdateError::NetworkError(_) => UpdateErrorKind::Network,
            UpdateError::ParseError(_) => UpdateErrorKind::Parse,
            UpdateError::NotFoundError(_) => UpdateErrorKind::NotFound,
            UpdateError::NotSupportedError(_) => UpdateErrorKind::NotSupported,
            UpdateError::UnitNotFoundError(_) => UpdateErrorKind::UnitNotFound,
            UpdateError::PermissionError(_) => UpdateErrorKind::Permission,
            UpdateError::DownloadError(_) => UpdateErrorKind::Download,
            UpdateError::ResponseError(_) => UpdateErrorKind::Response,
        }
    }

    /// The message carried by this error, as a spec-level value.
    pub open spec fn message_spec(&self) -> Seq<char> {
        match self {
            UpdateError::NetworkError(m) => m@,
            UpdateError::ParseError(m) => m@,
            UpdateError::NotFoundError(m) => m@,
            UpdateError::NotSupportedError(m) => m@,
            UpdateError::UnitNotFoundError(m) => m@,
            UpdateError::PermissionError(m) => m@,
            UpdateError::DownloadError(m) => m@,
            UpdateError::ResponseError(m) => m@,
        }
    }

    /// The kind of this error.
    pub fn kind(&self) -> (r: UpdateErrorKind)
        ensures
            r == self.kind_spec(),
    {
        match self {
            UpdateError::NetworkError(_) => UpdateErrorKind::Network,
            UpdateError::ParseError(_) => UpdateErrorKind::Parse,
            UpdateError::NotFoundError(_) => UpdateErrorKind::NotFound,
            UpdateError::NotSupportedError(_) => UpdateErrorKind::NotSupported,
            UpdateError::UnitNotFoundError(_) => UpdateErrorKind::UnitNotFound,
            UpdateError::PermissionError(_) => UpdateErrorKind::Permission,
            UpdateError::DownloadError(_) => UpdateErrorKind::Download,
            UpdateError::ResponseError(_) => UpdateErrorKind::Response,
        }
    }

    /// The renderable message carried by this error.
    pub fn message(&self) -> (r: &String)
        ensures
            r@ == self.message_spec(),
    {
        match self {
            UpdateError::NetworkError(m) => m,
            UpdateError::ParseError(m) => m,
            UpdateError::NotFoundError(m) => m,
            UpdateError::NotSupportedError(m) => m,
            UpdateError::UnitNotFoundError(m) => m,
            UpdateError::PermissionError(m) => m,
            UpdateError::DownloadError(m) => m,
            UpdateError::ResponseError(m) => m,
        }
    }
}

} // verus!
