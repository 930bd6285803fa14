//! The ways in which an installation run can fail.

use vstd::prelude::*;

verus! {

/// Why an installation run stopped before completing.
#[derive(Clone, Copy, Debug, PartialEq, Eq, Structural)]
pub enum InstallError {
    /// The hosting service could not be queried, or its reply was malformed.
    RequestFailure,
    /// The user left an interactive prompt without choosing.
    SelectionAborted,
    /// No record carries the chosen label.
    NotFound,
    /// The chosen asset could not be retrieved.
    DownloadFailure,
    /// The asset is a zip archive, for which no extraction exists.
    UnimplementedStrategy,
    /// The install or extraction tool reported a nonzero status. No run
    /// reports this error: the status of the tool is not looked at, and the
    /// run goes on to its cleanup as after a success.
    ExternalToolFailure,
}

} // verus!
