//! Error kinds of the service core.

use vstd::prelude::*;

verus! {

/// Everything that can go wrong inside the core.
///
/// Errors local to one decode call are returned to that caller only and never
/// touch shared state; only a configuration error (at construction) or a
/// permanent publish failure (observed by the production loop) may stop the
/// whole service.
#[derive(Clone, Copy, Debug, PartialEq, Eq, Structural)]
pub enum PluginError {
    /// The configured range is zero (or the configuration is missing):
    /// fatal at construction, the service never starts.
    ConfigurationError,
    /// An event payload is absent or not exactly 8 bytes long; surfaced to
    /// the caller of the decode operation only.
    MalformedPayload,
    /// The external publish sink reported a failure. The production loop
    /// keeps running on a transient failure and terminates on a permanent
    /// one; the distinction is carried by
    /// [`crate::lifecycle::PublishOutcome`].
    PublishFailure,
    /// A lock guarding shared state could not be taken: treated as "no
    /// data", never escalated; a lookup under it reports zero and a record
    /// under it is skipped.
    LockUnavailable,
}

} // verus!
