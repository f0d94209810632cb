use vstd::prelude::*;

verus! {

/// The kinds of failure of a pull or a run, one per stage that can fail.
#[derive(Debug, Clone, Copy, PartialEq, Eq, Structural)]
pub enum ContainerError {
    /// The token could not be obtained or read.
    Auth,
    /// A manifest or blob request did not succeed.
    Registry,
    /// The host architecture has no registry platform key.
    UnsupportedArchitecture,
    /// No manifest-list entry matches the host platform key.
    DigestNotFound,
    /// A manifest does not have the expected layout.
    ManifestShape,
    /// A layer could not be decoded, unpacked or written.
    Extraction,
    /// Swapping the root, resetting the working directory or detaching the
    /// process-ID namespace failed.
    Isolation,
    /// The target command could not be started.
    Execution,
}

} // verus!
