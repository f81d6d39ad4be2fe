//! Errors of this crate that carry plain values.
use vstd::prelude::*;

verus! {

/// `nemesis_merge` error.
#[derive(Debug, Clone, PartialEq, Eq)]
pub enum Error {
    /// A free-form message.
    Custom { msg: String },
    /// A path that is not valid UTF-8 (shown lossily).
    NonUtf8Path { path: String },
    /// A path that is neither a Normal nor an EngineExt Nemesis patch path.
    FailedParseNemesisPath { path: String },
    /// A Nemesis patch path whose template is unknown.
    FailedToCastNemesisPathToTemplateKey { path: String },
    /// Failure to read XML templates converted from patches and hkx.
    FailedToReadTemplateAndPatches { errors_len: usize },
    /// Failure to apply patches or to generate hkx files.
    FailedToGenerateBehaviors { hkx_errors_len: usize, patch_errors_len: usize },
}

} // verus!
