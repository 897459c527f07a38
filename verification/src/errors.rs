use vstd::prelude::*;

verus! {

/// Errors surfaced by the safety storage layer and its backend.
///
/// Every backend failure is propagated to the immediate caller; nothing is
/// retried inside this layer. The one suppressed error is `KeyAlreadyExists`
/// during initialization, which marks a store as already initialized.
#[derive(Clone, Copy, Debug, PartialEq, Eq, Structural)]
pub enum Error {
    /// The backend could not complete the operation (transport or storage
    /// engine failure).
    BackendUnavailable,
    /// A private key was imported under a name that already holds one.
    KeyAlreadyExists,
    /// The requested record name holds no value.
    KeyNotFound,
    /// No key version under the requested name matches the given public key.
    VersionNotFound,
    /// The value stored under the requested name is not of the expected kind.
    SerializationError,
}

} // verus!
