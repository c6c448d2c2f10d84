use vstd::prelude::*;

verus! {

/// The failure surface of the client layer.
///
/// Every fallible step returns its error to the immediate caller unchanged:
/// nothing in this layer retries or swallows a failure.
#[derive(Clone, Debug, PartialEq, Eq)]
pub enum Error {
    /// Neither an emulator address nor a credential-file path was configured.
    MissingConfig,
    /// The credential document could not be read or parsed.
    Credentials(String),
    /// Token acquisition or refresh failed at the credential source.
    Auth(String),
    /// The transport channel could not be established.
    Connection(String),
    /// A single remote call failed; carries the transport's status message.
    Rpc(String),
}

} // verus!
