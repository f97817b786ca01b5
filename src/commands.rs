//! The decisions behind the `push` and `pull` commands: which credentials and
//! transport to use, where pulled bytes go, and what is reported.
use vstd::prelude::*;
use oci_distribution::client::ClientProtocol;
use oci_distribution::secrets::RegistryAuth;
use oci_wasm::WasmClient;
use crate::oci::{new_client, new_wasm_client, wasm_client_protocol_of};
use crate::text::{replace_char, replaced};

verus! {

/// Why a command was refused.
#[derive(Debug, PartialEq, Eq, Structural, Clone, Copy)]
pub enum CommandError {
    /// A username was given without a password, or a password without a username
    IncompleteCredentials,
    /// The pulled artifact has no layers
    NoLayers,
}

impl CommandError {
    /// A human-readable description of the error.
    pub fn message(&self) -> (r: String)
        ensures
            *self == CommandError::IncompleteCredentials ==> r@
                == "Must provide both a username and password"@,
            *self == CommandError::NoLayers ==> r@ == "No layers found"@,
    {
        match self {
            CommandError::IncompleteCredentials => String::from_str(
                "Must provide both a username and password",
            ),
            CommandError::NoLayers => String::from_str("No layers found"),
        }
    }
}

/// Credentials from an optional username and password: both give basic auth,
/// neither gives anonymous access, and one without the other is refused.
pub fn registry_auth_from(username: Option<String>, password: Option<String>) -> (r: Result<
    RegistryAuth,
    CommandError,
>)
    ensures
        r == match (username, password) {
            (Some(u), Some(p)) => Ok(RegistryAuth::Basic(u, p)),
            (None, None) => Ok(RegistryAuth::Anonymous),
            _ => Err(CommandError::IncompleteCredentials),
        },
{
    match (username, password) {
        (Some(u), Some(p)) => Ok(RegistryAuth::Basic(u, p)),
        (None, None) => Ok(RegistryAuth::Anonymous),
        _ => Err(CommandError::IncompleteCredentials),
    }
}

/// The transport for a command: https everywhere, except plain http for the
/// listed hosts when there are any.
pub fn insecure_protocol(insecure: Vec<String>) -> (r: ClientProtocol)
    ensures
        insecure@.len() == 0 ==> r == ClientProtocol::Https,
        insecure@.len() > 0 ==> r == ClientProtocol::HttpsExcept(insecure),
{
    if insecure.len() == 0 {
        ClientProtocol::Https
    } else {
        ClientProtocol::HttpsExcept(insecure)
    }
}

/// Builds the component client for a command, using plain http only for the
/// listed hosts.
pub fn get_client(insecure: Vec<String>) -> (r: WasmClient)
    ensures
        insecure@.len() == 0 ==> wasm_client_protocol_of(r) == ClientProtocol::Https,
        insecure@.len() > 0 ==> (wasm_client_protocol_of(r) == ClientProtocol::HttpsExcept(insecure)
            || wasm_client_protocol_of(r) == ClientProtocol::Https),
{
    new_wasm_client(new_client(insecure_protocol(insecure)))
}

/// The file a pulled component is written to when no output is given: the
/// repository path with each `/` replaced by `_`, followed by `.wasm`.
pub open spec fn spec_default_output_path(repository: Seq<char>) -> Seq<char> {
    replaced(repository, '/', "_"@) + ".wasm"@
}

/// Returns the default output file for a repository path.
pub fn default_output_path(repository: &str) -> (r: String)
    ensures
        r@ == spec_default_output_path(repository@),
{
    let mut r = replace_char(repository, '/', "_");
    r.append(".wasm");
    r
}

/// Returns the output file for a pull: the one given, else the default for the
/// repository path.
pub fn output_path(output: Option<String>, repository: &str) -> (r: String)
    ensures
        output is Some ==> r == output->0,
        output is None ==> r@ == spec_default_output_path(repository@),
{
    match output {
        Some(o) => o,
        None => default_output_path(repository),
    }
}

/// Returns the bytes of the first layer of a pulled artifact, and refuses an
/// artifact without layers.
pub fn first_layer(layers: Vec<Vec<u8>>) -> (r: Result<Vec<u8>, CommandError>)
    ensures
        layers@.len() == 0 ==> r == Err::<Vec<u8>, CommandError>(CommandError::NoLayers),
        layers@.len() > 0 ==> r == Ok::<Vec<u8>, CommandError>(layers@[0]),
{
    let mut layers = layers;
    if layers.len() == 0 {
        Err(CommandError::NoLayers)
    } else {
        Ok(layers.swap_remove(0))
    }
}

/// The confirmation printed after a push.
pub fn push_message(reference: &str) -> (r: String)
    ensures
        r@ == "Pushed "@ + reference@,
{
    let mut r = String::from_str("Pushed ");
    r.append(reference);
    r
}

/// The confirmation printed after a pull.
pub fn pull_message(reference: &str, path: &str) -> (r: String)
    ensures
        r@ == "Successfully wrote "@ + reference@ + " to "@ + path@,
{
    let mut r = String::from_str("Successfully wrote ");
    r.append(reference);
    r.append(" to ");
    r.append(path);
    r
}

} // verus!
