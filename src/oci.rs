//! Declarations of the registry client types used by the library, and the
//! calls that build clients.
use vstd::prelude::*;
use oci_distribution::client::{ClientConfig, ClientProtocol};
use oci_distribution::secrets::RegistryAuth;
use oci_distribution::Client;
use oci_wasm::WasmClient;

verus! {

/// How a client authenticates: anonymously, or with a username and password.
#[verifier::external_type_specification]
pub struct ExRegistryAuth(RegistryAuth);

/// Which transport a client uses: plain http, https, or https except for the
/// listed hosts.
#[verifier::external_type_specification]
pub struct ExClientProtocol(ClientProtocol);

/// A registry client; opaque to the library.
#[verifier::external_type_specification]
#[verifier::external_body]
pub struct ExClient(Client);

/// A registry client specialised to WebAssembly components; opaque to the library.
#[verifier::external_type_specification]
#[verifier::external_body]
pub struct ExWasmClient(WasmClient);

/// The transport a registry client was built with.
pub uninterp spec fn client_protocol_of(c: Client) -> ClientProtocol;

/// The transport of the registry client inside a component client.
pub uninterp spec fn wasm_client_protocol_of(c: WasmClient) -> ClientProtocol;

/// Relies on oci_distribution::Client::new, which builds a client for the given
/// transport with every other setting at its default; where that build fails it
/// falls back to a default client, whose transport is https.
#[verifier::external_body]
pub(crate) fn new_client(protocol: ClientProtocol) -> (r: Client)
    ensures
        client_protocol_of(r) == protocol || client_protocol_of(r) == ClientProtocol::Https,
{
    Client::new(ClientConfig { protocol, ..Default::default() })
}

/// Relies on oci_wasm::WasmClient::new, which wraps a registry client as it is.
#[verifier::external_body]
pub(crate) fn new_wasm_client(client: Client) -> (r: WasmClient)
    ensures
        wasm_client_protocol_of(r) == client_protocol_of(client),
{
    WasmClient::new(client)
}

} // verus!
