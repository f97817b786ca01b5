//! The dependency client, built from a configuration.
use vstd::prelude::*;
use oci_distribution::client::ClientProtocol;
use oci_distribution::secrets::RegistryAuth;
use oci_wasm::WasmClient;
use crate::config::{
    auth_for, protocol_for, Config, DEFAULT_REGISTRY, DEFAULT_REGISTRY_SUBPATH,
    WASI_PACKAGE_NAMESPACE,
};
use crate::oci::{new_wasm_client, wasm_client_protocol_of};

verus! {

/// A client for pulling dependencies specified in a manifest
pub struct DepsClient {
    default_client: WasmClient,
    default_auth: RegistryAuth,
    config: Config,
}

impl DepsClient {
    /// The configuration this client was built from.
    pub closed spec fn spec_config(&self) -> Config {
        self.config
    }

    /// The credentials used with the default registry.
    pub closed spec fn spec_default_auth(&self) -> RegistryAuth {
        self.default_auth
    }

    /// The client for the default registry.
    pub closed spec fn spec_default_client(&self) -> WasmClient {
        self.default_client
    }

    /// The transport of the client for the default registry.
    pub open spec fn spec_default_protocol(&self) -> ClientProtocol {
        wasm_client_protocol_of(self.spec_default_client())
    }

    /// The client holds the default config's credentials, and a connection with
    /// the transport that config names, or https where the client library fell
    /// back to its default client.
    pub open spec fn wf(&self) -> bool {
        &&& self.spec_default_auth() == auth_for(self.spec_config().default_config.auth)
        &&& (self.spec_default_protocol() == protocol_for(self.spec_config().default_config.protocol)
            || self.spec_default_protocol() == ClientProtocol::Https)
    }

    /// Create a new `DepsClient` from the given config, with a client and
    /// credentials for the default registry. The client uses the transport that
    /// the default config names, unless the client library had to fall back to
    /// its default client, which uses https.
    pub fn new(config: Config) -> (r: Self)
        ensures
            r.spec_config() == config,
            r.spec_default_auth() == auth_for(config.default_config.auth),
            r.spec_default_protocol() == protocol_for(config.default_config.protocol)
                || r.spec_default_protocol() == ClientProtocol::Https,
            r.wf(),
    {
        let (default_client, default_auth) = config.default_config.get_client();
        DepsClient { default_client: new_wasm_client(default_client), default_auth, config }
    }

    /// The configuration this client was built from.
    pub fn config(&self) -> (r: &Config)
        ensures
            *r == self.spec_config(),
    {
        &self.config
    }

    /// The credentials used with the default registry.
    pub fn default_auth(&self) -> (r: &RegistryAuth)
        ensures
            *r == self.spec_default_auth(),
    {
        &self.default_auth
    }

    /// The client for the default registry.
    pub fn default_client(&self) -> (r: &WasmClient)
        ensures
            *r == self.spec_default_client(),
    {
        &self.default_client
    }
}

impl Default for DepsClient {
    fn default() -> (r: Self)
        ensures
            r.wf(),
            r.spec_config().wf(),
            r.spec_config().default_namespace@ == WASI_PACKAGE_NAMESPACE@,
            r.spec_config().default_config.registry@ == DEFAULT_REGISTRY@,
            r.spec_config().default_config.registry_subpath is Some,
            r.spec_config().default_config.registry_subpath->0@ == DEFAULT_REGISTRY_SUBPATH@,
            r.spec_config().default_config.protocol is None,
            r.spec_config().default_config.auth is None,
            r.spec_config().namespaces@.len() == 0,
            r.spec_default_auth() == RegistryAuth::Anonymous,
            r.spec_default_protocol() == ClientProtocol::Https,
    {
        DepsClient::new(Config::default())
    }
}

/// A namespace without an entry of its own is served by the connection the
/// client holds: the default config, its credentials and its transport.
pub proof fn lemma_absent_namespace_uses_default_connection(client: DepsClient, namespace: Seq<char>)
    requires
        client.wf(),
        forall|i: int|
            0 <= i < client.spec_config().namespaces@.len() ==> client.spec_config().namespaces@[i].0@
                != namespace,
    ensures
        client.spec_config().spec_resolve(namespace) == client.spec_config().default_config,
        auth_for(client.spec_config().spec_resolve(namespace).auth) == client.spec_default_auth(),
        client.spec_default_protocol() == protocol_for(
            client.spec_config().spec_resolve(namespace).protocol,
        ) || client.spec_default_protocol() == ClientProtocol::Https,
{
    crate::config::lemma_absent_namespace_is_default(client.spec_config(), namespace);
}

} // verus!
