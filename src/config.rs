//! The dependency configuration: where to pull packages from, by namespace.
use vstd::prelude::*;
use oci_distribution::client::ClientProtocol;
use oci_distribution::secrets::RegistryAuth;
use oci_distribution::Client;
use crate::oci::{client_protocol_of, new_client};
use crate::text::str_eq;

verus! {

/// The default config file name
pub const DEFAULT_CONFIG_FILE_NAME: &'static str = "config.toml";

/// The default registry for pulling dependencies
pub const DEFAULT_REGISTRY: &'static str = "ghcr.io";

/// The default registry subpath for dependencies
pub const DEFAULT_REGISTRY_SUBPATH: &'static str = "WebAssembly";

/// The WASI package namespace
pub const WASI_PACKAGE_NAMESPACE: &'static str = "wasi";

/// Credentials for a registry.
pub struct Auth {
    /// The username to use for authentication
    pub username: String,
    /// The password to use for authentication
    pub password: String,
}

impl Clone for Auth {
    fn clone(&self) -> (r: Self)
        ensures
            r == *self,
    {
        Auth { username: self.username.clone(), password: self.password.clone() }
    }
}

impl Default for Auth {
    fn default() -> (r: Self)
        ensures
            r.username@.len() == 0,
            r.password@.len() == 0,
    {
        Auth { username: String::new(), password: String::new() }
    }
}

/// Copies an optional string.
pub fn clone_opt_string(o: &Option<String>) -> (r: Option<String>)
    ensures
        r == *o,
{
    match o {
        Some(s) => Some(s.clone()),
        None => None,
    }
}

/// How to reach one registry.
pub struct RegistryConfig {
    /// The registry to use for pulling dependencies
    pub registry: String,
    /// The protocol to use: "http" selects plain http, anything else (or
    /// nothing) selects https
    pub protocol: Option<String>,
    /// The path between the registry host and the artifact name, without leading
    /// or trailing slashes; none means the root of the registry
    pub registry_subpath: Option<String>,
    /// Optional authentication details to use for the registry
    pub auth: Option<Auth>,
}

impl Clone for RegistryConfig {
    fn clone(&self) -> (r: Self)
        ensures
            r == *self,
    {
        RegistryConfig {
            registry: self.registry.clone(),
            protocol: clone_opt_string(&self.protocol),
            registry_subpath: clone_opt_string(&self.registry_subpath),
            auth: match &self.auth {
                Some(a) => Some(a.clone()),
                None => None,
            },
        }
    }
}

impl Default for RegistryConfig {
    fn default() -> (r: Self)
        ensures
            r.registry@ == DEFAULT_REGISTRY@,
            r.registry_subpath is Some,
            r.registry_subpath->0@ == DEFAULT_REGISTRY_SUBPATH@,
            r.protocol is None,
            r.auth is None,
    {
        RegistryConfig {
            registry: String::from_str(DEFAULT_REGISTRY),
            registry_subpath: Some(String::from_str(DEFAULT_REGISTRY_SUBPATH)),
            protocol: None,
            auth: None,
        }
    }
}

/// The transport named by an optional protocol string: exactly "http" gives
/// plain http, and every other value, or none, gives https.
pub open spec fn protocol_for(protocol: Option<String>) -> ClientProtocol {
    match protocol {
        Some(p) => if p@ == "http"@ {
            ClientProtocol::Http
        } else {
            ClientProtocol::Https
        },
        None => ClientProtocol::Https,
    }
}

/// The credentials named by optional auth details: basic auth when present,
/// anonymous access otherwise.
pub open spec fn auth_for(auth: Option<Auth>) -> RegistryAuth {
    match auth {
        Some(a) => RegistryAuth::Basic(a.username, a.password),
        None => RegistryAuth::Anonymous,
    }
}

impl RegistryConfig {
    /// The transport to use for this registry.
    pub fn client_protocol(&self) -> (r: ClientProtocol)
        ensures
            r == protocol_for(self.protocol),
    {
        match &self.protocol {
            Some(p) => if str_eq(p.as_str(), "http") {
                ClientProtocol::Http
            } else {
                ClientProtocol::Https
            },
            None => ClientProtocol::Https,
        }
    }

    /// The credentials to present to this registry.
    pub fn registry_auth(&self) -> (r: RegistryAuth)
        ensures
            r == auth_for(self.auth),
    {
        match &self.auth {
            Some(a) => RegistryAuth::Basic(a.username.clone(), a.password.clone()),
            None => RegistryAuth::Anonymous,
        }
    }

    /// Returns an OCI client for this registry's transport, and the credentials
    /// to use with it.
    pub fn get_client(&self) -> (r: (Client, RegistryAuth))
        ensures
            client_protocol_of(r.0) == protocol_for(self.protocol) || client_protocol_of(r.0)
                == ClientProtocol::Https,
            r.1 == auth_for(self.auth),
    {
        let client = new_client(self.client_protocol());
        (client, self.registry_auth())
    }
}

/// Any protocol string other than exactly "http" or "https", and an absent
/// one, selects the same transport as "https".
pub proof fn lemma_unknown_protocol_is_https(c: RegistryConfig, https: RegistryConfig)
    requires
        https.protocol is Some,
        https.protocol->0@ == "https"@,
        c.protocol is Some ==> c.protocol->0@ != "http"@ && c.protocol->0@ != "https"@,
    ensures
        protocol_for(c.protocol) == protocol_for(https.protocol),
        protocol_for(c.protocol) == ClientProtocol::Https,
{
    reveal_strlit("http");
    reveal_strlit("https");
    assert("https"@.len() != "http"@.len());
}

/// The configuration for the dependency manager: which registry serves each
/// package namespace (the `wasi` in `wasi:http`), with a fallback for the rest.
pub struct Config {
    /// The default package namespace to use for pulling dependencies.
    pub default_namespace: String,
    /// The config for any namespace without an entry of its own
    pub default_config: RegistryConfig,
    /// Package namespaces and their configs; each namespace appears once
    pub namespaces: Vec<(String, RegistryConfig)>,
}

impl Clone for Config {
    fn clone(&self) -> (r: Self)
        ensures
            r.default_namespace == self.default_namespace,
            r.default_config == self.default_config,
            r.namespaces@ == self.namespaces@,
    {
        let mut namespaces: Vec<(String, RegistryConfig)> = Vec::new();
        let mut i: usize = 0;
        while i < self.namespaces.len()
            invariant
                i <= self.namespaces@.len(),
                namespaces@ == self.namespaces@.subrange(0, i as int),
            decreases self.namespaces@.len() - i,
        {
            let entry = &self.namespaces[i];
            namespaces.push((entry.0.clone(), entry.1.clone()));
            i = i + 1;
            assert(namespaces@ =~= self.namespaces@.subrange(0, i as int));
        }
        assert(namespaces@ =~= self.namespaces@);
        Config {
            default_namespace: self.default_namespace.clone(),
            default_config: self.default_config.clone(),
            namespaces,
        }
    }
}

impl Default for Config {
    fn default() -> (r: Self)
        ensures
            r.default_namespace@ == WASI_PACKAGE_NAMESPACE@,
            r.default_config.registry@ == DEFAULT_REGISTRY@,
            r.default_config.registry_subpath is Some,
            r.default_config.registry_subpath->0@ == DEFAULT_REGISTRY_SUBPATH@,
            r.default_config.protocol is None,
            r.default_config.auth is None,
            r.namespaces@.len() == 0,
            r.wf(),
    {
        Config {
            default_namespace: String::from_str(WASI_PACKAGE_NAMESPACE),
            default_config: RegistryConfig::default(),
            namespaces: Vec::new(),
        }
    }
}

/// The config of the first entry named `namespace`, or `fallback` when none is.
pub open spec fn lookup(
    entries: Seq<(String, RegistryConfig)>,
    namespace: Seq<char>,
    fallback: RegistryConfig,
) -> RegistryConfig
    decreases entries.len(),
{
    if entries.len() == 0 {
        fallback
    } else if entries[0].0@ == namespace {
        entries[0].1
    } else {
        lookup(entries.drop_first(), namespace, fallback)
    }
}

impl Config {
    /// Each namespace has at most one entry.
    pub open spec fn wf(&self) -> bool {
        forall|i: int, j: int|
            0 <= i < j < self.namespaces@.len() ==> self.namespaces@[i].0@
                != self.namespaces@[j].0@
    }

    /// The registry config that serves `namespace`.
    pub open spec fn spec_resolve(&self, namespace: Seq<char>) -> RegistryConfig {
        lookup(self.namespaces@, namespace, self.default_config)
    }

    /// Returns the registry config for `namespace`: its own entry, or the
    /// default config when it has none.
    pub fn resolve(&self, namespace: &str) -> (r: &RegistryConfig)
        ensures
            *r == self.spec_resolve(namespace@),
    {
        let n = self.namespaces.len();
        let mut i: usize = 0;
        assert(self.namespaces@.subrange(0, n as int) =~= self.namespaces@);
        while i < n
            invariant
                n == self.namespaces@.len(),
                i <= n,
                self.spec_resolve(namespace@) == lookup(
                    self.namespaces@.subrange(i as int, n as int),
                    namespace@,
                    self.default_config,
                ),
            decreases n - i,
        {
            let entry = &self.namespaces[i];
            assert(self.namespaces@.subrange(i as int, n as int).drop_first()
                =~= self.namespaces@.subrange(i + 1, n as int));
            if str_eq(entry.0.as_str(), namespace) {
                return &entry.1;
            }
            i = i + 1;
        }
        &self.default_config
    }
}

impl Config {
    /// Routes `namespace` to `config`, replacing the entry it had, if any.
    pub fn set_namespace(&mut self, namespace: String, config: RegistryConfig)
        ensures
            final(self).default_namespace == old(self).default_namespace,
            final(self).default_config == old(self).default_config,
            old(self).wf() ==> final(self).wf(),
            forall|k: Seq<char>|
                #[trigger] final(self).spec_resolve(k) == if k == namespace@ {
                    config
                } else {
                    old(self).spec_resolve(k)
                },
    {
        let n = self.namespaces.len();
        let mut i: usize = 0;
        while i < n
            invariant
                n == self.namespaces@.len(),
                i <= n,
                *self == *old(self),
                forall|j: int| 0 <= j < i ==> self.namespaces@[j].0@ != namespace@,
            decreases n - i,
        {
            if str_eq(self.namespaces[i].0.as_str(), namespace.as_str()) {
                let ghost before = self.namespaces@;
                let ghost key = namespace@;
                self.namespaces.set(i, (namespace, config));
                proof {
                    assert forall|k: Seq<char>| #[trigger]
                        lookup(self.namespaces@, k, self.default_config) == if k == key {
                            config
                        } else {
                            lookup(before, k, self.default_config)
                        } by {
                        lemma_lookup_replaced(before, i as int, (self.namespaces@[i as int].0, config), k, self.default_config);
                    }
                }
                return;
            }
            i = i + 1;
        }
        let ghost before = self.namespaces@;
        let ghost key = namespace@;
        self.namespaces.push((namespace, config));
        proof {
            assert forall|k: Seq<char>| #[trigger]
                lookup(self.namespaces@, k, self.default_config) == if k == key {
                    config
                } else {
                    lookup(before, k, self.default_config)
                } by {
                lemma_lookup_pushed(before, (self.namespaces@.last().0, config), k, self.default_config);
            }
        }
    }
}

/// Replacing the first entry for a namespace changes what that namespace
/// resolves to, and nothing else.
proof fn lemma_lookup_replaced(
    entries: Seq<(String, RegistryConfig)>,
    i: int,
    entry: (String, RegistryConfig),
    k: Seq<char>,
    fallback: RegistryConfig,
)
    requires
        0 <= i < entries.len(),
        entries[i].0@ == entry.0@,
        forall|j: int| 0 <= j < i ==> entries[j].0@ != entry.0@,
    ensures
        lookup(entries.update(i, entry), k, fallback) == if k == entry.0@ {
            entry.1
        } else {
            lookup(entries, k, fallback)
        },
    decreases entries.len(),
{
    let updated = entries.update(i, entry);
    if i == 0 {
        assert(updated[0] == entry);
        assert(updated.drop_first() =~= entries.drop_first());
    } else {
        assert(updated[0] == entries[0]);
        assert(updated.drop_first() =~= entries.drop_first().update(i - 1, entry));
        assert(entries[0].0@ != entry.0@);
        assert forall|j: int| 0 <= j < i - 1 implies entries.drop_first()[j].0@ != entry.0@ by {
            assert(entries.drop_first()[j] == entries[j + 1]);
        }
        lemma_lookup_replaced(entries.drop_first(), i - 1, entry, k, fallback);
    }
}

/// Appending an entry for a namespace without one routes that namespace to it,
/// and nothing else changes.
proof fn lemma_lookup_pushed(
    entries: Seq<(String, RegistryConfig)>,
    entry: (String, RegistryConfig),
    k: Seq<char>,
    fallback: RegistryConfig,
)
    requires
        forall|j: int| 0 <= j < entries.len() ==> entries[j].0@ != entry.0@,
    ensures
        lookup(entries.push(entry), k, fallback) == if k == entry.0@ {
            entry.1
        } else {
            lookup(entries, k, fallback)
        },
    decreases entries.len(),
{
    let pushed = entries.push(entry);
    if entries.len() == 0 {
        assert(pushed[0] == entry);
        assert(pushed.drop_first() =~= entries);
    } else {
        assert(pushed[0] == entries[0]);
        assert(pushed.drop_first() =~= entries.drop_first().push(entry));
        assert forall|j: int| 0 <= j < entries.drop_first().len() implies entries.drop_first()[j].0@ != entry.0@ by {
            assert(entries.drop_first()[j] == entries[j + 1]);
        }
        lemma_lookup_pushed(entries.drop_first(), entry, k, fallback);
    }
}

/// A namespace without an entry of its own resolves to the default config.
pub proof fn lemma_absent_namespace_is_default(config: Config, namespace: Seq<char>)
    requires
        forall|i: int| 0 <= i < config.namespaces@.len() ==> config.namespaces@[i].0@ != namespace,
    ensures
        config.spec_resolve(namespace) == config.default_config,
{
    lemma_lookup_absent(config.namespaces@, namespace, config.default_config);
}

proof fn lemma_lookup_absent(
    entries: Seq<(String, RegistryConfig)>,
    namespace: Seq<char>,
    fallback: RegistryConfig,
)
    requires
        forall|i: int| 0 <= i < entries.len() ==> entries[i].0@ != namespace,
    ensures
        lookup(entries, namespace, fallback) == fallback,
    decreases entries.len(),
{
    if entries.len() > 0 {
        assert(entries[0].0@ != namespace);
        let rest = entries.drop_first();
        assert forall|i: int| 0 <= i < rest.len() implies rest[i].0@ != namespace by {
            assert(rest[i] == entries[i + 1]);
        }
        lemma_lookup_absent(rest, namespace, fallback);
    }
}

/// In a well-formed config, a namespace with an entry resolves to that entry.
pub proof fn lemma_present_namespace(config: Config, i: int)
    requires
        config.wf(),
        0 <= i < config.namespaces@.len(),
    ensures
        config.spec_resolve(config.namespaces@[i].0@) == config.namespaces@[i].1,
{
    lemma_lookup_present(config.namespaces@, i, config.default_config);
}

proof fn lemma_lookup_present(entries: Seq<(String, RegistryConfig)>, i: int, fallback: RegistryConfig)
    requires
        0 <= i < entries.len(),
        forall|a: int, b: int| 0 <= a < b < entries.len() ==> entries[a].0@ != entries[b].0@,
    ensures
        lookup(entries, entries[i].0@, fallback) == entries[i].1,
    decreases entries.len(),
{
    if i > 0 {
        let rest = entries.drop_first();
        assert(rest[i - 1] == entries[i]);
        assert(entries[0].0@ != entries[i].0@);
        assert forall|a: int, b: int| 0 <= a < b < rest.len() implies rest[a].0@ != rest[b].0@ by {
            assert(rest[a] == entries[a + 1] && rest[b] == entries[b + 1]);
        }
        lemma_lookup_present(rest, i - 1, fallback);
    }
}

} // verus!
