use oci_distribution::client::ClientProtocol;
use oci_distribution::secrets::RegistryAuth;
use wasm_pkg_deps::config::{Auth, RegistryConfig, DEFAULT_REGISTRY, DEFAULT_REGISTRY_SUBPATH};
use wasm_pkg_deps::{Config, DepsClient};

fn registry(host: &str, protocol: Option<&str>) -> RegistryConfig {
    RegistryConfig {
        registry: host.to_string(),
        protocol: protocol.map(|p| p.to_string()),
        registry_subpath: None,
        auth: None,
    }
}

#[test]
fn http_protocol_selects_http() {
    assert_eq!(registry("localhost:5000", Some("http")).client_protocol(), ClientProtocol::Http);
}

#[test]
fn unknown_protocols_select_https() {
    let https = registry("r", Some("https")).client_protocol();
    assert_eq!(https, ClientProtocol::Https);
    for p in [Some("ftp"), Some(""), Some("HTTP"), Some("http "), None] {
        assert_eq!(registry("r", p).client_protocol(), https);
    }
}

#[test]
fn registry_auth_is_basic_or_anonymous() {
    let mut c = registry("r", None);
    assert_eq!(c.registry_auth(), RegistryAuth::Anonymous);
    c.auth = Some(Auth { username: "alice".to_string(), password: "secret".to_string() });
    assert_eq!(
        c.registry_auth(),
        RegistryAuth::Basic("alice".to_string(), "secret".to_string())
    );
    let (_client, auth) = c.get_client();
    assert_eq!(auth, RegistryAuth::Basic("alice".to_string(), "secret".to_string()));
}

#[test]
fn defaults() {
    let c = Config::default();
    assert_eq!(c.default_namespace, "wasi");
    assert_eq!(c.default_config.registry, DEFAULT_REGISTRY);
    assert_eq!(c.default_config.registry, "ghcr.io");
    assert_eq!(c.default_config.registry_subpath.as_deref(), Some(DEFAULT_REGISTRY_SUBPATH));
    assert_eq!(c.default_config.registry_subpath.as_deref(), Some("WebAssembly"));
    assert!(c.default_config.protocol.is_none());
    assert!(c.default_config.auth.is_none());
    assert!(c.namespaces.is_empty());
    let a = Auth::default();
    assert!(a.username.is_empty() && a.password.is_empty());
}

#[test]
fn absent_namespace_resolves_to_default() {
    let mut c = Config::default();
    c.namespaces.push(("my".to_string(), registry("example.com", Some("http"))));
    assert_eq!(c.resolve("wasi").registry, "ghcr.io");
    assert_eq!(c.resolve("").registry, "ghcr.io");
    assert_eq!(c.resolve("m").registry, "ghcr.io");
    assert_eq!(c.resolve("mine").registry, "ghcr.io");
}

#[test]
fn present_namespace_resolves_to_its_entry() {
    let mut c = Config::default();
    c.namespaces.push(("my".to_string(), registry("example.com", Some("http"))));
    c.namespaces.push(("other".to_string(), registry("other.io", None)));
    assert_eq!(c.resolve("my").registry, "example.com");
    assert_eq!(c.resolve("other").registry, "other.io");
    let copy = c.clone();
    assert_eq!(copy.resolve("other").registry, "other.io");
    assert_eq!(copy.namespaces.len(), 2);
}

#[test]
fn deps_client_uses_default_config_credentials() {
    let client = DepsClient::default();
    assert_eq!(*client.default_auth(), RegistryAuth::Anonymous);
    assert_eq!(client.config().default_namespace, "wasi");
    assert_eq!(client.config().default_config.registry, "ghcr.io");
    assert_eq!(client.config().default_config.registry_subpath.as_deref(), Some("WebAssembly"));
    assert!(client.config().default_config.protocol.is_none());
    assert!(client.config().namespaces.is_empty());
    let _default_client = client.default_client();
    let mut c = Config::default();
    c.default_config.auth = Some(Auth { username: "u".to_string(), password: "p".to_string() });
    let client = DepsClient::new(c);
    assert_eq!(
        *client.default_auth(),
        RegistryAuth::Basic("u".to_string(), "p".to_string())
    );
}

#[test]
fn set_namespace_adds_and_replaces() {
    let mut c = Config::default();
    c.set_namespace("my".to_string(), registry("example.com", None));
    c.set_namespace("other".to_string(), registry("other.io", None));
    assert_eq!(c.namespaces.len(), 2);
    assert_eq!(c.resolve("my").registry, "example.com");
    c.set_namespace("my".to_string(), registry("replaced.io", Some("http")));
    assert_eq!(c.namespaces.len(), 2);
    assert_eq!(c.resolve("my").registry, "replaced.io");
    assert_eq!(c.resolve("my").client_protocol(), ClientProtocol::Http);
    assert_eq!(c.resolve("other").registry, "other.io");
    assert_eq!(c.resolve("wasi").registry, "ghcr.io");
}
