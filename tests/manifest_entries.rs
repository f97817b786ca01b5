use wasm_pkg_deps::config::RegistryConfig;
use wasm_pkg_deps::manifest::{
    artifact_reference, effective_config, kebab_from_lower, kebab_name, manifest_entry,
    package_namespace, set_manifest_entry, WitManifest,
    reference_with_name, DependencyConfig, ManifestEntry,
};
use wasm_pkg_deps::Config;

fn bare(version: &str) -> DependencyConfig {
    DependencyConfig {
        version: version.to_string(),
        registry: None,
        protocol: None,
        registry_subpath: None,
        package_name: None,
    }
}

#[test]
fn bare_version_normalizes_like_structured() {
    let a = ManifestEntry::Version("0.2.0".to_string()).normalize();
    let b = ManifestEntry::Config(bare("0.2.0")).normalize();
    for d in [a, b] {
        assert_eq!(d.version, "0.2.0");
        assert!(d.registry.is_none() && d.protocol.is_none());
        assert!(d.registry_subpath.is_none() && d.package_name.is_none());
    }
}

#[test]
fn structured_entry_normalizes_to_itself() {
    let mut d = bare("1.0.0");
    d.package_name = Some("renamed".to_string());
    let n = ManifestEntry::Config(d).normalize();
    assert_eq!(n.package_name.as_deref(), Some("renamed"));
}

#[test]
fn namespace_is_text_before_colon() {
    assert_eq!(package_namespace("wasi:http"), "wasi");
    assert_eq!(package_namespace("plain"), "plain");
    assert_eq!(package_namespace(":x"), "");
    assert_eq!(package_namespace("a:b:c"), "a");
}

#[test]
fn kebab_names() {
    assert_eq!(kebab_from_lower("wasi:http"), "wasi-http");
    assert_eq!(kebab_from_lower("my_ns:some_pkg"), "my-ns-some-pkg");
    assert_eq!(kebab_name("wasi:http"), "wasi-http");
    assert_eq!(kebab_name("WASI:Http_Types"), "wasi-http-types");
}

#[test]
fn references() {
    let c = Config::default();
    let reg = effective_config(&c, "wasi:http", &bare("0.2.0"));
    assert_eq!(
        artifact_reference(&reg, "wasi:http", &bare("0.2.0")),
        "ghcr.io/WebAssembly/wasi-http:0.2.0"
    );
    let no_sub = RegistryConfig {
        registry: "localhost:5000".to_string(),
        protocol: None,
        registry_subpath: None,
        auth: None,
    };
    assert_eq!(reference_with_name(&no_sub, "pkg", "1.2.3"), "localhost:5000/pkg:1.2.3");
    let mut d = bare("1.0.0");
    d.package_name = Some("my-wasi-http".to_string());
    d.registry_subpath = Some("my/subpath".to_string());
    let reg = effective_config(&c, "wasi:http", &d);
    assert_eq!(artifact_reference(&reg, "wasi:http", &d), "ghcr.io/my/subpath/my-wasi-http:1.0.0");
}

#[test]
fn overrides_win_over_namespace_config() {
    let mut c = Config::default();
    c.namespaces.push((
        "my".to_string(),
        RegistryConfig {
            registry: "example.com".to_string(),
            protocol: Some("http".to_string()),
            registry_subpath: Some("base".to_string()),
            auth: None,
        },
    ));
    let r = effective_config(&c, "my:pkg", &bare("1.0.0"));
    assert_eq!(r.registry, "example.com");
    assert_eq!(r.protocol.as_deref(), Some("http"));
    assert_eq!(r.registry_subpath.as_deref(), Some("base"));
    let mut d = bare("1.0.0");
    d.registry = Some("other.io".to_string());
    d.protocol = Some("https".to_string());
    let r = effective_config(&c, "my:pkg", &d);
    assert_eq!(r.registry, "other.io");
    assert_eq!(r.protocol.as_deref(), Some("https"));
    assert_eq!(r.registry_subpath.as_deref(), Some("base"));
    let r = effective_config(&c, "wasi:io", &d);
    assert_eq!(r.registry_subpath.as_deref(), Some("WebAssembly"));
}

#[test]
fn manifest_lookup_and_replace() {
    let mut m: WitManifest = Vec::new();
    assert!(manifest_entry(&m, "wasi:http").is_none());
    set_manifest_entry(&mut m, "wasi:http".to_string(), ManifestEntry::Version("0.2.0".to_string()));
    set_manifest_entry(&mut m, "wasi:io".to_string(), ManifestEntry::Config(bare("0.2.1")));
    assert_eq!(m.len(), 2);
    match manifest_entry(&m, "wasi:io") {
        Some(e) => assert_eq!(e.normalize().version, "0.2.1"),
        None => panic!("missing entry"),
    }
    set_manifest_entry(&mut m, "wasi:http".to_string(), ManifestEntry::Version("0.3.0".to_string()));
    assert_eq!(m.len(), 2);
    match manifest_entry(&m, "wasi:http") {
        Some(e) => assert_eq!(e.normalize().version, "0.3.0"),
        None => panic!("missing entry"),
    }
    assert!(manifest_entry(&m, "wasi").is_none());
}
