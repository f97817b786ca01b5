//! The dependency manifest: which packages to pull, at which versions, with
//! optional per-package overrides.
use vstd::prelude::*;
use crate::config::{clone_opt_string, Config, RegistryConfig};
use crate::text::{replace_char, replaced, str_eq};

verus! {

/// A dependency with additional config.
pub struct DependencyConfig {
    /// The version of the dependency
    pub version: String,
    /// The registry to use for pulling dependencies
    pub registry: Option<String>,
    /// The protocol to use: "http" selects plain http, anything else selects https
    pub protocol: Option<String>,
    /// The path between the registry host and the artifact name, without leading
    /// or trailing slashes
    pub registry_subpath: Option<String>,
    /// A package name to pull instead of the kebab case form of the manifest key;
    /// it is appended to the registry subpath
    pub package_name: Option<String>,
}

impl Clone for DependencyConfig {
    fn clone(&self) -> (r: Self)
        ensures
            r == *self,
    {
        DependencyConfig {
            version: self.version.clone(),
            registry: clone_opt_string(&self.registry),
            protocol: clone_opt_string(&self.protocol),
            registry_subpath: clone_opt_string(&self.registry_subpath),
            package_name: clone_opt_string(&self.package_name),
        }
    }
}

/// A single entry in the dependency manifest
pub enum ManifestEntry {
    /// Dependency version, without any additional config
    Version(String),
    /// A dependency with additional config
    Config(DependencyConfig),
}

/// The structured entry that a bare version stands for: that version, and no
/// overrides.
pub open spec fn version_only(version: String) -> DependencyConfig {
    DependencyConfig {
        version,
        registry: None,
        protocol: None,
        registry_subpath: None,
        package_name: None,
    }
}

impl ManifestEntry {
    /// The structured form of this entry.
    pub open spec fn spec_normalize(&self) -> DependencyConfig {
        match self {
            ManifestEntry::Version(v) => version_only(*v),
            ManifestEntry::Config(c) => *c,
        }
    }

    /// Returns the structured form of this entry: a bare version becomes an
    /// entry with that version and no overrides.
    pub fn normalize(&self) -> (r: DependencyConfig)
        ensures
            r == self.spec_normalize(),
    {
        match self {
            ManifestEntry::Version(v) => DependencyConfig {
                version: v.clone(),
                registry: None,
                protocol: None,
                registry_subpath: None,
                package_name: None,
            },
            ManifestEntry::Config(c) => c.clone(),
        }
    }
}

/// A bare version string and the structured entry with only that version set
/// normalize to the same entry.
pub proof fn lemma_bare_version_normalizes(version: String, structured: DependencyConfig)
    requires
        structured.version == version,
        structured.registry is None,
        structured.protocol is None,
        structured.registry_subpath is None,
        structured.package_name is None,
    ensures
        ManifestEntry::Version(version).spec_normalize() == ManifestEntry::Config(
            structured,
        ).spec_normalize(),
{
}

/// The characters of `s` after lowering their case, as `str::to_lowercase` gives them.
pub uninterp spec fn lower_of(s: Seq<char>) -> Seq<char>;

/// Relies on std's str::to_lowercase: the result depends on the characters of
/// `s` alone, and an empty string stays empty.
#[verifier::external_body]
fn lowercase(s: &str) -> (r: String)
    ensures
        r@ == lower_of(s@),
        s@.len() == 0 ==> r@.len() == 0,
{
    s.to_lowercase()
}

/// The position of the first `:` in `s`, or its length when it has none.
pub open spec fn colon_index(s: Seq<char>) -> nat
    decreases s.len(),
{
    if s.len() == 0 {
        0
    } else if s[0] == ':' {
        0
    } else {
        1 + colon_index(s.drop_first())
    }
}

/// The namespace of a package name: the part before the first `:`.
pub open spec fn namespace_of(package: Seq<char>) -> Seq<char> {
    package.subrange(0, colon_index(package) as int)
}

proof fn lemma_colon_index(s: Seq<char>, i: int)
    requires
        0 <= i <= s.len(),
        forall|j: int| 0 <= j < i ==> s[j] != ':',
        i == s.len() || s[i] == ':',
    ensures
        colon_index(s) == i,
    decreases s.len(),
{
    if s.len() > 0 && s[0] != ':' {
        let rest = s.drop_first();
        assert forall|j: int| 0 <= j < i - 1 implies rest[j] != ':' by {
            assert(rest[j] == s[j + 1]);
        }
        if i < s.len() {
            assert(rest[i - 1] == s[i]);
        }
        lemma_colon_index(rest, i - 1);
    }
}

/// Returns the namespace of a package name (`wasi` for `wasi:http`).
pub fn package_namespace(package: &str) -> (r: &str)
    ensures
        r@ == namespace_of(package@),
{
    let n = package.unicode_len();
    let mut i: usize = 0;
    while i < n && package.get_char(i) != ':'
        invariant
            n == package@.len(),
            i <= n,
            forall|j: int| 0 <= j < i ==> package@[j] != ':',
        decreases n - i,
    {
        i = i + 1;
    }
    proof {
        lemma_colon_index(package@, i as int);
    }
    package.substring_char(0, i)
}

/// The artifact name for an already lower-cased package name: each `:` and
/// each `_` replaced by `-`.
pub open spec fn kebab_of_lower(lowered: Seq<char>) -> Seq<char> {
    replaced(replaced(lowered, ':', "-"@), '_', "-"@)
}

/// The artifact name of a package name: its kebab case form (`wasi-http` for
/// `wasi:http`).
pub open spec fn kebab_of(package: Seq<char>) -> Seq<char> {
    kebab_of_lower(lower_of(package))
}

/// Returns the artifact name for an already lower-cased package name.
pub fn kebab_from_lower(lowered: &str) -> (r: String)
    ensures
        r@ == kebab_of_lower(lowered@),
{
    let colons = replace_char(lowered, ':', "-");
    replace_char(colons.as_str(), '_', "-")
}

/// Returns the kebab case artifact name of a package name.
pub fn kebab_name(package: &str) -> (r: String)
    ensures
        r@ == kebab_of(package@),
{
    let lowered = lowercase(package);
    kebab_from_lower(lowered.as_str())
}

/// The value of an override when present, else the fallback.
pub open spec fn or_else(over: Option<String>, fallback: Option<String>) -> Option<String> {
    if over is Some {
        over
    } else {
        fallback
    }
}

fn clone_or_else(over: &Option<String>, fallback: &Option<String>) -> (r: Option<String>)
    ensures
        r == or_else(*over, *fallback),
{
    if over.is_some() {
        clone_opt_string(over)
    } else {
        clone_opt_string(fallback)
    }
}

/// The registry settings of a dependency: its own overrides where it has them,
/// else those of the config that serves its package's namespace; credentials
/// always come from that config.
pub open spec fn spec_effective_config(config: Config, package: Seq<char>, dep: DependencyConfig) -> RegistryConfig {
    let base = config.spec_resolve(namespace_of(package));
    RegistryConfig {
        registry: match dep.registry {
            Some(r) => r,
            None => base.registry,
        },
        protocol: or_else(dep.protocol, base.protocol),
        registry_subpath: or_else(dep.registry_subpath, base.registry_subpath),
        auth: base.auth,
    }
}

/// Returns the registry settings to pull the dependency `package` with.
pub fn effective_config(config: &Config, package: &str, dep: &DependencyConfig) -> (r: RegistryConfig)
    ensures
        r == spec_effective_config(*config, package@, *dep),
{
    let base = config.resolve(package_namespace(package));
    RegistryConfig {
        registry: match &dep.registry {
            Some(r) => r.clone(),
            None => base.registry.clone(),
        },
        protocol: clone_or_else(&dep.protocol, &base.protocol),
        registry_subpath: clone_or_else(&dep.registry_subpath, &base.registry_subpath),
        auth: match &base.auth {
            Some(a) => Some(a.clone()),
            None => None,
        },
    }
}

/// The full reference `registry/[subpath/]name:version`.
pub open spec fn reference_of(registry: RegistryConfig, name: Seq<char>, version: Seq<char>) -> Seq<char> {
    let prefix = registry.registry@ + "/"@;
    let with_subpath = match registry.registry_subpath {
        Some(sub) => prefix + sub@ + "/"@,
        None => prefix,
    };
    with_subpath + name + ":"@ + version
}

/// Returns the full reference of the artifact `name` at `version` in `registry`.
pub fn reference_with_name(registry: &RegistryConfig, name: &str, version: &str) -> (r: String)
    ensures
        r@ == reference_of(*registry, name@, version@),
{
    let mut r = registry.registry.clone();
    r.append("/");
    match &registry.registry_subpath {
        Some(sub) => {
            r.append(sub.as_str());
            r.append("/");
        },
        None => {},
    }
    r.append(name);
    r.append(":");
    r.append(version);
    r
}

/// The artifact name of a dependency: its package name override, else the
/// kebab case form of its manifest key.
pub open spec fn artifact_name_of(package: Seq<char>, dep: DependencyConfig) -> Seq<char> {
    match dep.package_name {
        Some(n) => n@,
        None => kebab_of(package),
    }
}

/// Returns the full reference to pull the dependency `package` from.
pub fn artifact_reference(registry: &RegistryConfig, package: &str, dep: &DependencyConfig) -> (r: String)
    ensures
        r@ == reference_of(*registry, artifact_name_of(package@, *dep), dep.version@),
{
    let name = match &dep.package_name {
        Some(n) => n.clone(),
        None => kebab_name(package),
    };
    reference_with_name(registry, name.as_str(), dep.version.as_str())
}

/// The dependency manifest: package names (`wasi:http`) and their entries.
/// Packages in the registry are named by the kebab case form of the package
/// name unless an entry overrides it, and versions are semver without a `v`.
pub type WitManifest = Vec<(String, ManifestEntry)>;

/// Each package name appears at most once in the manifest.
pub open spec fn manifest_wf(m: Seq<(String, ManifestEntry)>) -> bool {
    forall|i: int, j: int| 0 <= i < j < m.len() ==> m[i].0@ != m[j].0@
}

/// `i` is the first position of `package` in the manifest.
pub open spec fn first_entry_at(m: Seq<(String, ManifestEntry)>, package: Seq<char>, i: int) -> bool {
    &&& 0 <= i < m.len()
    &&& m[i].0@ == package
    &&& forall|j: int| 0 <= j < i ==> m[j].0@ != package
}

/// Returns the entry for `package`, if the manifest has one.
pub fn manifest_entry<'a>(manifest: &'a WitManifest, package: &str) -> (r: Option<&'a ManifestEntry>)
    ensures
        r is None <==> forall|i: int| 0 <= i < manifest@.len() ==> manifest@[i].0@ != package@,
        r is Some ==> exists|i: int|
            first_entry_at(manifest@, package@, i) && *r->0 == manifest@[i].1,
{
    let n = manifest.len();
    let mut i: usize = 0;
    while i < n
        invariant
            n == manifest@.len(),
            i <= n,
            forall|j: int| 0 <= j < i ==> manifest@[j].0@ != package@,
        decreases n - i,
    {
        if str_eq(manifest[i].0.as_str(), package) {
            assert(first_entry_at(manifest@, package@, i as int));
            return Some(&manifest[i].1);
        }
        i = i + 1;
    }
    None
}

/// Sets the entry for `package`, replacing the one it had, if any.
pub fn set_manifest_entry(manifest: &mut WitManifest, package: String, entry: ManifestEntry)
    ensures
        manifest_wf(old(manifest)@) ==> manifest_wf(final(manifest)@),
        (exists|i: int|
            first_entry_at(old(manifest)@, package@, i)
                && final(manifest)@ == old(manifest)@.update(i, (package, entry)))
            || ((forall|i: int| 0 <= i < old(manifest)@.len() ==> old(manifest)@[i].0@ != package@)
                && final(manifest)@ == old(manifest)@.push((package, entry))),
{
    let n = manifest.len();
    let mut i: usize = 0;
    while i < n
        invariant
            n == manifest@.len(),
            i <= n,
            *manifest == *old(manifest),
            forall|j: int| 0 <= j < i ==> manifest@[j].0@ != package@,
        decreases n - i,
    {
        if str_eq(manifest[i].0.as_str(), package.as_str()) {
            assert(first_entry_at(old(manifest)@, package@, i as int));
            manifest.set(i, (package, entry));
            return;
        }
        i = i + 1;
    }
    manifest.push((package, entry));
}

} // verus!
