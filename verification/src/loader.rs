//! The manifest loader: projects a manifest's declarative permission
//! sections into the capability model, assigns the trust level (a manifest
//! cannot self-assert first-party standing), checks a shipped signature
//! structurally, and caches loaded plugins by id.

use vstd::prelude::*;
use vstd::string::*;
use crate::capabilities::{
    CommandCapability, FilesystemCapability, NetworkCapability, PluginCapabilities,
    UiCapability,
};
use crate::smap::StrMap;
use crate::sset::StringSet;
use crate::text::{starts_with, str_eq, str_starts_with};
use crate::trust::{sig_well_formed, PluginSignature, TrustLevel};

verus! {

// ============================================================================
// ERRORS
// ============================================================================

/// Why a load fails.
#[derive(Debug)]
pub enum LoaderError {
    /// No manifest file exists for the id.
    ManifestNotFound(String),
    /// The manifest's declarative sections do not project.
    InvalidManifest(String),
    /// The id is not loaded.
    PluginNotFound(String),
    /// A declared dependency is not loaded.
    MissingDependency(String),
}

// ============================================================================
// THE RAW MANIFEST
// ============================================================================

/// The filesystem section as a manifest declares it.
pub enum RawFilesystem {
    /// One of the named levels.
    Level(String),
    /// A list of flag words, `read` and `write`.
    Flags(Vec<String>),
    /// Explicit path prefixes.
    Scoped { read: Vec<String>, write: Vec<String> },
}

/// The network section as a manifest declares it.
pub enum RawNetwork {
    /// One of the named levels.
    Level(String),
    /// An explicit domain allowlist.
    Allowlist(Vec<String>),
}

/// The command section as a manifest declares it.
pub struct RawCommands {
    pub allowlist: Vec<String>,
    pub require_confirmation: Option<bool>,
}

/// The UI section as a manifest declares it.
pub struct RawUi {
    pub status_bar: bool,
    pub sidebar: bool,
    pub notifications: bool,
    pub webview: bool,
}

/// One entry of the manifest's command-palette table.
pub struct RawCommandDecl {
    pub id: String,
    pub label: Option<String>,
    pub key: Option<String>,
    pub category: Option<String>,
}

/// A manifest as the declarative file states it, before projection.
pub struct RawManifest {
    pub name: String,
    pub version: String,
    pub description: String,
    pub author: String,
    pub license: String,
    pub entry_point: Option<String>,
    pub dependencies: Vec<String>,
    pub source: Option<String>,
    pub signature: Option<PluginSignature>,
    pub trust: Option<String>,
    pub filesystem: Option<RawFilesystem>,
    pub network: Option<RawNetwork>,
    pub commands: Option<RawCommands>,
    pub ui: Option<RawUi>,
    pub command_decls: Vec<RawCommandDecl>,
}

// ============================================================================
// TRUST ASSIGNMENT
// ============================================================================

/// The trust a loaded plugin is assigned: the roster decides first-party
/// standing, a `file://` source makes a local plugin, a declared
/// `verified` or `local` is kept, and anything else, a self-asserted
/// `first-party` included, is demoted to `community`.
pub open spec fn spec_assign_trust(
    declared: Option<String>,
    in_roster: bool,
    source: Option<String>,
) -> TrustLevel {
    if in_roster {
        TrustLevel::FirstParty
    } else if (source matches Option::Some(s) && starts_with(s@, "file://"@)) {
        TrustLevel::Local
    } else if (declared matches Option::Some(d) && d@ == "verified"@) {
        TrustLevel::Verified
    } else if (declared matches Option::Some(d) && d@ == "local"@) {
        TrustLevel::Local
    } else {
        TrustLevel::Community
    }
}

/// Assigns the trust level from the declaration, the roster and the source.
pub fn assign_trust(
    declared: &Option<String>,
    in_roster: bool,
    source: &Option<String>,
) -> (r: TrustLevel)
    ensures
        r == spec_assign_trust(*declared, in_roster, *source),
{
    if in_roster {
        return TrustLevel::FirstParty;
    }
    match source {
        Option::Some(s) => {
            if str_starts_with(s.as_str(), "file://") {
                return TrustLevel::Local;
            }
        }
        Option::None => {}
    }
    match declared {
        Option::Some(d) => {
            if str_eq(d.as_str(), "verified") {
                TrustLevel::Verified
            } else if str_eq(d.as_str(), "local") {
                TrustLevel::Local
            } else {
                TrustLevel::Community
            }
        }
        Option::None => TrustLevel::Community,
    }
}

// ============================================================================
// PERMISSION PROJECTION
// ============================================================================

/// Whether every flag word is `read` or `write`.
pub open spec fn fs_flags_valid(v: Seq<String>) -> bool {
    forall|i: int| 0 <= i < v.len() ==> (#[trigger] v[i])@ == "read"@ || v[i]@ == "write"@
}

/// Whether the flag list holds the given word.
pub open spec fn flags_have(v: Seq<String>, w: Seq<char>) -> bool {
    exists|i: int| 0 <= i < v.len() && (#[trigger] v[i])@ == w
}

/// Whether the declared filesystem section is recognizable.
pub open spec fn fs_raw_valid(raw: Option<RawFilesystem>) -> bool {
    match raw {
        Option::None => true,
        Option::Some(RawFilesystem::Level(s)) => s@ == "None"@ || s@ == "WorkspaceRead"@
            || s@ == "WorkspaceReadWrite"@,
        Option::Some(RawFilesystem::Flags(v)) => fs_flags_valid(v@),
        Option::Some(RawFilesystem::Scoped { .. }) => true,
    }
}

/// What the declared filesystem section projects to.
pub open spec fn fs_projected(raw: Option<RawFilesystem>, f: FilesystemCapability) -> bool {
    match raw {
        Option::None => f is NoAccess,
        Option::Some(RawFilesystem::Level(s)) => if s@ == "None"@ {
            f is NoAccess
        } else if s@ == "WorkspaceRead"@ {
            f is WorkspaceRead
        } else {
            f is WorkspaceReadWrite
        },
        Option::Some(RawFilesystem::Flags(v)) => if flags_have(v@, "write"@) {
            f is WorkspaceReadWrite
        } else if flags_have(v@, "read"@) {
            f is WorkspaceRead
        } else {
            f is NoAccess
        },
        Option::Some(RawFilesystem::Scoped { read, write }) => (f matches
            FilesystemCapability::Scoped { read: fr, write: fw } && fr@ == read@.map_values(
                |s: String| s@,
            ).to_set() && fw@ == write@.map_values(|s: String| s@).to_set()),
    }
}

/// Whether a vector of strings holds one with the given view.
fn vec_contains_str(v: &Vec<String>, s: &str) -> (r: bool)
    ensures
        r == flags_have(v@, s@),
{
    let n = v.len();
    let mut i: usize = 0;
    while i < n
        invariant
            i <= n,
            n == v@.len(),
            forall|j: int| 0 <= j < i ==> (#[trigger] v@[j])@ != s@,
        decreases n - i,
    {
        if str_eq(v[i].as_str(), s) {
            assert(flags_have(v@, s@));
            return true;
        }
        i += 1;
    }
    false
}

/// Projects the declared filesystem section into a capability.
pub fn project_filesystem(raw: Option<RawFilesystem>) -> (r: Result<
    FilesystemCapability,
    LoaderError,
>)
    ensures
        match r {
            Ok(f) => fs_raw_valid(raw) && fs_projected(raw, f),
            Err(e) => !fs_raw_valid(raw) && e is InvalidManifest,
        },
{
    match raw {
        Option::None => Ok(FilesystemCapability::NoAccess),
        Option::Some(RawFilesystem::Level(s)) => {
            if str_eq(s.as_str(), "None") {
                Ok(FilesystemCapability::NoAccess)
            } else if str_eq(s.as_str(), "WorkspaceRead") {
                Ok(FilesystemCapability::WorkspaceRead)
            } else if str_eq(s.as_str(), "WorkspaceReadWrite") {
                Ok(FilesystemCapability::WorkspaceReadWrite)
            } else {
                assert(!fs_raw_valid(raw));
                Err(LoaderError::InvalidManifest(s))
            }
        }
        Option::Some(RawFilesystem::Flags(v)) => {
            let n = v.len();
            let mut i: usize = 0;
            while i < n
                invariant
                    i <= n,
                    n == v@.len(),
                    raw == Option::Some(RawFilesystem::Flags(v)),
                    forall|j: int|
                        0 <= j < i ==> (#[trigger] v@[j])@ == "read"@ || v@[j]@ == "write"@,
                decreases n - i,
            {
                if !str_eq(v[i].as_str(), "read") && !str_eq(v[i].as_str(), "write") {
                    let w = v[i].clone();
                    assert(v@[i as int]@ != "read"@ && v@[i as int]@ != "write"@);
                    assert(!fs_raw_valid(raw));
                    return Err(LoaderError::InvalidManifest(w));
                }
                i += 1;
            }
            if vec_contains_str(&v, "write") {
                Ok(FilesystemCapability::WorkspaceReadWrite)
            } else if vec_contains_str(&v, "read") {
                Ok(FilesystemCapability::WorkspaceRead)
            } else {
                Ok(FilesystemCapability::NoAccess)
            }
        }
        Option::Some(RawFilesystem::Scoped { read, write }) => Ok(
            FilesystemCapability::Scoped {
                read: StringSet::from_vec(read),
                write: StringSet::from_vec(write),
            },
        ),
    }
}

/// Whether the declared network section is recognizable.
pub open spec fn net_raw_valid(raw: Option<RawNetwork>) -> bool {
    match raw {
        Option::None => true,
        Option::Some(RawNetwork::Level(s)) => s@ == "None"@ || s@ == "Unrestricted"@,
        Option::Some(RawNetwork::Allowlist(_)) => true,
    }
}

/// What the declared network section projects to.
pub open spec fn net_projected(raw: Option<RawNetwork>, n: NetworkCapability) -> bool {
    match raw {
        Option::None => n is NoAccess,
        Option::Some(RawNetwork::Level(s)) => if s@ == "None"@ {
            n is NoAccess
        } else {
            n is Unrestricted
        },
        Option::Some(RawNetwork::Allowlist(v)) => (n matches NetworkCapability::DomainAllowlist(
            d,
        ) && d@ == v@.map_values(|s: String| s@).to_set()),
    }
}

/// Projects the declared network section into a capability.
pub fn project_network(raw: Option<RawNetwork>) -> (r: Result<NetworkCapability, LoaderError>)
    ensures
        match r {
            Ok(n) => net_raw_valid(raw) && net_projected(raw, n),
            Err(e) => !net_raw_valid(raw) && e is InvalidManifest,
        },
{
    match raw {
        Option::None => Ok(NetworkCapability::NoAccess),
        Option::Some(RawNetwork::Level(s)) => {
            if str_eq(s.as_str(), "None") {
                Ok(NetworkCapability::NoAccess)
            } else if str_eq(s.as_str(), "Unrestricted") {
                Ok(NetworkCapability::Unrestricted)
            } else {
                Err(LoaderError::InvalidManifest(s))
            }
        }
        Option::Some(RawNetwork::Allowlist(v)) => Ok(
            NetworkCapability::DomainAllowlist(StringSet::from_vec(v)),
        ),
    }
}

/// What the declared command section projects to; a missing section keeps
/// the confirmation requirement.
pub open spec fn cmd_projected(raw: Option<RawCommands>, c: CommandCapability) -> bool {
    match raw {
        Option::None => c.allowlist@ == Set::<Seq<char>>::empty() && c.require_confirmation
            == true,
        Option::Some(rc) => c.allowlist@ == rc.allowlist@.map_values(|s: String| s@).to_set()
            && c.require_confirmation == (match rc.require_confirmation {
            Option::Some(b) => b,
            Option::None => true,
        }),
    }
}

/// Projects the declared command section into a capability.
pub fn project_commands(raw: Option<RawCommands>) -> (r: CommandCapability)
    ensures
        cmd_projected(raw, r),
{
    match raw {
        Option::None => CommandCapability::new_default(),
        Option::Some(rc) => {
            let require_confirmation = match rc.require_confirmation {
                Option::Some(b) => b,
                Option::None => true,
            };
            CommandCapability {
                allowlist: StringSet::from_vec(rc.allowlist),
                require_confirmation,
            }
        }
    }
}

/// What the declared UI section projects to.
pub open spec fn ui_projected(raw: Option<RawUi>, u: UiCapability) -> bool {
    match raw {
        Option::None => !u.status_bar && !u.sidebar && !u.notifications && !u.webview,
        Option::Some(r) => u.status_bar == r.status_bar && u.sidebar == r.sidebar
            && u.notifications == r.notifications && u.webview == r.webview,
    }
}

/// Projects the declared UI section into a capability.
pub fn project_ui(raw: Option<RawUi>) -> (r: UiCapability)
    ensures
        ui_projected(raw, r),
{
    match raw {
        Option::None => UiCapability::none(),
        Option::Some(u) => UiCapability {
            status_bar: u.status_bar,
            sidebar: u.sidebar,
            notifications: u.notifications,
            webview: u.webview,
        },
    }
}

// ============================================================================
// THE MANIFEST
// ============================================================================

/// A loaded manifest: the declarative fields with the derived capability
/// set and the assigned trust level.
pub struct PluginManifest {
    pub name: String,
    pub version: String,
    pub description: String,
    pub author: String,
    pub license: String,
    pub entry_point: String,
    pub capabilities: PluginCapabilities,
    pub dependencies: Vec<String>,
    pub source: String,
    pub signature: Option<PluginSignature>,
    pub trust: TrustLevel,
    pub command_decls: Vec<RawCommandDecl>,
}

/// A loaded plugin: its manifest, its directory, and when it was loaded.
pub struct PluginInfo {
    pub manifest: PluginManifest,
    pub path: String,
    pub loaded_at_secs: u64,
}

/// The same plugin record with only the capability set replaced.
pub open spec fn same_but_capabilities(
    a: &PluginInfo,
    b: &PluginInfo,
    capabilities: PluginCapabilities,
) -> bool {
    &&& b.manifest.capabilities == capabilities
    &&& b.manifest.name == a.manifest.name
    &&& b.manifest.version == a.manifest.version
    &&& b.manifest.description == a.manifest.description
    &&& b.manifest.author == a.manifest.author
    &&& b.manifest.license == a.manifest.license
    &&& b.manifest.entry_point == a.manifest.entry_point
    &&& b.manifest.dependencies == a.manifest.dependencies
    &&& b.manifest.source == a.manifest.source
    &&& b.manifest.signature == a.manifest.signature
    &&& b.manifest.trust == a.manifest.trust
    &&& b.manifest.command_decls == a.manifest.command_decls
    &&& b.path == a.path
    &&& b.loaded_at_secs == a.loaded_at_secs
}

/// Everything `load_manifest` promises of a produced manifest, next to the
/// raw declaration it came from.
pub open spec fn manifest_projection_ok(
    raw: &RawManifest,
    in_roster: bool,
    m: &PluginManifest,
) -> bool {
    &&& m.name@ == raw.name@
    &&& m.version@ == raw.version@
    &&& m.description@ == raw.description@
    &&& m.author@ == raw.author@
    &&& m.license@ == raw.license@
    &&& (match raw.entry_point {
        Option::Some(e) => m.entry_point@ == e@,
        Option::None => m.entry_point@ == "main.js"@,
    })
    &&& m.dependencies@ == raw.dependencies@
    &&& (match raw.source {
        Option::Some(s) => m.source@ == s@,
        Option::None => m.source@ == Seq::<char>::empty(),
    })
    &&& m.trust == spec_assign_trust(raw.trust, in_roster, raw.source)
    &&& fs_projected(raw.filesystem, m.capabilities.filesystem)
    &&& net_projected(raw.network, m.capabilities.network)
    &&& cmd_projected(raw.commands, m.capabilities.commands)
    &&& ui_projected(raw.ui, m.capabilities.ui)
    &&& (match (raw.signature, m.signature) {
        (Option::Some(rs), Option::Some(ms)) => ms.public_key@ == rs.public_key@
            && ms.signature@ == rs.signature@ && ms.timestamp_secs == rs.timestamp_secs
            && sig_well_formed(&ms),
        (Option::None, Option::None) => true,
        _ => false,
    })
    &&& m.command_decls@ == raw.command_decls@
}

/// Whether the raw manifest can load at all: recognizable permission
/// sections, and any shipped signature structurally well formed.
pub open spec fn raw_manifest_ok(raw: &RawManifest) -> bool {
    &&& fs_raw_valid(raw.filesystem)
    &&& net_raw_valid(raw.network)
    &&& (match raw.signature {
        Option::Some(s) => sig_well_formed(&s),
        Option::None => true,
    })
}

// ============================================================================
// THE LOADER
// ============================================================================

/// Loads manifests and caches them by plugin id; holds the built-in
/// first-party roster.
pub struct PluginLoader {
    plugins_dir: String,
    plugins: StrMap<PluginInfo>,
    first_party_plugins: StringSet,
}

impl PluginLoader {
    /// The loaded plugins by id.
    pub closed spec fn loaded(&self) -> Map<Seq<char>, PluginInfo> {
        self.plugins@
    }

    /// The first-party roster.
    pub closed spec fn roster(&self) -> Set<Seq<char>> {
        self.first_party_plugins@
    }

    /// A loader over a plugin directory, with the built-in roster.
    pub fn new(plugins_dir: String) -> (r: PluginLoader)
        ensures
            r.loaded() == Map::<Seq<char>, PluginInfo>::empty(),
            r.roster() == Set::<Seq<char>>::empty().insert("git"@).insert("git-status"@),
    {
        let mut first_party_plugins = StringSet::new();
        first_party_plugins.insert(String::from_str("git"));
        first_party_plugins.insert(String::from_str("git-status"));
        PluginLoader { plugins_dir, plugins: StrMap::new(), first_party_plugins }
    }

    /// Whether the id is on the first-party roster.
    pub fn is_first_party(&self, plugin_id: &str) -> (r: bool)
        ensures
            r == self.roster().contains(plugin_id@),
    {
        self.first_party_plugins.contains(plugin_id)
    }

    /// Projects a raw manifest: derives the capability set, assigns trust
    /// per the roster and the source, and checks a shipped signature
    /// structurally. Fails exactly on an unrecognizable permission section
    /// or a malformed signature.
    pub fn load_manifest(&self, plugin_id: &str, raw: RawManifest) -> (r: Result<
        PluginManifest,
        LoaderError,
    >)
        ensures
            match r {
                Ok(m) => raw_manifest_ok(&raw) && manifest_projection_ok(
                    &raw,
                    self.roster().contains(plugin_id@),
                    &m,
                ),
                Err(e) => !raw_manifest_ok(&raw) && e is InvalidManifest,
            },
    {
        let in_roster = self.is_first_party(plugin_id);
        let RawManifest {
            name,
            version,
            description,
            author,
            license,
            entry_point,
            dependencies,
            source,
            signature,
            trust,
            filesystem,
            network,
            commands,
            ui,
            command_decls,
        } = raw;
        let assigned = assign_trust(&trust, in_roster, &source);
        let fs = match project_filesystem(filesystem) {
            Ok(f) => f,
            Err(e) => {
                return Err(e);
            }
        };
        let net = match project_network(network) {
            Ok(n) => n,
            Err(e) => {
                return Err(e);
            }
        };
        let cmd = project_commands(commands);
        let u = project_ui(ui);
        let signature = match signature {
            Option::Some(s) => {
                if !s.is_valid() {
                    return Err(LoaderError::InvalidManifest(s.public_key));
                }
                Option::Some(s)
            }
            Option::None => Option::None,
        };
        let entry_point = match entry_point {
            Option::Some(e) => e,
            Option::None => String::from_str("main.js"),
        };
        let source_str = match source {
            Option::Some(s) => s,
            Option::None => String::new(),
        };
        Ok(
            PluginManifest {
                name,
                version,
                description,
                author,
                license,
                entry_point,
                capabilities: PluginCapabilities {
                    filesystem: fs,
                    network: net,
                    commands: cmd,
                    ui: u,
                },
                dependencies,
                source: source_str,
                signature,
                trust: assigned,
                command_decls,
            },
        )
    }

    /// Loads a plugin: projects its manifest and caches it under the id,
    /// replacing any earlier entry, so a reload is the same call again.
    pub fn load(&mut self, plugin_id: &str, raw: RawManifest, path: String, now_secs: u64) ->
        (r: Result<(), LoaderError>)
        ensures
            match r {
                Ok(()) => {
                    &&& raw_manifest_ok(&raw)
                    &&& final(self).loaded().contains_key(plugin_id@)
                    &&& final(self).loaded() == old(self).loaded().insert(
                        plugin_id@,
                        final(self).loaded()[plugin_id@],
                    )
                    &&& manifest_projection_ok(
                        &raw,
                        old(self).roster().contains(plugin_id@),
                        &final(self).loaded()[plugin_id@].manifest,
                    )
                    &&& final(self).loaded()[plugin_id@].path@ == path@
                    &&& final(self).loaded()[plugin_id@].loaded_at_secs == now_secs
                },
                Err(e) => {
                    &&& !raw_manifest_ok(&raw)
                    &&& e is InvalidManifest
                    &&& final(self).loaded() == old(self).loaded()
                },
            },
            final(self).roster() == old(self).roster(),
    {
        let manifest = match self.load_manifest(plugin_id, raw) {
            Ok(m) => m,
            Err(e) => {
                return Err(e);
            }
        };
        let info = PluginInfo { manifest, path, loaded_at_secs: now_secs };
        self.plugins.insert(String::from_str(plugin_id), info);
        Ok(())
    }

    /// The number of cached entries; at least one per loaded id.
    pub closed spec fn spec_count(&self) -> usize {
        self.plugins.spec_entry_count()
    }

    /// The number of cached entries.
    pub fn entry_count(&self) -> (r: usize)
        ensures
            r == self.spec_count(),
    {
        self.plugins.entry_count()
    }

    /// Replaces a loaded plugin's capability set, leaving every other
    /// field alone; reports whether the id was loaded.
    pub fn set_capabilities(&mut self, plugin_id: &str, capabilities: PluginCapabilities) -> (r:
        bool)
        ensures
            r == old(self).loaded().contains_key(plugin_id@),
            final(self).roster() == old(self).roster(),
            r ==> {
                &&& final(self).loaded() == old(self).loaded().insert(
                    plugin_id@,
                    final(self).loaded()[plugin_id@],
                )
                &&& same_but_capabilities(
                    &old(self).loaded()[plugin_id@],
                    &final(self).loaded()[plugin_id@],
                    capabilities,
                )
            },
            !r ==> final(self).loaded() == old(self).loaded(),
    {
        let info = match self.plugins.take(plugin_id) {
            Some(info) => info,
            None => {
                return false;
            }
        };
        let PluginInfo { manifest, path, loaded_at_secs } = info;
        let PluginManifest {
            name,
            version,
            description,
            author,
            license,
            entry_point,
            capabilities: _,
            dependencies,
            source,
            signature,
            trust,
            command_decls,
        } = manifest;
        let updated = PluginInfo {
            manifest: PluginManifest {
                name,
                version,
                description,
                author,
                license,
                entry_point,
                capabilities,
                dependencies,
                source,
                signature,
                trust,
                command_decls,
            },
            path,
            loaded_at_secs,
        };
        self.plugins.insert(String::from_str(plugin_id), updated);
        proof {
            assert(self.loaded() =~= old(self).loaded().insert(
                plugin_id@,
                self.loaded()[plugin_id@],
            ));
        }
        true
    }

    /// The loaded plugin under an id.
    pub fn get(&self, plugin_id: &str) -> (r: Option<&PluginInfo>)
        ensures
            match r {
                Some(info) => self.loaded().contains_key(plugin_id@)
                    && *info == self.loaded()[plugin_id@],
                None => !self.loaded().contains_key(plugin_id@),
            },
    {
        self.plugins.get(plugin_id)
    }

    /// The loaded plugin ids; every loaded id occurs and every entry is
    /// loaded.
    pub fn get_all(&self) -> (r: Vec<String>)
        ensures
            forall|i: int|
                0 <= i < r@.len() ==> self.loaded().contains_key((#[trigger] r@[i])@),
            forall|x: Seq<char>| self.loaded().contains_key(x) ==> exists|i: int|
                0 <= i < r@.len() && (#[trigger] r@[i])@ == x,
    {
        self.plugins.keys()
    }

    /// Forgets a loaded plugin, reporting whether it was loaded.
    pub fn unload(&mut self, plugin_id: &str) -> (r: bool)
        ensures
            final(self).loaded() == old(self).loaded().remove(plugin_id@),
            r == old(self).loaded().contains_key(plugin_id@),
            final(self).roster() == old(self).roster(),
    {
        self.plugins.remove(plugin_id)
    }

    /// Requires every declared dependency of a loaded plugin to be loaded;
    /// an id that is not loaded has nothing to verify.
    pub fn verify_dependencies(&self, plugin_id: &str) -> (r: Result<(), LoaderError>)
        ensures
            match r {
                Ok(()) => !self.loaded().contains_key(plugin_id@) || forall|i: int|
                    0 <= i < self.loaded()[plugin_id@].manifest.dependencies@.len()
                        ==> self.loaded().contains_key(
                        (#[trigger] self.loaded()[plugin_id@].manifest.dependencies@[i])@,
                    ),
                Err(e) => {
                    &&& self.loaded().contains_key(plugin_id@)
                    &&& (e matches LoaderError::MissingDependency(d) && exists|i: int|
                        0 <= i < self.loaded()[plugin_id@].manifest.dependencies@.len() && (
                        #[trigger] self.loaded()[plugin_id@].manifest.dependencies@[i])@ == d@
                            && !self.loaded().contains_key(d@))
                },
            },
    {
        let info = match self.plugins.get(plugin_id) {
            Some(info) => info,
            None => {
                return Ok(());
            }
        };
        let n = info.manifest.dependencies.len();
        let mut i: usize = 0;
        while i < n
            invariant
                i <= n,
                n == info.manifest.dependencies@.len(),
                *info == self.loaded()[plugin_id@],
                self.loaded().contains_key(plugin_id@),
                forall|j: int|
                    0 <= j < i ==> self.loaded().contains_key(
                        (#[trigger] info.manifest.dependencies@[j])@,
                    ),
            decreases n - i,
        {
            let dep = &info.manifest.dependencies[i];
            if !self.plugins.contains_key(dep.as_str()) {
                return Err(LoaderError::MissingDependency(dep.clone()));
            }
            i += 1;
        }
        Ok(())
    }
}

} // verus!
