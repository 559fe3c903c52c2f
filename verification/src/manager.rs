//! The plugin manager: the lifecycle state machine over loaded plugins,
//! dependency and cycle checks before activation, signature enforcement for
//! verified plugins, the event-subscription table, and plugin status
//! reports. Steps that run scripts or touch the filesystem belong to the
//! host harness, which reports their outcome back into the state machine.

use vstd::prelude::*;
use vstd::string::*;
use crate::capabilities::{caps_merge_ok, spec_tier, PluginCapabilities};
use crate::loader::{LoaderError, PluginInfo, PluginLoader, RawCommandDecl, RawManifest};
use crate::sandbox::{PluginSandbox, ResourceLimits, SandboxRegistry};
use crate::smap::StrMap;
use crate::sset::StringSet;
use crate::text::{prefix_before_dot, split_before_dot, starts_with, str_starts_with};
use crate::trust::{
    build_signature_payload, payload_bytes, verify_spec, PluginSignature, TrustLevel,
    TrustVerifier,
};
use crate::ext::sha256_of;

verus! {

// ============================================================================
// STATES AND ERRORS
// ============================================================================

/// Where a plugin stands in its lifecycle.
#[derive(Clone, Copy, PartialEq, Eq, Structural, Debug)]
pub enum PluginState {
    /// Loaded but not running.
    Loaded,
    /// Between the activation checks and the first hook.
    Activating,
    /// Running.
    Active,
    /// Between the purge and the teardown.
    Deactivating,
    /// A lifecycle step failed; the record stays for inspection.
    Error,
}

/// Why a lifecycle step is refused or fails.
#[derive(Debug)]
pub enum ManagerError {
    /// The loader refused the manifest.
    Loader(LoaderError),
    /// The id is not loaded.
    PluginNotLoaded(String),
    /// The plugin is already active.
    PluginAlreadyActive(String),
    /// The plugin is not active.
    PluginNotActive(String),
    /// A dependency is missing or not active.
    DependencyNotSatisfied(String),
    /// The dependency graph loops back into the plugin.
    CircularDependency(String),
    /// A verified plugin shipped no signature, or one that fails.
    SignatureRejected(String),
    /// The canonical entry point leaves the plugin directory.
    EntryPointEscape(String),
    /// The sandbox or worker failed.
    Sandbox(String),
    /// Anything else.
    Internal(String),
}

/// One command-palette entry of a plugin's status report.
pub struct PluginCommandStatus {
    pub id: String,
    pub plugin_id: String,
    pub label: String,
    pub keybinding: Option<String>,
    pub category: Option<String>,
}

/// A plugin's status report.
pub struct PluginStatus {
    pub id: String,
    pub name: String,
    pub version: String,
    pub state: PluginState,
    pub capabilities: PluginCapabilities,
    pub error: Option<String>,
    pub trust: TrustLevel,
    pub loaded_at_secs: Option<u64>,
    pub auto_approve: bool,
    pub capability_tier: String,
    pub commands: Vec<PluginCommandStatus>,
}

// ============================================================================
// COMMAND-PALETTE PROJECTION
// ============================================================================

/// What one palette entry projects to: the label defaults to the id, the
/// category to the id's leading segment.
pub open spec fn command_status_ok(
    d: &RawCommandDecl,
    plugin_id: Seq<char>,
    c: &PluginCommandStatus,
) -> bool {
    &&& c.id@ == d.id@
    &&& c.plugin_id@ == plugin_id
    &&& (match d.label {
        Option::Some(l) => c.label@ == l@,
        Option::None => c.label@ == d.id@,
    })
    &&& (match (d.key, c.keybinding) {
        (Option::Some(k), Option::Some(ck)) => ck@ == k@,
        (Option::None, Option::None) => true,
        _ => false,
    })
    &&& (match d.category {
        Option::Some(cat) => c.category matches Option::Some(cc) && cc@ == cat@,
        Option::None => c.category matches Option::Some(cc) && cc@ == prefix_before_dot(
            d.id@,
        ),
    })
}

/// Projects the manifest's palette entries into status rows.
pub fn parse_manifest_commands(decls: &Vec<RawCommandDecl>, plugin_id: &str) -> (r: Vec<
    PluginCommandStatus,
>)
    ensures
        r@.len() == decls@.len(),
        forall|i: int|
            0 <= i < r@.len() ==> command_status_ok(&decls@[i], plugin_id@, &r@[i]),
{
    let n = decls.len();
    let mut r: Vec<PluginCommandStatus> = Vec::new();
    let mut i: usize = 0;
    while i < n
        invariant
            i <= n,
            n == decls@.len(),
            r@.len() == i,
            forall|j: int|
                0 <= j < i ==> command_status_ok(&decls@[j], plugin_id@, &r@[j]),
        decreases n - i,
    {
        let d = &decls[i];
        let label = match &d.label {
            Option::Some(l) => l.clone(),
            Option::None => d.id.clone(),
        };
        let keybinding = match &d.key {
            Option::Some(k) => Option::Some(k.clone()),
            Option::None => Option::None,
        };
        let category = match &d.category {
            Option::Some(c) => c.clone(),
            Option::None => split_before_dot(d.id.as_str()),
        };
        r.push(
            PluginCommandStatus {
                id: d.id.clone(),
                plugin_id: String::from_str(plugin_id),
                label,
                keybinding,
                category: Option::Some(category),
            },
        );
        i += 1;
    }
    r
}

// ============================================================================
// CYCLE DETECTION
// ============================================================================

/// Whether a walk from `id` with the given visited set and fuel finds a
/// cycle: a revisit is one, and running out of fuel counts as one, failing
/// closed; an id that is not loaded ends the walk.
pub open spec fn spec_cycle_found(
    loaded: Map<Seq<char>, PluginInfo>,
    id: Seq<char>,
    visited: Set<Seq<char>>,
    fuel: nat,
) -> bool
    decreases fuel,
{
    if visited.contains(id) {
        true
    } else if fuel == 0 {
        true
    } else if !loaded.contains_key(id) {
        false
    } else {
        exists|i: int|
            0 <= i < loaded[id].manifest.dependencies@.len() && spec_cycle_found(
                loaded,
                (#[trigger] loaded[id].manifest.dependencies@[i])@,
                visited.insert(id),
                (fuel - 1) as nat,
            )
    }
}

/// Walks the dependency graph from `id`, reporting whether a cycle is
/// reachable within the fuel bound.
fn cycle_found(loader: &PluginLoader, id: &str, visited: &mut StringSet, fuel: usize) -> (r:
    bool)
    ensures
        r == spec_cycle_found(loader.loaded(), id@, old(visited)@, fuel as nat),
        final(visited)@ == old(visited)@,
    decreases fuel,
{
    if visited.contains(id) {
        return true;
    }
    if fuel == 0 {
        return true;
    }
    let info = match loader.get(id) {
        Some(info) => info,
        None => {
            return false;
        }
    };
    visited.insert(String::from_str(id));
    let n = info.manifest.dependencies.len();
    let mut i: usize = 0;
    let mut found = false;
    while i < n && !found
        invariant
            i <= n,
            fuel >= 1,
            n == info.manifest.dependencies@.len(),
            *info == loader.loaded()[id@],
            loader.loaded().contains_key(id@),
            visited@ == old(visited)@.insert(id@),
            found ==> exists|k: int|
                0 <= k < i && spec_cycle_found(
                    loader.loaded(),
                    (#[trigger] info.manifest.dependencies@[k])@,
                    old(visited)@.insert(id@),
                    (fuel - 1) as nat,
                ),
            !found ==> forall|k: int|
                0 <= k < i ==> !spec_cycle_found(
                    loader.loaded(),
                    (#[trigger] info.manifest.dependencies@[k])@,
                    old(visited)@.insert(id@),
                    (fuel - 1) as nat,
                ),
        decreases n - i,
    {
        if cycle_found(loader, info.manifest.dependencies[i].as_str(), visited, fuel - 1) {
            found = true;
        }
        i += 1;
    }
    visited.remove(id);
    proof {
        assert(visited@ =~= old(visited)@) by {
            assert(!old(visited)@.contains(id@));
        }
    }
    found
}

/// Every declared dependency of a loaded plugin is itself loaded and
/// active; an id that is not loaded has no dependencies to satisfy.
pub open spec fn deps_satisfied(
    loaded: Map<Seq<char>, PluginInfo>,
    states: Map<Seq<char>, PluginState>,
    plugin_id: Seq<char>,
) -> bool {
    loaded.contains_key(plugin_id) ==> forall|i: int|
        0 <= i < loaded[plugin_id].manifest.dependencies@.len() ==> {
            let dep = (#[trigger] loaded[plugin_id].manifest.dependencies@[i])@;
            loaded.contains_key(dep) && states.contains_key(dep) && states[dep] is Active
        }
}

// ============================================================================
// THE MANAGER
// ============================================================================

/// The manager's state: the loader's cache, the sandbox registry, the
/// per-plugin lifecycle states, the event-subscription table, the error
/// records, the trusted-key verifier, and the canonical workspace root.
pub struct PluginManager {
    loader: PluginLoader,
    sandbox_registry: SandboxRegistry,
    active_plugins: StrMap<PluginState>,
    event_listeners: StrMap<StringSet>,
    errors: StrMap<String>,
    verifier: TrustVerifier,
    workspace_root: String,
}

impl PluginManager {
    /// The lifecycle states by id.
    pub closed spec fn states(&self) -> Map<Seq<char>, PluginState> {
        self.active_plugins@
    }

    /// The subscription table: event name to subscribed ids.
    pub closed spec fn listeners(&self) -> Map<Seq<char>, StringSet> {
        self.event_listeners@
    }

    /// The recorded errors by id.
    pub closed spec fn error_map(&self) -> Map<Seq<char>, String> {
        self.errors@
    }

    /// The loaded plugins by id.
    pub open spec fn loaded(&self) -> Map<Seq<char>, PluginInfo> {
        self.spec_loader().loaded()
    }

    /// The loader.
    pub closed spec fn spec_loader(&self) -> &PluginLoader {
        &self.loader
    }

    /// The sandbox registry's map.
    pub closed spec fn registry(&self) -> Map<Seq<char>, PluginSandbox> {
        self.sandbox_registry.view_map()
    }

    /// The trusted-key set.
    pub closed spec fn trusted(&self) -> Set<Seq<char>> {
        self.verifier.trusted()
    }

    /// A manager over a plugin directory and a canonical workspace root.
    pub fn new(plugins_dir: String, workspace_root: String) -> (r: PluginManager)
        ensures
            r.loaded() == Map::<Seq<char>, PluginInfo>::empty(),
            r.states() == Map::<Seq<char>, PluginState>::empty(),
            r.listeners() == Map::<Seq<char>, StringSet>::empty(),
            r.error_map() == Map::<Seq<char>, String>::empty(),
            r.registry() == Map::<Seq<char>, PluginSandbox>::empty(),
            r.spec_workspace_root() == workspace_root@,
    {
        PluginManager {
            loader: PluginLoader::new(plugins_dir),
            sandbox_registry: SandboxRegistry::new(),
            active_plugins: StrMap::new(),
            event_listeners: StrMap::new(),
            errors: StrMap::new(),
            verifier: TrustVerifier::new(),
            workspace_root,
        }
    }

    /// The canonical workspace root.
    pub closed spec fn spec_workspace_root(&self) -> Seq<char> {
        self.workspace_root@
    }

    /// The canonical workspace root.
    pub fn workspace_root(&self) -> (r: &String)
        ensures
            r@ == self.spec_workspace_root(),
    {
        &self.workspace_root
    }

    /// The loader.
    pub fn loader(&self) -> (r: &PluginLoader)
        ensures
            r == self.spec_loader(),
    {
        &self.loader
    }

    /// The sandbox registry.
    pub fn sandbox_registry(&self) -> (r: &SandboxRegistry)
        ensures
            r.view_map() == self.registry(),
    {
        &self.sandbox_registry
    }

    /// Loads a plugin through the loader and records it as `loaded`.
    pub fn load(&mut self, plugin_id: &str, raw: RawManifest, path: String, now_secs: u64)
        -> (r: Result<(), ManagerError>)
        ensures
            match r {
                Ok(()) => {
                    &&& crate::loader::raw_manifest_ok(&raw)
                    &&& final(self).loaded().contains_key(plugin_id@)
                    &&& final(self).loaded() == old(self).loaded().insert(
                        plugin_id@,
                        final(self).loaded()[plugin_id@],
                    )
                    &&& crate::loader::manifest_projection_ok(
                        &raw,
                        old(self).spec_loader().roster().contains(plugin_id@),
                        &final(self).loaded()[plugin_id@].manifest,
                    )
                    &&& final(self).states() == old(self).states().insert(
                        plugin_id@,
                        PluginState::Loaded,
                    )
                },
                Err(e) => {
                    &&& !crate::loader::raw_manifest_ok(&raw)
                    &&& e is Loader
                    &&& final(self).loaded() == old(self).loaded()
                    &&& final(self).states() == old(self).states()
                },
            },
            final(self).listeners() == old(self).listeners(),
            final(self).registry() == old(self).registry(),
    {
        match self.loader.load(plugin_id, raw, path, now_secs) {
            Ok(()) => {
                self.active_plugins.insert(String::from_str(plugin_id), PluginState::Loaded);
                Ok(())
            }
            Err(e) => Err(ManagerError::Loader(e)),
        }
    }

    /// Whether the plugin is active.
    pub fn is_active(&self, plugin_id: &str) -> (r: bool)
        ensures
            r == (self.states().contains_key(plugin_id@) && self.states()[plugin_id@]
                is Active),
    {
        match self.active_plugins.get(plugin_id) {
            Some(state) => match state {
                PluginState::Active => true,
                _ => false,
            },
            None => false,
        }
    }

    /// The plugin's capability set, as loaded.
    pub fn get_plugin_capabilities(&self, plugin_id: &str) -> (r: Option<PluginCapabilities>)
        ensures
            match r {
                Some(c) => self.loaded().contains_key(plugin_id@) && crate::capabilities::fs_like(
                    c.filesystem,
                    self.loaded()[plugin_id@].manifest.capabilities.filesystem,
                ) && crate::capabilities::net_like(
                    c.network,
                    self.loaded()[plugin_id@].manifest.capabilities.network,
                ) && c.commands.allowlist@ == self.loaded()[
                    plugin_id@
                ].manifest.capabilities.commands.allowlist@ && c.commands.require_confirmation
                    == self.loaded()[
                    plugin_id@
                ].manifest.capabilities.commands.require_confirmation && c.ui == self.loaded()[
                    plugin_id@
                ].manifest.capabilities.ui,
                None => !self.loaded().contains_key(plugin_id@),
            },
    {
        match self.loader.get(plugin_id) {
            Some(info) => Some(info.manifest.capabilities.duplicate()),
            None => None,
        }
    }

    /// Subscribes a plugin to an event.
    pub fn register_event_listener(&mut self, plugin_id: &str, event_name: &str)
        ensures
            final(self).listeners().contains_key(event_name@),
            final(self).listeners() == old(self).listeners().insert(
                event_name@,
                final(self).listeners()[event_name@],
            ),
            final(self).listeners()[event_name@]@ == (if old(self).listeners().contains_key(
                event_name@,
            ) {
                old(self).listeners()[event_name@]@
            } else {
                Set::<Seq<char>>::empty()
            }).insert(plugin_id@),
            final(self).states() == old(self).states(),
            final(self).loaded() == old(self).loaded(),
            final(self).registry() == old(self).registry(),
    {
        let mut set = match self.event_listeners.take(event_name) {
            Some(s) => s,
            None => StringSet::new(),
        };
        set.insert(String::from_str(plugin_id));
        self.event_listeners.insert(String::from_str(event_name), set);
        proof {
            assert(self.listeners() =~= old(self).listeners().insert(
                event_name@,
                self.listeners()[event_name@],
            ));
        }
    }

    /// Unsubscribes a plugin from an event; an unknown event is no change.
    pub fn unregister_event_listener(&mut self, plugin_id: &str, event_name: &str)
        ensures
            old(self).listeners().contains_key(event_name@) ==> {
                &&& final(self).listeners() == old(self).listeners().insert(
                    event_name@,
                    final(self).listeners()[event_name@],
                )
                &&& final(self).listeners()[event_name@]@ == old(self).listeners()[
                    event_name@
                ]@.remove(plugin_id@)
            },
            !old(self).listeners().contains_key(event_name@) ==> final(self).listeners()
                == old(self).listeners(),
            final(self).states() == old(self).states(),
            final(self).loaded() == old(self).loaded(),
            final(self).registry() == old(self).registry(),
    {
        match self.event_listeners.take(event_name) {
            Some(mut s) => {
                s.remove(plugin_id);
                self.event_listeners.insert(String::from_str(event_name), s);
                proof {
                    assert(self.listeners() =~= old(self).listeners().insert(
                        event_name@,
                        self.listeners()[event_name@],
                    ));
                }
            }
            None => {}
        }
    }

    /// The ids subscribed to an event; dispatch calls each one's hook.
    pub fn get_event_listeners(&self, event_name: &str) -> (r: Vec<String>)
        ensures
            self.listeners().contains_key(event_name@) ==> {
                &&& forall|i: int|
                    0 <= i < r@.len() ==> self.listeners()[event_name@]@.contains(
                        (#[trigger] r@[i])@,
                    )
                &&& forall|x: Seq<char>|
                    self.listeners()[event_name@]@.contains(x) ==> exists|i: int|
                        0 <= i < r@.len() && (#[trigger] r@[i])@ == x
            },
            !self.listeners().contains_key(event_name@) ==> r@.len() == 0,
    {
        match self.event_listeners.get(event_name) {
            Some(s) => s.to_vec(),
            None => Vec::new(),
        }
    }

    /// Widens a plugin's capability set by merging a host-granted one into
    /// it; the manifest's grant is the floor, grants only widen.
    pub fn grant_capabilities(&mut self, plugin_id: &str, granted: &PluginCapabilities) -> (r:
        Result<(), ManagerError>)
        ensures
            match r {
                Ok(()) => {
                    &&& old(self).loaded().contains_key(plugin_id@)
                    &&& final(self).loaded().contains_key(plugin_id@)
                    &&& final(self).loaded() == old(self).loaded().insert(
                        plugin_id@,
                        final(self).loaded()[plugin_id@],
                    )
                    &&& caps_merge_ok(
                        &old(self).loaded()[plugin_id@].manifest.capabilities,
                        granted,
                        &final(self).loaded()[plugin_id@].manifest.capabilities,
                    )
                },
                Err(e) => !old(self).loaded().contains_key(plugin_id@) && e
                    is PluginNotLoaded && final(self).loaded() == old(self).loaded(),
            },
            final(self).states() == old(self).states(),
            final(self).listeners() == old(self).listeners(),
    {
        let merged = match self.loader.get(plugin_id) {
            Some(info) => info.manifest.capabilities.merge(granted),
            None => {
                return Err(ManagerError::PluginNotLoaded(String::from_str(plugin_id)));
            }
        };
        proof {
            assert(caps_merge_ok(
                &self.loaded()[plugin_id@].manifest.capabilities,
                granted,
                &merged,
            ));
        }
        let ok = self.loader.set_capabilities(plugin_id, merged);
        assert(ok);
        Ok(())
    }

    /// Replaces a plugin's capability set outright; host-granted widening
    /// goes through `grant_capabilities` instead.
    pub fn set_plugin_capabilities(&mut self, plugin_id: &str, capabilities: PluginCapabilities)
        -> (r: Result<(), ManagerError>)
        ensures
            match r {
                Ok(()) => {
                    &&& old(self).loaded().contains_key(plugin_id@)
                    &&& final(self).loaded() == old(self).loaded().insert(
                        plugin_id@,
                        final(self).loaded()[plugin_id@],
                    )
                    &&& crate::loader::same_but_capabilities(
                        &old(self).loaded()[plugin_id@],
                        &final(self).loaded()[plugin_id@],
                        capabilities,
                    )
                },
                Err(e) => !old(self).loaded().contains_key(plugin_id@) && e
                    is PluginNotLoaded && final(self).loaded() == old(self).loaded(),
            },
            final(self).states() == old(self).states(),
            final(self).listeners() == old(self).listeners(),
    {
        if self.loader.set_capabilities(plugin_id, capabilities) {
            Ok(())
        } else {
            Err(ManagerError::PluginNotLoaded(String::from_str(plugin_id)))
        }
    }

    /// Checks that every dependency is loaded and active and that no cycle
    /// runs back into the plugin: it succeeds exactly when both hold, and
    /// each error names its cause.
    pub fn check_dependencies(&self, plugin_id: &str) -> (r: Result<(), ManagerError>)
        ensures
            match r {
                Ok(()) => !spec_cycle_found(
                    self.loaded(),
                    plugin_id@,
                    Set::<Seq<char>>::empty(),
                    self.cycle_fuel(),
                ) && deps_satisfied(self.loaded(), self.states(), plugin_id@),
                Err(e) => {
                    &&& e is DependencyNotSatisfied || e is CircularDependency
                    &&& (e is CircularDependency ==> spec_cycle_found(
                        self.loaded(),
                        plugin_id@,
                        Set::<Seq<char>>::empty(),
                        self.cycle_fuel(),
                    ))
                    &&& (e is DependencyNotSatisfied ==> !deps_satisfied(
                        self.loaded(),
                        self.states(),
                        plugin_id@,
                    ))
                },
            },
    {
        match self.loader.verify_dependencies(plugin_id) {
            Ok(()) => {}
            Err(e) => {
                match e {
                    LoaderError::MissingDependency(d) => {
                        proof {
                            let i = choose|i: int|
                                0 <= i < self.loaded()[
                                    plugin_id@
                                ].manifest.dependencies@.len() && (#[trigger] self.loaded()[
                                    plugin_id@
                                ].manifest.dependencies@[i])@ == d@ && !self.loaded().contains_key(
                                    d@,
                                );
                            assert(!deps_satisfied(self.loaded(), self.states(), plugin_id@));
                        }
                        return Err(ManagerError::DependencyNotSatisfied(d));
                    }
                    _ => {
                        proof {
                            assert(false);
                        }
                        return Err(
                            ManagerError::DependencyNotSatisfied(String::from_str(plugin_id)),
                        );
                    }
                }
            }
        }
        let fuel = self.loader_entry_fuel();
        let mut visited = StringSet::new();
        if cycle_found(&self.loader, plugin_id, &mut visited, fuel) {
            return Err(ManagerError::CircularDependency(String::from_str(plugin_id)));
        }
        match self.loader.get(plugin_id) {
            Some(info) => {
                let n = info.manifest.dependencies.len();
                let mut i: usize = 0;
                while i < n
                    invariant
                        i <= n,
                        n == info.manifest.dependencies@.len(),
                        *info == self.loaded()[plugin_id@],
                        self.loaded().contains_key(plugin_id@),
                        forall|j: int|
                            0 <= j < i ==> {
                                let dep = (
                                #[trigger] info.manifest.dependencies@[j])@;
                                self.states().contains_key(dep) && self.states()[dep]
                                    is Active
                            },
                    decreases n - i,
                {
                    let dep = &info.manifest.dependencies[i];
                    if !self.is_active(dep.as_str()) {
                        proof {
                            assert(!deps_satisfied(self.loaded(), self.states(), plugin_id@))
                                by {
                                assert((self.loaded()[
                                    plugin_id@
                                ].manifest.dependencies@[i as int])@ == dep@);
                            }
                        }
                        return Err(ManagerError::DependencyNotSatisfied(dep.clone()));
                    }
                    i += 1;
                }
            }
            None => {}
        }
        Ok(())
    }

    /// The fuel the cycle walk gets: one more than the loader holds
    /// entries, so fuel never runs out on an acyclic graph.
    pub closed spec fn cycle_fuel(&self) -> nat {
        if self.loader.spec_count() < usize::MAX {
            (self.loader.spec_count() + 1) as nat
        } else {
            self.loader.spec_count() as nat
        }
    }

    /// The concrete fuel for the cycle walk.
    fn loader_entry_fuel(&self) -> (r: usize)
        ensures
            r as nat == self.cycle_fuel(),
    {
        let n = self.loader.entry_count();
        if n < usize::MAX {
            n + 1
        } else {
            n
        }
    }
}

// ============================================================================
// ACTIVATION AND DEACTIVATION
// ============================================================================

/// What activation demands of a verified plugin's signature: one must be
/// shipped, and it must verify over the canonical payload binding the
/// manifest bytes and the entry-point bytes.
pub open spec fn activation_signature_ok(
    plugin_id: Seq<char>,
    m: &crate::loader::PluginManifest,
    trusted: Set<Seq<char>>,
    manifest_bytes: Seq<u8>,
    entry_bytes: Seq<u8>,
    now_secs: u64,
) -> bool {
    m.trust is Verified ==> (m.signature matches Option::Some(sig) && verify_spec(
        trusted,
        &sig,
        payload_bytes(
            plugin_id,
            m.name@,
            m.version@,
            m.entry_point@,
            m.source@,
            m.trust,
            sig.timestamp_secs,
            sha256_of(manifest_bytes),
            sha256_of(entry_bytes),
        ),
        now_secs,
    ))
}

/// The capability set a sandbox gets: the manifest's set, widened by the
/// first-party preset for a first-party plugin.
pub open spec fn sandbox_caps_ok(
    m: &crate::loader::PluginManifest,
    c: &PluginCapabilities,
) -> bool {
    if m.trust is FirstParty {
        exists|fp: PluginCapabilities|
            crate::capabilities::caps_first_party(&fp) && caps_merge_ok(
                &m.capabilities,
                &fp,
                c,
            )
    } else {
        &&& crate::capabilities::fs_like(c.filesystem, m.capabilities.filesystem)
        &&& crate::capabilities::net_like(c.network, m.capabilities.network)
        &&& c.commands.allowlist@ == m.capabilities.commands.allowlist@
        &&& c.commands.require_confirmation == m.capabilities.commands.require_confirmation
        &&& c.ui == m.capabilities.ui
    }
}

/// Every check activation runs: the plugin is loaded and not already
/// active, a verified plugin's signature verifies over the payload binding
/// both files, no dependency cycle is reachable, every dependency is
/// loaded and active, and the canonical entry point stays under the
/// canonical plugin directory.
pub open spec fn activation_checks_pass(
    loaded: Map<Seq<char>, PluginInfo>,
    states: Map<Seq<char>, PluginState>,
    trusted: Set<Seq<char>>,
    cycle_fuel: nat,
    plugin_id: Seq<char>,
    manifest_bytes: Seq<u8>,
    entry_bytes: Seq<u8>,
    entry_canonical: Seq<char>,
    plugin_root_canonical: Seq<char>,
    now_secs: u64,
) -> bool {
    &&& loaded.contains_key(plugin_id)
    &&& !(states.contains_key(plugin_id) && states[plugin_id] is Active)
    &&& activation_signature_ok(
        plugin_id,
        &loaded[plugin_id].manifest,
        trusted,
        manifest_bytes,
        entry_bytes,
        now_secs,
    )
    &&& !spec_cycle_found(loaded, plugin_id, Set::<Seq<char>>::empty(), cycle_fuel)
    &&& deps_satisfied(loaded, states, plugin_id)
    &&& starts_with(entry_canonical, plugin_root_canonical)
}

impl PluginManager {
    /// Runs the activation checks and opens the sandbox: the plugin must
    /// be loaded and not active; a verified plugin's signature must verify
    /// over the payload binding both files; every dependency must be
    /// loaded and active and no cycle may run back into the plugin; and
    /// the canonical entry point must stay under the canonical plugin
    /// directory. On success the plugin is `activating` and its sandbox is
    /// registered; the host harness then executes the entry point and the
    /// activation hook and reports back through `activate_finish`.
    pub fn activate_begin(
        &mut self,
        plugin_id: &str,
        manifest_bytes: &[u8],
        entry_bytes: &[u8],
        entry_canonical: &str,
        plugin_root_canonical: &str,
        now_secs: u64,
    ) -> (r: Result<(), ManagerError>)
        ensures
            final(self).loaded() == old(self).loaded(),
            final(self).listeners() == old(self).listeners(),
            final(self).trusted() == old(self).trusted(),
            match r {
                Ok(()) => {
                    &&& activation_checks_pass(
                        old(self).loaded(),
                        old(self).states(),
                        old(self).trusted(),
                        old(self).cycle_fuel(),
                        plugin_id@,
                        manifest_bytes@,
                        entry_bytes@,
                        entry_canonical@,
                        plugin_root_canonical@,
                        now_secs,
                    )
                    &&& final(self).states() == old(self).states().insert(
                        plugin_id@,
                        PluginState::Activating,
                    )
                    &&& final(self).registry() == old(self).registry().insert(
                        plugin_id@,
                        final(self).registry()[plugin_id@],
                    )
                    &&& final(self).registry()[plugin_id@].id@ == plugin_id@
                    &&& sandbox_caps_ok(
                        &old(self).loaded()[plugin_id@].manifest,
                        &final(self).registry()[plugin_id@].capabilities,
                    )
                    &&& final(self).registry()[plugin_id@].resource_limits.max_operations
                        == crate::sandbox::DEFAULT_MAX_OPERATIONS
                    &&& final(self).registry()[plugin_id@].tracker.ops_in_window == 0
                    &&& final(self).error_map() == old(self).error_map()
                },
                Err(e) => {
                    &&& !activation_checks_pass(
                        old(self).loaded(),
                        old(self).states(),
                        old(self).trusted(),
                        old(self).cycle_fuel(),
                        plugin_id@,
                        manifest_bytes@,
                        entry_bytes@,
                        entry_canonical@,
                        plugin_root_canonical@,
                        now_secs,
                    )
                    &&& (e is PluginNotLoaded ==> !old(self).loaded().contains_key(plugin_id@))
                    &&& (e is PluginAlreadyActive ==> old(self).states().contains_key(
                        plugin_id@,
                    ) && old(self).states()[plugin_id@] is Active)
                    &&& (e is SignatureRejected ==> !activation_signature_ok(
                        plugin_id@,
                        &old(self).loaded()[plugin_id@].manifest,
                        old(self).trusted(),
                        manifest_bytes@,
                        entry_bytes@,
                        now_secs,
                    ))
                    &&& (e is CircularDependency ==> spec_cycle_found(
                        old(self).loaded(),
                        plugin_id@,
                        Set::<Seq<char>>::empty(),
                        old(self).cycle_fuel(),
                    ))
                    &&& (e is DependencyNotSatisfied ==> !deps_satisfied(
                        old(self).loaded(),
                        old(self).states(),
                        plugin_id@,
                    ))
                    &&& (e is EntryPointEscape ==> !starts_with(
                        entry_canonical@,
                        plugin_root_canonical@,
                    ) && final(self).states() == old(self).states().insert(
                        plugin_id@,
                        PluginState::Error,
                    ))
                    &&& (!(e is EntryPointEscape) ==> final(self).states() == old(
                        self,
                    ).states())
                    &&& final(self).registry() == old(self).registry()
                },
            },
    {
        if self.is_active(plugin_id) {
            return Err(ManagerError::PluginAlreadyActive(String::from_str(plugin_id)));
        }
        let (caps, is_first_party) = {
            let info = match self.loader.get(plugin_id) {
                Some(info) => info,
                None => {
                    return Err(ManagerError::PluginNotLoaded(String::from_str(plugin_id)));
                }
            };
            let verified = match info.manifest.trust {
                TrustLevel::Verified => true,
                _ => false,
            };
            if verified {
                let sig = match &info.manifest.signature {
                    Option::Some(sig) => sig,
                    Option::None => {
                        return Err(
                            ManagerError::SignatureRejected(String::from_str(plugin_id)),
                        );
                    }
                };
                let payload = build_signature_payload(
                    plugin_id,
                    info.manifest.name.as_str(),
                    info.manifest.version.as_str(),
                    info.manifest.entry_point.as_str(),
                    info.manifest.source.as_str(),
                    &info.manifest.trust,
                    sig.timestamp_secs,
                    manifest_bytes,
                    entry_bytes,
                );
                if !self.verifier.verify_signature_at(sig, &payload, now_secs) {
                    return Err(ManagerError::SignatureRejected(String::from_str(plugin_id)));
                }
            }
            let first = match info.manifest.trust {
                TrustLevel::FirstParty => true,
                _ => false,
            };
            (info.manifest.capabilities.duplicate(), first)
        };
        match self.check_dependencies(plugin_id) {
            Ok(()) => {}
            Err(e) => {
                return Err(e);
            }
        }
        if !str_starts_with(entry_canonical, plugin_root_canonical) {
            self.active_plugins.insert(String::from_str(plugin_id), PluginState::Error);
            self.errors.insert(
                String::from_str(plugin_id),
                String::from_str(entry_canonical),
            );
            return Err(ManagerError::EntryPointEscape(String::from_str(entry_canonical)));
        }
        let sandbox_caps = if is_first_party {
            let fp = PluginCapabilities::first_party();
            let merged = caps.merge(&fp);
            proof {
                assert(crate::capabilities::caps_first_party(&fp));
            }
            merged
        } else {
            caps
        };
        self.active_plugins.insert(String::from_str(plugin_id), PluginState::Activating);
        let _stale = self.sandbox_registry.unregister(plugin_id);
        let sb = PluginSandbox::new(
            String::from_str(plugin_id),
            sandbox_caps,
            ResourceLimits::new_default(),
        );
        match self.sandbox_registry.register(sb) {
            Ok(()) => {
                proof {
                    assert(self.registry() =~= old(self).registry().insert(
                        plugin_id@,
                        self.registry()[plugin_id@],
                    ));
                }
                Ok(())
            }
            Err(_) => {
                proof {
                    assert(false);
                }
                Err(ManagerError::Internal(String::from_str(plugin_id)))
            }
        }
    }

    /// Records the harness's activation outcome: success makes the plugin
    /// `active` and clears its error record; failure makes it `error`,
    /// stores the message, and drops the sandbox for the harness to tear
    /// down.
    pub fn activate_finish(&mut self, plugin_id: &str, outcome: Result<(), String>) -> (r:
        Option<PluginSandbox>)
        ensures
            final(self).loaded() == old(self).loaded(),
            final(self).listeners() == old(self).listeners(),
            match outcome {
                Ok(()) => {
                    &&& final(self).states() == old(self).states().insert(
                        plugin_id@,
                        PluginState::Active,
                    )
                    &&& final(self).error_map() == old(self).error_map().remove(plugin_id@)
                    &&& final(self).registry() == old(self).registry()
                    &&& r is None
                },
                Err(msg) => {
                    &&& final(self).states() == old(self).states().insert(
                        plugin_id@,
                        PluginState::Error,
                    )
                    &&& final(self).error_map() == old(self).error_map().insert(
                        plugin_id@,
                        msg,
                    )
                    &&& final(self).registry() == old(self).registry().remove(plugin_id@)
                },
            },
    {
        match outcome {
            Ok(()) => {
                self.active_plugins.insert(String::from_str(plugin_id), PluginState::Active);
                self.errors.remove(plugin_id);
                None
            }
            Err(msg) => {
                self.active_plugins.insert(String::from_str(plugin_id), PluginState::Error);
                self.errors.insert(String::from_str(plugin_id), msg);
                self.sandbox_registry.unregister(plugin_id)
            }
        }
    }

    /// Starts deactivation: the plugin must be active; it becomes
    /// `deactivating` and every event subscription it holds is purged, so
    /// a later dispatch no longer reaches it. The host harness then calls
    /// the deactivation hook, best effort, and finishes through
    /// `deactivate_finish`.
    pub fn deactivate_begin(&mut self, plugin_id: &str) -> (r: Result<(), ManagerError>)
        ensures
            final(self).loaded() == old(self).loaded(),
            final(self).registry() == old(self).registry(),
            match r {
                Ok(()) => {
                    &&& old(self).states().contains_key(plugin_id@)
                    &&& old(self).states()[plugin_id@] is Active
                    &&& final(self).states() == old(self).states().insert(
                        plugin_id@,
                        PluginState::Deactivating,
                    )
                    &&& final(self).listeners().dom() == old(self).listeners().dom()
                    &&& forall|x: Seq<char>|
                        final(self).listeners().contains_key(x) ==> (
                        #[trigger] final(self).listeners()[x])@ == old(self).listeners()[
                            x
                        ]@.remove(plugin_id@)
                },
                Err(e) => {
                    &&& e is PluginNotActive
                    &&& !(old(self).states().contains_key(plugin_id@) && old(self).states()[
                        plugin_id@
                    ] is Active)
                    &&& final(self).states() == old(self).states()
                    &&& final(self).listeners() == old(self).listeners()
                },
            },
    {
        if !self.is_active(plugin_id) {
            return Err(ManagerError::PluginNotActive(String::from_str(plugin_id)));
        }
        self.active_plugins.insert(String::from_str(plugin_id), PluginState::Deactivating);
        let keys = self.event_listeners.keys();
        let n = keys.len();
        let mut i: usize = 0;
        while i < n
            invariant
                i <= n,
                n == keys@.len(),
                self.loaded() == old(self).loaded(),
                self.registry() == old(self).registry(),
                self.states() == old(self).states().insert(
                    plugin_id@,
                    PluginState::Deactivating,
                ),
                old(self).states().contains_key(plugin_id@),
                old(self).states()[plugin_id@] is Active,
                self.listeners().dom() == old(self).listeners().dom(),
                forall|j: int| 0 <= j < n ==> old(self).listeners().contains_key(
                    (#[trigger] keys@[j])@,
                ),
                forall|x: Seq<char>| old(self).listeners().contains_key(x) ==> exists|j: int|
                    0 <= j < n && (#[trigger] keys@[j])@ == x,
                forall|x: Seq<char>|
                    self.listeners().contains_key(x) ==> ((
                    #[trigger] self.listeners()[x])@ == old(self).listeners()[x]@ || self.listeners()[
                        x
                    ]@ == old(self).listeners()[x]@.remove(plugin_id@)),
                forall|j: int|
                    0 <= j < i ==> (#[trigger] self.listeners()[keys@[j]@])@ == old(
                        self,
                    ).listeners()[keys@[j]@]@.remove(plugin_id@),
            decreases n - i,
        {
            match self.event_listeners.take(keys[i].as_str()) {
                Some(mut s) => {
                    s.remove(plugin_id);
                    self.event_listeners.insert(keys[i].clone(), s);
                    proof {
                        assert(self.listeners().dom() =~= old(self).listeners().dom());
                    }
                }
                None => {}
            }
            i += 1;
        }
        Ok(())
    }

    /// Finishes deactivation: the plugin returns to `loaded`, its error
    /// record clears, and its sandbox is handed back for teardown.
    pub fn deactivate_finish(&mut self, plugin_id: &str) -> (r: Option<PluginSandbox>)
        ensures
            final(self).loaded() == old(self).loaded(),
            final(self).listeners() == old(self).listeners(),
            final(self).states() == old(self).states().insert(plugin_id@, PluginState::Loaded),
            final(self).error_map() == old(self).error_map().remove(plugin_id@),
            final(self).registry() == old(self).registry().remove(plugin_id@),
            match r {
                Some(sb) => old(self).registry().contains_key(plugin_id@) && sb == old(
                    self,
                ).registry()[plugin_id@],
                None => !old(self).registry().contains_key(plugin_id@),
            },
    {
        self.active_plugins.insert(String::from_str(plugin_id), PluginState::Loaded);
        self.errors.remove(plugin_id);
        self.sandbox_registry.unregister(plugin_id)
    }

    /// Forgets a plugin entirely: its manifest, state, error record and
    /// sandbox all go; the sandbox is handed back for teardown. An id
    /// never loaded reports `plugin_not_loaded`. An active plugin is
    /// deactivated by the harness first.
    pub fn unload(&mut self, plugin_id: &str) -> (r: Result<Option<PluginSandbox>, ManagerError>)
        ensures
            final(self).listeners() == old(self).listeners(),
            match r {
                Ok(sb) => {
                    &&& old(self).loaded().contains_key(plugin_id@)
                    &&& final(self).loaded() == old(self).loaded().remove(plugin_id@)
                    &&& final(self).states() == old(self).states().remove(plugin_id@)
                    &&& final(self).error_map() == old(self).error_map().remove(plugin_id@)
                    &&& final(self).registry() == old(self).registry().remove(plugin_id@)
                },
                Err(e) => {
                    &&& e is PluginNotLoaded
                    &&& !old(self).loaded().contains_key(plugin_id@)
                    &&& final(self).loaded() == old(self).loaded()
                    &&& final(self).states() == old(self).states()
                    &&& final(self).registry() == old(self).registry()
                },
            },
    {
        if !self.loader.unload(plugin_id) {
            proof {
                assert(self.loaded() =~= old(self).loaded());
            }
            return Err(ManagerError::PluginNotLoaded(String::from_str(plugin_id)));
        }
        self.active_plugins.remove(plugin_id);
        self.errors.remove(plugin_id);
        Ok(self.sandbox_registry.unregister(plugin_id))
    }

    /// Adds one key to the trusted set.
    pub fn add_trusted_key(&mut self, key: String)
        ensures
            final(self).trusted() == old(self).trusted().insert(key@),
            final(self).loaded() == old(self).loaded(),
            final(self).states() == old(self).states(),
    {
        self.verifier.add_trusted_key(key);
    }

    /// Removes one key from the trusted set; signatures bearing it verify
    /// no longer.
    pub fn remove_trusted_key(&mut self, key: &str) -> (r: bool)
        ensures
            final(self).trusted() == old(self).trusted().remove(key@),
            r == old(self).trusted().contains(key@),
            final(self).loaded() == old(self).loaded(),
            final(self).states() == old(self).states(),
    {
        self.verifier.remove_trusted_key(key)
    }

    /// The status report of a plugin: its manifest fields, lifecycle
    /// state, recorded error, trust, capability tier and palette commands.
    pub fn get_status(&self, plugin_id: &str) -> (r: Option<PluginStatus>)
        ensures
            match r {
                Some(s) => {
                    &&& self.loaded().contains_key(plugin_id@)
                    &&& self.states().contains_key(plugin_id@)
                    &&& s.id@ == plugin_id@
                    &&& s.name@ == self.loaded()[plugin_id@].manifest.name@
                    &&& s.version@ == self.loaded()[plugin_id@].manifest.version@
                    &&& s.state == self.states()[plugin_id@]
                    &&& s.trust == self.loaded()[plugin_id@].manifest.trust
                    &&& s.loaded_at_secs == Option::Some(
                        self.loaded()[plugin_id@].loaded_at_secs,
                    )
                    &&& s.auto_approve == (self.loaded()[plugin_id@].manifest.trust
                        is FirstParty)
                    &&& s.capability_tier@ == spec_tier(
                        &self.loaded()[plugin_id@].manifest.capabilities,
                    )
                    &&& (match (self.error_map().contains_key(plugin_id@), s.error) {
                        (true, Option::Some(e)) => e@ == self.error_map()[plugin_id@]@,
                        (false, Option::None) => true,
                        _ => false,
                    })
                    &&& s.commands@.len() == self.loaded()[
                        plugin_id@
                    ].manifest.command_decls@.len()
                    &&& forall|i: int|
                        0 <= i < s.commands@.len() ==> command_status_ok(
                            &self.loaded()[plugin_id@].manifest.command_decls@[i],
                            plugin_id@,
                            &s.commands@[i],
                        )
                },
                None => !self.loaded().contains_key(plugin_id@) || !self.states().contains_key(
                    plugin_id@,
                ),
            },
    {
        let info = match self.loader.get(plugin_id) {
            Some(info) => info,
            None => {
                return None;
            }
        };
        let state = match self.active_plugins.get(plugin_id) {
            Some(s) => *s,
            None => {
                return None;
            }
        };
        let error = match self.errors.get(plugin_id) {
            Some(e) => Option::Some(e.clone()),
            None => Option::None,
        };
        let tier = info.manifest.capabilities.capability_tier();
        Some(
            PluginStatus {
                id: String::from_str(plugin_id),
                name: info.manifest.name.clone(),
                version: info.manifest.version.clone(),
                state,
                capabilities: info.manifest.capabilities.duplicate(),
                error,
                trust: info.manifest.trust,
                loaded_at_secs: Some(info.loaded_at_secs),
                auto_approve: info.manifest.trust.auto_grant_permissions(),
                capability_tier: String::from_str(tier),
                commands: parse_manifest_commands(&info.manifest.command_decls, plugin_id),
            },
        )
    }

    /// The status of every plugin that is both loaded and tracked: each
    /// returned row is one, and every such plugin has a row.
    pub fn get_all_statuses(&self) -> (r: Vec<PluginStatus>)
        ensures
            forall|i: int|
                0 <= i < r@.len() ==> self.loaded().contains_key((#[trigger] r@[i]).id@)
                    && self.states().contains_key(r@[i].id@),
            forall|k: Seq<char>|
                self.loaded().contains_key(k) && self.states().contains_key(k)
                    ==> exists|i: int| 0 <= i < r@.len() && (#[trigger] r@[i].id@) == k,
    {
        let ids = self.loader.get_all();
        let n = ids.len();
        let mut r: Vec<PluginStatus> = Vec::new();
        let mut i: usize = 0;
        while i < n
            invariant
                i <= n,
                n == ids@.len(),
                forall|j: int|
                    0 <= j < r@.len() ==> self.loaded().contains_key((#[trigger] r@[j]).id@)
                        && self.states().contains_key(r@[j].id@),
                forall|j: int|
                    0 <= j < i && self.loaded().contains_key((#[trigger] ids@[j])@)
                        && self.states().contains_key(ids@[j]@) ==> exists|l: int|
                        0 <= l < r@.len() && (#[trigger] r@[l].id@) == ids@[j]@,
            decreases n - i,
        {
            let ghost before = r@;
            match self.get_status(ids[i].as_str()) {
                Some(s) => {
                    r.push(s);
                    proof {
                        assert(r@[before.len() as int].id@ == ids@[i as int]@);
                        assert(forall|l: int|
                            0 <= l < before.len() ==> r@[l] == before[l]);
                    }
                }
                None => {}
            }
            i += 1;
        }
        proof {
            assert forall|k: Seq<char>|
                self.loaded().contains_key(k) && self.states().contains_key(k) implies exists|l:
                int| 0 <= l < r@.len() && (#[trigger] r@[l].id@) == k by {
                let j = choose|j: int| 0 <= j < ids@.len() && (#[trigger] ids@[j])@ == k;
                assert(self.loaded().contains_key(ids@[j]@));
            }
        }
        r
    }
}

} // verus!
