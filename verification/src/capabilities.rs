//! The capability model: four orthogonal dimensions (filesystem, network,
//! commands, UI) with `merge` as a per-dimension upper bound and
//! `is_subset_of` as a partial order, plus the predicates the mediated
//! operation surface asks before any host primitive runs.

use vstd::prelude::*;
use vstd::string::*;
use crate::sset::StringSet;
use crate::text::starts_with;

verus! {

// ============================================================================
// FILESYSTEM
// ============================================================================

/// Filesystem access granted to a plugin.
pub enum FilesystemCapability {
    /// No filesystem access.
    NoAccess,
    /// Read-only access under the workspace root.
    WorkspaceRead,
    /// Read and write access under the workspace root.
    WorkspaceReadWrite,
    /// Access limited to explicit path prefixes.
    Scoped { read: StringSet, write: StringSet },
}

/// Whether the filesystem grant admits reading `path`, both paths canonical.
pub open spec fn fs_can_read(
    f: FilesystemCapability,
    path: Seq<char>,
    workspace: Seq<char>,
) -> bool {
    match f {
        FilesystemCapability::NoAccess => false,
        FilesystemCapability::WorkspaceRead => starts_with(path, workspace),
        FilesystemCapability::WorkspaceReadWrite => starts_with(path, workspace),
        FilesystemCapability::Scoped { read, .. } => exists|p: Seq<char>|
            read@.contains(p) && starts_with(path, p),
    }
}

/// Whether the filesystem grant admits writing `path`, both paths canonical.
pub open spec fn fs_can_write(
    f: FilesystemCapability,
    path: Seq<char>,
    workspace: Seq<char>,
) -> bool {
    match f {
        FilesystemCapability::NoAccess => false,
        FilesystemCapability::WorkspaceRead => false,
        FilesystemCapability::WorkspaceReadWrite => starts_with(path, workspace),
        FilesystemCapability::Scoped { write, .. } => exists|p: Seq<char>|
            write@.contains(p) && starts_with(path, p),
    }
}

/// The filesystem partial order: `none` below everything, read below
/// read-write, scoped grants ordered by inclusion of their path sets.
pub open spec fn fs_subset(a: FilesystemCapability, b: FilesystemCapability) -> bool {
    match (a, b) {
        (FilesystemCapability::NoAccess, _) => true,
        (_, FilesystemCapability::NoAccess) => false,
        (FilesystemCapability::WorkspaceRead, FilesystemCapability::WorkspaceRead) => true,
        (
            FilesystemCapability::WorkspaceRead,
            FilesystemCapability::WorkspaceReadWrite,
        ) => true,
        (
            FilesystemCapability::WorkspaceReadWrite,
            FilesystemCapability::WorkspaceReadWrite,
        ) => true,
        (
            FilesystemCapability::Scoped { read: r1, write: w1 },
            FilesystemCapability::Scoped { read: r2, write: w2 },
        ) => r1@.subset_of(r2@) && w1@.subset_of(w2@),
        _ => false,
    }
}

/// Same filesystem grant: same variant with equal path sets.
pub open spec fn fs_like(a: FilesystemCapability, b: FilesystemCapability) -> bool {
    match (a, b) {
        (FilesystemCapability::NoAccess, FilesystemCapability::NoAccess) => true,
        (FilesystemCapability::WorkspaceRead, FilesystemCapability::WorkspaceRead) => true,
        (
            FilesystemCapability::WorkspaceReadWrite,
            FilesystemCapability::WorkspaceReadWrite,
        ) => true,
        (
            FilesystemCapability::Scoped { read: r1, write: w1 },
            FilesystemCapability::Scoped { read: r2, write: w2 },
        ) => r1@ == r2@ && w1@ == w2@,
        _ => false,
    }
}

/// What merging two filesystem grants yields: `none` is the identity,
/// workspace grants dominate, and two scoped grants join by set union.
pub open spec fn fs_merge_ok(
    a: FilesystemCapability,
    b: FilesystemCapability,
    r: FilesystemCapability,
) -> bool {
    match (a, b) {
        (FilesystemCapability::NoAccess, _) => fs_like(r, b),
        (_, FilesystemCapability::NoAccess) => fs_like(r, a),
        (FilesystemCapability::WorkspaceReadWrite, _) => r is WorkspaceReadWrite,
        (_, FilesystemCapability::WorkspaceReadWrite) => r is WorkspaceReadWrite,
        (FilesystemCapability::WorkspaceRead, _) => r is WorkspaceRead,
        (_, FilesystemCapability::WorkspaceRead) => r is WorkspaceRead,
        (
            FilesystemCapability::Scoped { read: r1, write: w1 },
            FilesystemCapability::Scoped { read: r2, write: w2 },
        ) => (r matches FilesystemCapability::Scoped { read, write }
            && read@ == r1@.union(r2@) && write@ == w1@.union(w2@)),
    }
}

impl FilesystemCapability {
    /// Whether this grant admits reading `path`; prefix checks on
    /// canonicalized paths, with a scoped grant taking precedence.
    pub fn can_read(&self, path: &str, workspace_root: &str) -> (r: bool)
        ensures
            r == fs_can_read(*self, path@, workspace_root@),
    {
        match self {
            FilesystemCapability::NoAccess => false,
            FilesystemCapability::WorkspaceRead => crate::text::str_starts_with(
                path,
                workspace_root,
            ),
            FilesystemCapability::WorkspaceReadWrite => crate::text::str_starts_with(
                path,
                workspace_root,
            ),
            FilesystemCapability::Scoped { read, .. } => read.some_prefix_of(path),
        }
    }

    /// Whether this grant admits writing `path`.
    pub fn can_write(&self, path: &str, workspace_root: &str) -> (r: bool)
        ensures
            r == fs_can_write(*self, path@, workspace_root@),
    {
        match self {
            FilesystemCapability::NoAccess => false,
            FilesystemCapability::WorkspaceRead => false,
            FilesystemCapability::WorkspaceReadWrite => crate::text::str_starts_with(
                path,
                workspace_root,
            ),
            FilesystemCapability::Scoped { write, .. } => write.some_prefix_of(path),
        }
    }

    /// A grant equal to this one.
    pub fn duplicate(&self) -> (r: FilesystemCapability)
        ensures
            fs_like(r, *self),
    {
        match self {
            FilesystemCapability::NoAccess => FilesystemCapability::NoAccess,
            FilesystemCapability::WorkspaceRead => FilesystemCapability::WorkspaceRead,
            FilesystemCapability::WorkspaceReadWrite =>
                FilesystemCapability::WorkspaceReadWrite,
            FilesystemCapability::Scoped { read, write } => FilesystemCapability::Scoped {
                read: read.duplicate(),
                write: write.duplicate(),
            },
        }
    }
}

// ============================================================================
// NETWORK
// ============================================================================

/// Network access granted to a plugin.
pub enum NetworkCapability {
    /// No network access.
    NoAccess,
    /// Access restricted to an explicit set of domains.
    DomainAllowlist(StringSet),
    /// Unrestricted network access.
    Unrestricted,
}

/// Whether the network grant admits contacting `domain` (exact match
/// against the allowlist; no wildcards).
pub open spec fn net_can_access(n: NetworkCapability, domain: Seq<char>) -> bool {
    match n {
        NetworkCapability::NoAccess => false,
        NetworkCapability::DomainAllowlist(domains) => domains@.contains(domain),
        NetworkCapability::Unrestricted => true,
    }
}

/// The network partial order: `none` below everything, everything below
/// `unrestricted`, allowlists ordered by inclusion.
pub open spec fn net_subset(a: NetworkCapability, b: NetworkCapability) -> bool {
    match (a, b) {
        (NetworkCapability::NoAccess, _) => true,
        (_, NetworkCapability::Unrestricted) => true,
        (NetworkCapability::DomainAllowlist(d1), NetworkCapability::DomainAllowlist(d2)) =>
            d1@.subset_of(d2@),
        _ => false,
    }
}

/// Same network grant: same variant with equal domain sets.
pub open spec fn net_like(a: NetworkCapability, b: NetworkCapability) -> bool {
    match (a, b) {
        (NetworkCapability::NoAccess, NetworkCapability::NoAccess) => true,
        (NetworkCapability::Unrestricted, NetworkCapability::Unrestricted) => true,
        (NetworkCapability::DomainAllowlist(d1), NetworkCapability::DomainAllowlist(d2)) =>
            d1@ == d2@,
        _ => false,
    }
}

/// What merging two network grants yields: `unrestricted` dominates,
/// `none` is the identity, two allowlists join by union.
pub open spec fn net_merge_ok(
    a: NetworkCapability,
    b: NetworkCapability,
    r: NetworkCapability,
) -> bool {
    match (a, b) {
        (NetworkCapability::Unrestricted, _) => r is Unrestricted,
        (_, NetworkCapability::Unrestricted) => r is Unrestricted,
        (NetworkCapability::NoAccess, _) => net_like(r, b),
        (_, NetworkCapability::NoAccess) => net_like(r, a),
        (NetworkCapability::DomainAllowlist(d1), NetworkCapability::DomainAllowlist(d2)) =>
            (r matches NetworkCapability::DomainAllowlist(d)
                && d@ == d1@.union(d2@)),
    }
}

/// What adding a domain yields: an allowlist grows, `none` becomes a
/// one-domain allowlist, `unrestricted` is unchanged.
pub open spec fn net_after_add(
    before: NetworkCapability,
    domain: Seq<char>,
    after: NetworkCapability,
) -> bool {
    match before {
        NetworkCapability::NoAccess => (after matches NetworkCapability::DomainAllowlist(d)
            && d@ == Set::<Seq<char>>::empty().insert(domain)),
        NetworkCapability::DomainAllowlist(d0) => (after matches
            NetworkCapability::DomainAllowlist(d) && d@ == d0@.insert(domain)),
        NetworkCapability::Unrestricted => after is Unrestricted,
    }
}

impl NetworkCapability {
    /// Whether this grant admits contacting `domain`.
    pub fn can_access(&self, domain: &str) -> (r: bool)
        ensures
            r == net_can_access(*self, domain@),
    {
        match self {
            NetworkCapability::NoAccess => false,
            NetworkCapability::DomainAllowlist(domains) => domains.contains(domain),
            NetworkCapability::Unrestricted => true,
        }
    }

    /// Adds a domain to the allowlist.
    pub fn add_domain(&mut self, domain: String)
        ensures
            net_after_add(*old(self), domain@, *final(self)),
    {
        match self {
            NetworkCapability::DomainAllowlist(domains) => {
                domains.insert(domain);
            }
            NetworkCapability::NoAccess => {
                let mut domains = StringSet::new();
                domains.insert(domain);
                *self = NetworkCapability::DomainAllowlist(domains);
            }
            NetworkCapability::Unrestricted => {}
        }
    }

    /// A grant equal to this one.
    pub fn duplicate(&self) -> (r: NetworkCapability)
        ensures
            net_like(r, *self),
    {
        match self {
            NetworkCapability::NoAccess => NetworkCapability::NoAccess,
            NetworkCapability::DomainAllowlist(d) => NetworkCapability::DomainAllowlist(
                d.duplicate(),
            ),
            NetworkCapability::Unrestricted => NetworkCapability::Unrestricted,
        }
    }
}

// ============================================================================
// COMMANDS
// ============================================================================

/// Command execution granted to a plugin: an allowlist of commands, and
/// whether running one asks the user first.
pub struct CommandCapability {
    pub allowlist: StringSet,
    pub require_confirmation: bool,
}

impl CommandCapability {
    /// An empty allowlist that would still ask for confirmation.
    pub fn new_default() -> (r: CommandCapability)
        ensures
            r.allowlist@ == Set::<Seq<char>>::empty(),
            r.require_confirmation == true,
    {
        CommandCapability { allowlist: StringSet::new(), require_confirmation: true }
    }

    /// An allowlist from explicit entries, run without confirmation.
    pub fn new(allowlist: Vec<String>) -> (r: CommandCapability)
        ensures
            r.allowlist@ == allowlist@.map_values(|s: String| s@).to_set(),
            r.require_confirmation == false,
    {
        CommandCapability {
            allowlist: StringSet::from_vec(allowlist),
            require_confirmation: false,
        }
    }

    /// Whether the command is on the allowlist.
    pub fn can_execute(&self, command: &str) -> (r: bool)
        ensures
            r == self.allowlist@.contains(command@),
    {
        self.allowlist.contains(command)
    }

    /// Adds a command to the allowlist.
    pub fn allow_command(&mut self, command: String)
        ensures
            final(self).allowlist@ == old(self).allowlist@.insert(command@),
            final(self).require_confirmation == old(self).require_confirmation,
    {
        self.allowlist.insert(command);
    }

    /// Removes a command from the allowlist.
    pub fn disallow_command(&mut self, command: &str)
        ensures
            final(self).allowlist@ == old(self).allowlist@.remove(command@),
            final(self).require_confirmation == old(self).require_confirmation,
    {
        self.allowlist.remove(command);
    }

    /// A grant equal to this one.
    pub fn duplicate(&self) -> (r: CommandCapability)
        ensures
            r.allowlist@ == self.allowlist@,
            r.require_confirmation == self.require_confirmation,
    {
        CommandCapability {
            allowlist: self.allowlist.duplicate(),
            require_confirmation: self.require_confirmation,
        }
    }
}

// ============================================================================
// UI
// ============================================================================

/// UI surface granted to a plugin: four independent flags.
#[derive(Clone, Copy, PartialEq, Eq, Debug)]
pub struct UiCapability {
    pub status_bar: bool,
    pub sidebar: bool,
    pub notifications: bool,
    pub webview: bool,
}

/// The UI order: flagwise implication.
pub open spec fn ui_subset(a: UiCapability, b: UiCapability) -> bool {
    (!a.status_bar || b.status_bar) && (!a.sidebar || b.sidebar) && (!a.notifications
        || b.notifications) && (!a.webview || b.webview)
}

impl UiCapability {
    /// Every UI flag granted.
    pub fn all() -> (r: UiCapability)
        ensures
            r.status_bar && r.sidebar && r.notifications && r.webview,
    {
        UiCapability { status_bar: true, sidebar: true, notifications: true, webview: true }
    }

    /// No UI flag granted.
    pub fn none() -> (r: UiCapability)
        ensures
            !r.status_bar && !r.sidebar && !r.notifications && !r.webview,
    {
        UiCapability {
            status_bar: false,
            sidebar: false,
            notifications: false,
            webview: false,
        }
    }

    /// Status bar and notifications, nothing else.
    pub fn basic() -> (r: UiCapability)
        ensures
            r.status_bar && !r.sidebar && r.notifications && !r.webview,
    {
        UiCapability {
            status_bar: true,
            sidebar: false,
            notifications: true,
            webview: false,
        }
    }
}

// ============================================================================
// THE AGGREGATE
// ============================================================================

/// The complete capability set of one plugin.
pub struct PluginCapabilities {
    pub filesystem: FilesystemCapability,
    pub network: NetworkCapability,
    pub commands: CommandCapability,
    pub ui: UiCapability,
}

/// The capability partial order, dimension by dimension. Confirmation is a
/// policy bit, not a grant, so it does not take part in the order.
pub open spec fn caps_subset(a: &PluginCapabilities, b: &PluginCapabilities) -> bool {
    fs_subset(a.filesystem, b.filesystem) && net_subset(a.network, b.network)
        && a.commands.allowlist@.subset_of(b.commands.allowlist@) && ui_subset(a.ui, b.ui)
}

/// What merging two capability sets yields, dimension by dimension.
/// Confirmation is required only when both sides require it.
pub open spec fn caps_merge_ok(
    a: &PluginCapabilities,
    b: &PluginCapabilities,
    r: &PluginCapabilities,
) -> bool {
    fs_merge_ok(a.filesystem, b.filesystem, r.filesystem)
        && net_merge_ok(a.network, b.network, r.network)
        && r.commands.allowlist@ == a.commands.allowlist@.union(b.commands.allowlist@)
        && r.commands.require_confirmation == (a.commands.require_confirmation
        && b.commands.require_confirmation)
        && r.ui.status_bar == (a.ui.status_bar || b.ui.status_bar)
        && r.ui.sidebar == (a.ui.sidebar || b.ui.sidebar)
        && r.ui.notifications == (a.ui.notifications || b.ui.notifications)
        && r.ui.webview == (a.ui.webview || b.ui.webview)
}

/// The first-party capability set: read-write workspace, unrestricted
/// network, the standard tool commands without confirmation, full UI.
pub open spec fn caps_first_party(c: &PluginCapabilities) -> bool {
    &&& c.filesystem is WorkspaceReadWrite
    &&& c.network is Unrestricted
    &&& c.commands.allowlist@ == Set::<Seq<char>>::empty().insert("git"@).insert(
        "cargo"@,
    ).insert("npm"@).insert("node"@)
    &&& c.commands.require_confirmation == false
    &&& c.ui.status_bar && c.ui.sidebar && c.ui.notifications && c.ui.webview
}

/// The empty capability set: no grant in any dimension.
pub open spec fn caps_none(c: &PluginCapabilities) -> bool {
    &&& c.filesystem is NoAccess
    &&& c.network is NoAccess
    &&& c.commands.allowlist@ == Set::<Seq<char>>::empty()
    &&& c.commands.require_confirmation == true
    &&& !c.ui.status_bar
    &&& !c.ui.sidebar
    &&& !c.ui.notifications
    &&& !c.ui.webview
}

impl PluginCapabilities {
    /// The sandbox default: nothing granted.
    pub fn none() -> (r: PluginCapabilities)
        ensures
            caps_none(&r),
    {
        PluginCapabilities {
            filesystem: FilesystemCapability::NoAccess,
            network: NetworkCapability::NoAccess,
            commands: CommandCapability::new_default(),
            ui: UiCapability::none(),
        }
    }

    /// Read-only workspace access with basic UI.
    pub fn workspace_read() -> (r: PluginCapabilities)
        ensures
            r.filesystem is WorkspaceRead,
            r.network is NoAccess,
            r.commands.allowlist@ == Set::<Seq<char>>::empty(),
            r.commands.require_confirmation == true,
            r.ui.status_bar && !r.ui.sidebar && r.ui.notifications && !r.ui.webview,
    {
        PluginCapabilities {
            filesystem: FilesystemCapability::WorkspaceRead,
            network: NetworkCapability::NoAccess,
            commands: CommandCapability::new_default(),
            ui: UiCapability::basic(),
        }
    }

    /// Read-write workspace access with basic UI.
    pub fn workspace_read_write() -> (r: PluginCapabilities)
        ensures
            r.filesystem is WorkspaceReadWrite,
            r.network is NoAccess,
            r.commands.allowlist@ == Set::<Seq<char>>::empty(),
            r.commands.require_confirmation == true,
            r.ui.status_bar && !r.ui.sidebar && r.ui.notifications && !r.ui.webview,
    {
        PluginCapabilities {
            filesystem: FilesystemCapability::WorkspaceReadWrite,
            network: NetworkCapability::NoAccess,
            commands: CommandCapability::new_default(),
            ui: UiCapability::basic(),
        }
    }

    /// The first-party grant: read-write workspace, unrestricted network,
    /// the standard tool commands without confirmation, and full UI.
    pub fn first_party() -> (r: PluginCapabilities)
        ensures
            r.filesystem is WorkspaceReadWrite,
            r.network is Unrestricted,
            r.commands.allowlist@ == Set::<Seq<char>>::empty().insert("git"@).insert(
                "cargo"@,
            ).insert("npm"@).insert("node"@),
            r.commands.require_confirmation == false,
            r.ui.status_bar && r.ui.sidebar && r.ui.notifications && r.ui.webview,
    {
        let mut allowlist = StringSet::new();
        allowlist.insert(String::from_str("git"));
        allowlist.insert(String::from_str("cargo"));
        allowlist.insert(String::from_str("npm"));
        allowlist.insert(String::from_str("node"));
        PluginCapabilities {
            filesystem: FilesystemCapability::WorkspaceReadWrite,
            network: NetworkCapability::Unrestricted,
            commands: CommandCapability { allowlist, require_confirmation: false },
            ui: UiCapability::all(),
        }
    }

    /// Merges two capability sets, taking the wider grant in each
    /// dimension.
    pub fn merge(&self, other: &PluginCapabilities) -> (r: PluginCapabilities)
        ensures
            caps_merge_ok(self, other, &r),
    {
        let filesystem = match (&self.filesystem, &other.filesystem) {
            (FilesystemCapability::NoAccess, _) => other.filesystem.duplicate(),
            (_, FilesystemCapability::NoAccess) => self.filesystem.duplicate(),
            (FilesystemCapability::WorkspaceReadWrite, _) =>
                FilesystemCapability::WorkspaceReadWrite,
            (_, FilesystemCapability::WorkspaceReadWrite) =>
                FilesystemCapability::WorkspaceReadWrite,
            (FilesystemCapability::WorkspaceRead, _) => FilesystemCapability::WorkspaceRead,
            (_, FilesystemCapability::WorkspaceRead) => FilesystemCapability::WorkspaceRead,
            (
                FilesystemCapability::Scoped { read: r1, write: w1 },
                FilesystemCapability::Scoped { read: r2, write: w2 },
            ) => FilesystemCapability::Scoped {
                read: r1.union(r2),
                write: w1.union(w2),
            },
        };
        let network = match (&self.network, &other.network) {
            (NetworkCapability::Unrestricted, _) => NetworkCapability::Unrestricted,
            (_, NetworkCapability::Unrestricted) => NetworkCapability::Unrestricted,
            (NetworkCapability::NoAccess, _) => other.network.duplicate(),
            (_, NetworkCapability::NoAccess) => self.network.duplicate(),
            (NetworkCapability::DomainAllowlist(d1), NetworkCapability::DomainAllowlist(d2)) =>
                NetworkCapability::DomainAllowlist(d1.union(d2)),
        };
        let commands = CommandCapability {
            allowlist: self.commands.allowlist.union(&other.commands.allowlist),
            require_confirmation: self.commands.require_confirmation
                && other.commands.require_confirmation,
        };
        let ui = UiCapability {
            status_bar: self.ui.status_bar || other.ui.status_bar,
            sidebar: self.ui.sidebar || other.ui.sidebar,
            notifications: self.ui.notifications || other.ui.notifications,
            webview: self.ui.webview || other.ui.webview,
        };
        PluginCapabilities { filesystem, network, commands, ui }
    }

    /// The capability partial order: true only when every grant of `self`
    /// is also granted by `other`.
    pub fn is_subset_of(&self, other: &PluginCapabilities) -> (r: bool)
        ensures
            r == caps_subset(self, other),
    {
        let fs_ok = match (&self.filesystem, &other.filesystem) {
            (FilesystemCapability::NoAccess, _) => true,
            (_, FilesystemCapability::NoAccess) => false,
            (FilesystemCapability::WorkspaceRead, FilesystemCapability::WorkspaceRead) => true,
            (
                FilesystemCapability::WorkspaceRead,
                FilesystemCapability::WorkspaceReadWrite,
            ) => true,
            (
                FilesystemCapability::WorkspaceReadWrite,
                FilesystemCapability::WorkspaceReadWrite,
            ) => true,
            (
                FilesystemCapability::Scoped { read: r1, write: w1 },
                FilesystemCapability::Scoped { read: r2, write: w2 },
            ) => r1.is_subset(r2) && w1.is_subset(w2),
            _ => false,
        };
        let net_ok = match (&self.network, &other.network) {
            (NetworkCapability::NoAccess, _) => true,
            (_, NetworkCapability::Unrestricted) => true,
            (NetworkCapability::DomainAllowlist(d1), NetworkCapability::DomainAllowlist(d2)) =>
                d1.is_subset(d2),
            _ => false,
        };
        let cmd_ok = self.commands.allowlist.is_subset(&other.commands.allowlist);
        let ui_ok = (!self.ui.status_bar || other.ui.status_bar) && (!self.ui.sidebar
            || other.ui.sidebar) && (!self.ui.notifications || other.ui.notifications)
            && (!self.ui.webview || other.ui.webview);
        fs_ok && net_ok && cmd_ok && ui_ok
    }

    /// A capability set equal to this one.
    pub fn duplicate(&self) -> (r: PluginCapabilities)
        ensures
            fs_like(r.filesystem, self.filesystem),
            net_like(r.network, self.network),
            r.commands.allowlist@ == self.commands.allowlist@,
            r.commands.require_confirmation == self.commands.require_confirmation,
            r.ui == self.ui,
    {
        PluginCapabilities {
            filesystem: self.filesystem.duplicate(),
            network: self.network.duplicate(),
            commands: self.commands.duplicate(),
            ui: self.ui,
        }
    }
}

// ============================================================================
// LAWS OF THE ALGEBRA
// ============================================================================

/// Every capability set is a subset of itself.
pub proof fn lemma_subset_reflexive(a: &PluginCapabilities)
    ensures
        caps_subset(a, a),
{
}

/// The subset order is transitive.
pub proof fn lemma_subset_transitive(
    a: &PluginCapabilities,
    b: &PluginCapabilities,
    c: &PluginCapabilities,
)
    requires
        caps_subset(a, b),
        caps_subset(b, c),
    ensures
        caps_subset(a, c),
{
}

/// A scoped filesystem grant and a workspace-wide one admit no common
/// upper bound in the filesystem order, so merging such a pair cannot
/// bound both sides; every other pair is bounded by its merge.
pub open spec fn fs_merge_bounds_both(
    a: FilesystemCapability,
    b: FilesystemCapability,
) -> bool {
    !((a is Scoped && (b is WorkspaceRead || b is WorkspaceReadWrite)) || (b is Scoped && (
    a is WorkspaceRead || a is WorkspaceReadWrite)))
}

/// Merging yields an upper bound of both arguments, for every pair whose
/// filesystem dimension admits one.
pub proof fn lemma_merge_upper_bound(
    a: &PluginCapabilities,
    b: &PluginCapabilities,
    m: &PluginCapabilities,
)
    requires
        caps_merge_ok(a, b, m),
        fs_merge_bounds_both(a.filesystem, b.filesystem),
    ensures
        caps_subset(a, m),
        caps_subset(b, m),
{
}

/// The empty capability set is below every capability set.
pub proof fn lemma_none_absorbing(n: &PluginCapabilities, b: &PluginCapabilities)
    requires
        caps_none(n),
    ensures
        caps_subset(n, b),
{
}

/// The empty capability set is an identity for `merge`, on either side.
pub proof fn lemma_none_merge_identity(
    n: &PluginCapabilities,
    b: &PluginCapabilities,
    m: &PluginCapabilities,
)
    requires
        caps_none(n),
        caps_merge_ok(n, b, m) || caps_merge_ok(b, n, m),
    ensures
        fs_like(m.filesystem, b.filesystem),
        net_like(m.network, b.network),
        m.commands.allowlist@ == b.commands.allowlist@,
        m.commands.require_confirmation == b.commands.require_confirmation,
        m.ui == b.ui,
{
    assert(m.commands.allowlist@ =~= b.commands.allowlist@);
}

impl Default for FilesystemCapability {
    /// No access by default.
    fn default() -> (r: FilesystemCapability)
        ensures
            r is NoAccess,
    {
        FilesystemCapability::NoAccess
    }
}

impl Default for NetworkCapability {
    /// No access by default.
    fn default() -> (r: NetworkCapability)
        ensures
            r is NoAccess,
    {
        NetworkCapability::NoAccess
    }
}

impl Default for CommandCapability {
    /// An empty allowlist that would still ask for confirmation.
    fn default() -> (r: CommandCapability)
        ensures
            r.allowlist@ == Set::<Seq<char>>::empty(),
            r.require_confirmation == true,
    {
        CommandCapability::new_default()
    }
}

impl Default for UiCapability {
    /// No UI surface by default.
    fn default() -> (r: UiCapability)
        ensures
            !r.status_bar && !r.sidebar && !r.notifications && !r.webview,
    {
        UiCapability::none()
    }
}

impl Default for PluginCapabilities {
    /// The sandbox default: nothing granted.
    fn default() -> (r: PluginCapabilities)
        ensures
            caps_none(&r),
    {
        PluginCapabilities::none()
    }
}

// ============================================================================
// TIERS
// ============================================================================

/// Below the empty preset: nothing granted anywhere.
pub open spec fn tier_sandboxed(c: &PluginCapabilities) -> bool {
    &&& c.filesystem is NoAccess
    &&& c.network is NoAccess
    &&& c.commands.allowlist@.subset_of(Set::<Seq<char>>::empty())
    &&& !c.ui.status_bar
    &&& !c.ui.sidebar
    &&& !c.ui.notifications
    &&& !c.ui.webview
}

/// Below the read-only workspace preset.
pub open spec fn tier_read_only(c: &PluginCapabilities) -> bool {
    &&& (c.filesystem is NoAccess || c.filesystem is WorkspaceRead)
    &&& c.network is NoAccess
    &&& c.commands.allowlist@.subset_of(Set::<Seq<char>>::empty())
    &&& !c.ui.sidebar
    &&& !c.ui.webview
}

/// Below the read-write workspace preset.
pub open spec fn tier_read_write(c: &PluginCapabilities) -> bool {
    &&& (c.filesystem is NoAccess || c.filesystem is WorkspaceRead || c.filesystem
        is WorkspaceReadWrite)
    &&& c.network is NoAccess
    &&& c.commands.allowlist@.subset_of(Set::<Seq<char>>::empty())
    &&& !c.ui.sidebar
    &&& !c.ui.webview
}

/// The coarse tier of a capability set, by membership against the presets
/// in increasing order.
pub open spec fn spec_tier(c: &PluginCapabilities) -> Seq<char> {
    if tier_sandboxed(c) {
        "sandboxed"@
    } else if tier_read_only(c) {
        "read-only"@
    } else if tier_read_write(c) {
        "read-write"@
    } else {
        "full"@
    }
}

impl PluginCapabilities {
    /// The coarse tier of this capability set.
    pub fn capability_tier(&self) -> (r: &'static str)
        ensures
            r@ == spec_tier(self),
    {
        if self.is_subset_of(&PluginCapabilities::none()) {
            assert(tier_sandboxed(self));
            "sandboxed"
        } else if self.is_subset_of(&PluginCapabilities::workspace_read()) {
            assert(tier_read_only(self) && !tier_sandboxed(self));
            "read-only"
        } else if self.is_subset_of(&PluginCapabilities::workspace_read_write()) {
            assert(tier_read_write(self) && !tier_read_only(self));
            "read-write"
        } else {
            assert(!tier_read_write(self));
            "full"
        }
    }
}

} // verus!
