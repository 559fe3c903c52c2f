//! Per-plugin resource accounting: memory cap, one-second operation
//! window, and per-call timeout budget, with structured errors carrying the
//! measured value and the limit. The script isolate itself lives outside
//! the library; everything decidable about its budget is decided here.

use vstd::prelude::*;
use vstd::string::*;
use crate::capabilities::PluginCapabilities;
use crate::smap::StrMap;

verus! {

/// The default heap cap: 50 MiB.
pub const DEFAULT_MAX_MEMORY: usize = 52428800;

/// The default per-call timeout in milliseconds.
pub const DEFAULT_MAX_CPU_TIME_MS: u64 = 5000;

/// The default operations allowed per one-second window.
pub const DEFAULT_MAX_OPERATIONS: u64 = 100;

/// A sandbox failure, carrying the measured value and the limit where a
/// budget was exceeded.
#[derive(Debug)]
pub enum PluginError {
    /// The call outlived its wall-clock budget.
    Timeout { duration_ms: u64 },
    /// The worker heap sample exceeded the cap.
    MemoryLimitExceeded { used: usize, limit: usize },
    /// Too many mediated calls inside one second.
    RateLimitExceeded { current: u64, limit: u64 },
    /// A capability was missing for the operation.
    PermissionDenied { operation: String, capability: String },
    /// The script failed.
    ExecutionError(String),
    /// A value would not serialize across the bridge.
    SerializationError(String),
    /// The manifest was unusable.
    InvalidManifest(String),
    /// The named hook is not registered.
    HookNotFound(String),
    /// The worker channel is gone.
    WorkerDisconnected,
    /// The isolate could not start.
    RuntimeInitFailed(String),
}

/// The budgets one sandbox enforces.
pub struct ResourceLimits {
    /// Heap cap in bytes.
    pub max_memory: usize,
    /// Per-call wall-clock budget in milliseconds.
    pub max_cpu_time_ms: u64,
    /// Mediated calls allowed per one-second window.
    pub max_operations: u64,
}

impl ResourceLimits {
    /// The default budgets.
    pub fn new_default() -> (r: ResourceLimits)
        ensures
            r.max_memory == DEFAULT_MAX_MEMORY,
            r.max_cpu_time_ms == DEFAULT_MAX_CPU_TIME_MS,
            r.max_operations == DEFAULT_MAX_OPERATIONS,
    {
        ResourceLimits {
            max_memory: DEFAULT_MAX_MEMORY,
            max_cpu_time_ms: DEFAULT_MAX_CPU_TIME_MS,
            max_operations: DEFAULT_MAX_OPERATIONS,
        }
    }
}

/// A point-in-time account of one sandbox.
pub struct ResourceStats {
    pub memory_used: usize,
    pub operations_count: u64,
    pub last_operation_ms: Option<u64>,
}

/// The running account: a one-second sliding window of operations, the
/// last heap sample, and the last operation time, all in Unix
/// milliseconds.
pub struct ResourceTracker {
    pub window_start_ms: u64,
    pub ops_in_window: u64,
    pub last_op_ms: Option<u64>,
    pub memory_used: usize,
}

/// What recording one operation at `now_ms` does to the tracker: a window
/// older than one second restarts with this single operation; otherwise
/// the count grows, saturating rather than wrapping.
pub open spec fn tracker_recorded(
    before: &ResourceTracker,
    now_ms: u64,
    after: &ResourceTracker,
) -> bool {
    &&& (if now_ms >= before.window_start_ms + 1000 {
        after.window_start_ms == now_ms && after.ops_in_window == 1
    } else {
        after.window_start_ms == before.window_start_ms && after.ops_in_window == (
        if before.ops_in_window < u64::MAX {
            before.ops_in_window + 1
        } else {
            before.ops_in_window as int
        })
    })
    &&& after.last_op_ms == Option::Some(now_ms)
    &&& after.memory_used == before.memory_used
}

impl ResourceTracker {
    /// A fresh account: nothing recorded.
    pub fn new() -> (r: ResourceTracker)
        ensures
            r.window_start_ms == 0,
            r.ops_in_window == 0,
            r.last_op_ms is None,
            r.memory_used == 0,
    {
        ResourceTracker {
            window_start_ms: 0,
            ops_in_window: 0,
            last_op_ms: None,
            memory_used: 0,
        }
    }

    /// Stores the latest heap sample.
    pub fn update_memory(&mut self, bytes: usize)
        ensures
            final(self).memory_used == bytes,
            final(self).window_start_ms == old(self).window_start_ms,
            final(self).ops_in_window == old(self).ops_in_window,
            final(self).last_op_ms == old(self).last_op_ms,
    {
        self.memory_used = bytes;
    }

    /// Records one operation at the given clock reading.
    pub fn increment_operations(&mut self, now_ms: u64)
        ensures
            tracker_recorded(old(self), now_ms, final(self)),
    {
        if self.window_start_ms <= u64::MAX - 1000 && now_ms >= self.window_start_ms + 1000 {
            self.window_start_ms = now_ms;
            self.ops_in_window = 1;
        } else {
            if self.ops_in_window < u64::MAX {
                self.ops_in_window = self.ops_in_window + 1;
            }
        }
        self.last_op_ms = Some(now_ms);
    }

    /// Empties the window.
    pub fn reset_operations(&mut self)
        ensures
            final(self).ops_in_window == 0,
            final(self).last_op_ms is None,
            final(self).window_start_ms == old(self).window_start_ms,
            final(self).memory_used == old(self).memory_used,
    {
        self.ops_in_window = 0;
        self.last_op_ms = None;
    }
}

/// Within one window, the call recorded after the cap was reached pushes
/// the count over the cap: submitting one more call than the window allows
/// makes the overflow call refusable.
pub proof fn lemma_rate_limit_overflow(
    before: &ResourceTracker,
    now_ms: u64,
    after: &ResourceTracker,
    limit: u64,
)
    requires
        tracker_recorded(before, now_ms, after),
        now_ms < before.window_start_ms + 1000,
        before.ops_in_window == limit,
        limit < u64::MAX,
    ensures
        after.ops_in_window > limit,
{
}

// ============================================================================
// THE SANDBOX
// ============================================================================

/// The accounting side of one plugin sandbox: its id, its capability set,
/// its budgets and its running account. The worker thread and isolate
/// that execute the plugin's code live with the host harness.
pub struct PluginSandbox {
    pub id: String,
    pub capabilities: PluginCapabilities,
    pub resource_limits: ResourceLimits,
    pub tracker: ResourceTracker,
}

impl PluginSandbox {
    /// A sandbox with a fresh account.
    pub fn new(id: String, capabilities: PluginCapabilities, resource_limits: ResourceLimits)
        -> (r: PluginSandbox)
        ensures
            r.id == id,
            r.capabilities == capabilities,
            r.resource_limits == resource_limits,
            r.tracker.ops_in_window == 0,
            r.tracker.memory_used == 0,
            r.tracker.last_op_ms is None,
            r.tracker.window_start_ms == 0,
    {
        PluginSandbox { id, capabilities, resource_limits, tracker: ResourceTracker::new() }
    }

    /// Checks the standing budgets: the heap sample against the memory
    /// cap, then the window count against the operation cap; each error
    /// carries the measured value and the limit.
    pub fn check_resource_limits(&self) -> (r: Result<(), PluginError>)
        ensures
            match r {
                Ok(()) => self.tracker.memory_used <= self.resource_limits.max_memory
                    && self.tracker.ops_in_window <= self.resource_limits.max_operations,
                Err(e) => if self.tracker.memory_used > self.resource_limits.max_memory {
                    (e matches PluginError::MemoryLimitExceeded { used, limit } && used
                        == self.tracker.memory_used && limit == self.resource_limits.max_memory)
                } else {
                    self.tracker.ops_in_window > self.resource_limits.max_operations && (
                    e matches PluginError::RateLimitExceeded { current, limit } && current
                        == self.tracker.ops_in_window && limit
                        == self.resource_limits.max_operations)
                },
            },
    {
        if self.tracker.memory_used > self.resource_limits.max_memory {
            return Err(
                PluginError::MemoryLimitExceeded {
                    used: self.tracker.memory_used,
                    limit: self.resource_limits.max_memory,
                },
            );
        }
        if self.tracker.ops_in_window > self.resource_limits.max_operations {
            return Err(
                PluginError::RateLimitExceeded {
                    current: self.tracker.ops_in_window,
                    limit: self.resource_limits.max_operations,
                },
            );
        }
        Ok(())
    }

    /// Accounts one mediated call at the given clock reading and answers
    /// whether it may proceed: the call that overflows the one-second
    /// window is refused with the count it reached and the cap.
    pub fn begin_call(&mut self, now_ms: u64) -> (r: Result<(), PluginError>)
        ensures
            tracker_recorded(&old(self).tracker, now_ms, &final(self).tracker),
            final(self).id == old(self).id,
            final(self).capabilities == old(self).capabilities,
            final(self).resource_limits == old(self).resource_limits,
            match r {
                Ok(()) => final(self).tracker.ops_in_window
                    <= old(self).resource_limits.max_operations,
                Err(e) => final(self).tracker.ops_in_window
                    > old(self).resource_limits.max_operations && (e matches
                PluginError::RateLimitExceeded { current, limit } && current == final(self).tracker.ops_in_window && limit == old(self).resource_limits.max_operations),
            },
    {
        self.tracker.increment_operations(now_ms);
        if self.tracker.ops_in_window > self.resource_limits.max_operations {
            return Err(
                PluginError::RateLimitExceeded {
                    current: self.tracker.ops_in_window,
                    limit: self.resource_limits.max_operations,
                },
            );
        }
        Ok(())
    }

    /// Decides the timeout verdict for a call that ran `elapsed_ms`:
    /// exceeding the wall-clock budget surfaces a timeout carrying the
    /// budget.
    pub fn check_timeout(&self, elapsed_ms: u64) -> (r: Result<(), PluginError>)
        ensures
            match r {
                Ok(()) => elapsed_ms <= self.resource_limits.max_cpu_time_ms,
                Err(e) => elapsed_ms > self.resource_limits.max_cpu_time_ms && (e matches
                PluginError::Timeout { duration_ms } && duration_ms
                    == self.resource_limits.max_cpu_time_ms),
            },
    {
        if elapsed_ms > self.resource_limits.max_cpu_time_ms {
            Err(PluginError::Timeout { duration_ms: self.resource_limits.max_cpu_time_ms })
        } else {
            Ok(())
        }
    }

    /// The current account.
    pub fn get_resource_stats(&self) -> (r: ResourceStats)
        ensures
            r.memory_used == self.tracker.memory_used,
            r.operations_count == self.tracker.ops_in_window,
            r.last_operation_ms == self.tracker.last_op_ms,
    {
        ResourceStats {
            memory_used: self.tracker.memory_used,
            operations_count: self.tracker.ops_in_window,
            last_operation_ms: self.tracker.last_op_ms,
        }
    }
}

// ============================================================================
// THE BUILDER
// ============================================================================

/// Assembles a sandbox from a capability set and optional budget
/// overrides; the defaults fill whatever is left unset.
pub struct SandboxBuilder {
    id: Option<String>,
    capabilities: Option<PluginCapabilities>,
    memory_limit: Option<usize>,
    cpu_time_limit_ms: Option<u64>,
    operations_limit: Option<u64>,
}

impl SandboxBuilder {
    /// The id handed to `build`, if one was set.
    pub closed spec fn spec_id(&self) -> Option<String> {
        self.id
    }

    /// The capability set handed to `build`, if one was set.
    pub closed spec fn spec_capabilities(&self) -> Option<PluginCapabilities> {
        self.capabilities
    }

    /// The overridden budgets, where set.
    pub closed spec fn spec_limits(&self) -> (Option<usize>, Option<u64>, Option<u64>) {
        (self.memory_limit, self.cpu_time_limit_ms, self.operations_limit)
    }

    /// An empty builder.
    pub fn new() -> (r: SandboxBuilder)
        ensures
            r.spec_id() is None,
            r.spec_capabilities() is None,
            r.spec_limits() == (Option::<usize>::None, Option::<u64>::None, Option::<u64>::None),
    {
        SandboxBuilder {
            id: None,
            capabilities: None,
            memory_limit: None,
            cpu_time_limit_ms: None,
            operations_limit: None,
        }
    }

    /// Sets the plugin id and capability set the sandbox will enforce.
    pub fn manifest(self, id: String, capabilities: PluginCapabilities) -> (r: SandboxBuilder)
        ensures
            r.spec_id() == Option::Some(id),
            r.spec_capabilities() == Option::Some(capabilities),
            r.spec_limits() == self.spec_limits(),
    {
        SandboxBuilder {
            id: Some(id),
            capabilities: Some(capabilities),
            memory_limit: self.memory_limit,
            cpu_time_limit_ms: self.cpu_time_limit_ms,
            operations_limit: self.operations_limit,
        }
    }

    /// Overrides the heap cap.
    pub fn memory_limit(self, bytes: usize) -> (r: SandboxBuilder)
        ensures
            r.spec_limits().0 == Option::Some(bytes),
            r.spec_limits().1 == self.spec_limits().1,
            r.spec_limits().2 == self.spec_limits().2,
            r.spec_id() == self.spec_id(),
            r.spec_capabilities() == self.spec_capabilities(),
    {
        SandboxBuilder {
            id: self.id,
            capabilities: self.capabilities,
            memory_limit: Some(bytes),
            cpu_time_limit_ms: self.cpu_time_limit_ms,
            operations_limit: self.operations_limit,
        }
    }

    /// Overrides the per-call wall-clock budget.
    pub fn cpu_time_limit(self, ms: u64) -> (r: SandboxBuilder)
        ensures
            r.spec_limits().1 == Option::Some(ms),
            r.spec_limits().0 == self.spec_limits().0,
            r.spec_limits().2 == self.spec_limits().2,
            r.spec_id() == self.spec_id(),
            r.spec_capabilities() == self.spec_capabilities(),
    {
        SandboxBuilder {
            id: self.id,
            capabilities: self.capabilities,
            memory_limit: self.memory_limit,
            cpu_time_limit_ms: Some(ms),
            operations_limit: self.operations_limit,
        }
    }

    /// Overrides the per-second operation cap.
    pub fn operations_limit(self, count: u64) -> (r: SandboxBuilder)
        ensures
            r.spec_limits().2 == Option::Some(count),
            r.spec_limits().0 == self.spec_limits().0,
            r.spec_limits().1 == self.spec_limits().1,
            r.spec_id() == self.spec_id(),
            r.spec_capabilities() == self.spec_capabilities(),
    {
        SandboxBuilder {
            id: self.id,
            capabilities: self.capabilities,
            memory_limit: self.memory_limit,
            cpu_time_limit_ms: self.cpu_time_limit_ms,
            operations_limit: Some(count),
        }
    }

    /// Builds the sandbox; without an id and capability set there is
    /// nothing to build.
    pub fn build(self) -> (r: Result<PluginSandbox, PluginError>)
        ensures
            match r {
                Ok(sb) => {
                    &&& self.spec_id() matches Option::Some(id) && sb.id == id
                    &&& self.spec_capabilities() matches Option::Some(c) && sb.capabilities
                        == c
                    &&& sb.resource_limits.max_memory == (match self.spec_limits().0 {
                        Option::Some(m) => m,
                        Option::None => DEFAULT_MAX_MEMORY,
                    })
                    &&& sb.resource_limits.max_cpu_time_ms == (match self.spec_limits().1 {
                        Option::Some(m) => m,
                        Option::None => DEFAULT_MAX_CPU_TIME_MS,
                    })
                    &&& sb.resource_limits.max_operations == (match self.spec_limits().2 {
                        Option::Some(m) => m,
                        Option::None => DEFAULT_MAX_OPERATIONS,
                    })
                    &&& sb.tracker.ops_in_window == 0
                },
                Err(e) => (self.spec_id() is None || self.spec_capabilities() is None)
                    && e is InvalidManifest,
            },
    {
        let id = match self.id {
            Some(id) => id,
            None => {
                return Err(PluginError::InvalidManifest(String::from_str("manifest required")));
            }
        };
        let capabilities = match self.capabilities {
            Some(c) => c,
            None => {
                return Err(PluginError::InvalidManifest(String::from_str("manifest required")));
            }
        };
        let resource_limits = ResourceLimits {
            max_memory: match self.memory_limit {
                Some(m) => m,
                None => DEFAULT_MAX_MEMORY,
            },
            max_cpu_time_ms: match self.cpu_time_limit_ms {
                Some(m) => m,
                None => DEFAULT_MAX_CPU_TIME_MS,
            },
            max_operations: match self.operations_limit {
                Some(m) => m,
                None => DEFAULT_MAX_OPERATIONS,
            },
        };
        Ok(PluginSandbox::new(id, capabilities, resource_limits))
    }
}

// ============================================================================
// THE REGISTRY
// ============================================================================

/// The sandboxes of the active plugins, by id.
pub struct SandboxRegistry {
    sandboxes: StrMap<PluginSandbox>,
}

impl SandboxRegistry {
    /// The registered sandboxes by id.
    pub closed spec fn view_map(&self) -> Map<Seq<char>, PluginSandbox> {
        self.sandboxes@
    }

    /// An empty registry.
    pub fn new() -> (r: SandboxRegistry)
        ensures
            r.view_map() == Map::<Seq<char>, PluginSandbox>::empty(),
    {
        SandboxRegistry { sandboxes: StrMap::new() }
    }

    /// Registers a sandbox under its id; an id registers only once.
    pub fn register(&mut self, sandbox: PluginSandbox) -> (r: Result<(), PluginError>)
        ensures
            match r {
                Ok(()) => !old(self).view_map().contains_key(sandbox.id@) && final(self).view_map() == old(self).view_map().insert(sandbox.id@, sandbox),
                Err(e) => old(self).view_map().contains_key(sandbox.id@) && e
                    is InvalidManifest && final(self).view_map() == old(self).view_map(),
            },
    {
        if self.sandboxes.contains_key(sandbox.id.as_str()) {
            return Err(PluginError::InvalidManifest(sandbox.id));
        }
        let key = sandbox.id.clone();
        self.sandboxes.insert(key, sandbox);
        Ok(())
    }

    /// The sandbox under an id.
    pub fn get(&self, plugin_id: &str) -> (r: Option<&PluginSandbox>)
        ensures
            match r {
                Some(sb) => self.view_map().contains_key(plugin_id@) && *sb == self.view_map()[
                    plugin_id@],
                None => !self.view_map().contains_key(plugin_id@),
            },
    {
        self.sandboxes.get(plugin_id)
    }

    /// Removes and hands back the sandbox under an id; the host harness
    /// performs the worker teardown with it.
    pub fn unregister(&mut self, plugin_id: &str) -> (r: Option<PluginSandbox>)
        ensures
            final(self).view_map() == old(self).view_map().remove(plugin_id@),
            match r {
                Some(sb) => old(self).view_map().contains_key(plugin_id@) && sb == old(self).view_map()[plugin_id@],
                None => !old(self).view_map().contains_key(plugin_id@),
            },
    {
        self.sandboxes.take(plugin_id)
    }

    /// Accounts one mediated call for a plugin at the given clock reading;
    /// an unknown id reports the disconnect.
    pub fn begin_call(&mut self, plugin_id: &str, now_ms: u64) -> (r: Result<(), PluginError>)
        ensures
            !old(self).view_map().contains_key(plugin_id@) ==> r is Err && final(self).view_map() == old(self).view_map(),
            old(self).view_map().contains_key(plugin_id@) ==> {
                &&& final(self).view_map() == old(self).view_map().insert(
                    plugin_id@,
                    final(self).view_map()[plugin_id@],
                )
                &&& tracker_recorded(
                    &old(self).view_map()[plugin_id@].tracker,
                    now_ms,
                    &final(self).view_map()[plugin_id@].tracker,
                )
                &&& (match r {
                    Ok(()) => final(self).view_map()[plugin_id@].tracker.ops_in_window
                        <= old(self).view_map()[plugin_id@].resource_limits.max_operations,
                    Err(e) => final(self).view_map()[plugin_id@].tracker.ops_in_window > old(self).view_map()[plugin_id@].resource_limits.max_operations && (e matches
                    PluginError::RateLimitExceeded { current, limit } && current == final(self).view_map()[plugin_id@].tracker.ops_in_window && limit == old(self).view_map()[plugin_id@].resource_limits.max_operations),
                })
            },
    {
        let mut sb = match self.sandboxes.take(plugin_id) {
            Some(sb) => sb,
            None => {
                return Err(PluginError::WorkerDisconnected);
            }
        };
        let outcome = sb.begin_call(now_ms);
        let key = sb.id.clone();
        let ghost k = plugin_id@;
        self.sandboxes.insert(String::from_str(plugin_id), sb);
        proof {
            assert(self.view_map() =~= old(self).view_map().insert(k, self.view_map()[k]));
        }
        outcome
    }

    /// The resource accounts of every registered sandbox, by id: each row
    /// is a registered sandbox, and every registered sandbox has a row.
    pub fn get_all_stats(&self) -> (r: Vec<(String, ResourceStats)>)
        ensures
            forall|i: int| 0 <= i < r@.len() ==> {
                &&& self.view_map().contains_key((#[trigger] r@[i]).0@)
                &&& r@[i].1.memory_used == self.view_map()[r@[i].0@].tracker.memory_used
                &&& r@[i].1.operations_count == self.view_map()[r@[i].0@].tracker.ops_in_window
            },
            forall|k: Seq<char>|
                self.view_map().contains_key(k) ==> exists|i: int|
                    0 <= i < r@.len() && (#[trigger] r@[i].0@) == k,
    {
        let ids = self.sandboxes.keys();
        let n = ids.len();
        let mut r: Vec<(String, ResourceStats)> = Vec::new();
        let mut i: usize = 0;
        while i < n
            invariant
                i <= n,
                n == ids@.len(),
                forall|j: int|
                    0 <= j < n ==> self.view_map().contains_key((#[trigger] ids@[j])@),
                forall|j: int| 0 <= j < r@.len() ==> {
                    &&& self.view_map().contains_key((#[trigger] r@[j]).0@)
                    &&& r@[j].1.memory_used == self.view_map()[r@[j].0@].tracker.memory_used
                    &&& r@[j].1.operations_count == self.view_map()[
                        r@[j].0@
                    ].tracker.ops_in_window
                },
                forall|j: int|
                    0 <= j < i ==> exists|l: int|
                        0 <= l < r@.len() && (#[trigger] r@[l].0@) == (#[trigger] ids@[j])@,
            decreases n - i,
        {
            let ghost before = r@;
            match self.sandboxes.get(ids[i].as_str()) {
                Some(sb) => {
                    let stats = sb.get_resource_stats();
                    r.push((ids[i].clone(), stats));
                    proof {
                        assert(r@[before.len() as int].0@ == ids@[i as int]@);
                        assert(forall|l: int|
                            0 <= l < before.len() ==> r@[l] == before[l]);
                    }
                }
                None => {
                    proof {
                        assert(false);
                    }
                }
            }
            i += 1;
        }
        proof {
            assert forall|k: Seq<char>| self.view_map().contains_key(k) implies exists|l: int|
                0 <= l < r@.len() && (#[trigger] r@[l].0@) == k by {
                let j = choose|j: int| 0 <= j < ids@.len() && (#[trigger] ids@[j])@ == k;
                assert(exists|l: int| 0 <= l < r@.len() && (#[trigger] r@[l].0@) == ids@[j]@);
            }
        }
        r
    }

    /// The registered ids, in no particular order.
    pub fn list(&self) -> (r: Vec<String>)
        ensures
            forall|i: int|
                0 <= i < r@.len() ==> self.view_map().contains_key((#[trigger] r@[i])@),
            forall|x: Seq<char>| self.view_map().contains_key(x) ==> exists|i: int|
                0 <= i < r@.len() && (#[trigger] r@[i])@ == x,
    {
        self.sandboxes.keys()
    }
}

} // verus!
