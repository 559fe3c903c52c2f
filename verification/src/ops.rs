//! The mediated operations surface: the capability validation that runs
//! before any host primitive, the shell-metacharacter sanitizer for
//! command arguments, and the plain data types the operations exchange.
//! Path arguments are canonicalized by the host harness before they reach
//! these checks.

use vstd::prelude::*;
use vstd::string::*;
use crate::capabilities::{
    fs_can_read, fs_can_write, net_can_access, PluginCapabilities,
};
use crate::ext::{url_host, url_host_of};
use crate::text::str_eq;

verus! {

// ============================================================================
// ERRORS
// ============================================================================

/// Why a mediated operation is refused or fails.
#[derive(Debug)]
pub enum ApiError {
    /// The capability for the operation is missing.
    PermissionDenied { operation: String, capability: String },
    /// The path did not canonicalize.
    InvalidPath { path: String },
    /// The canonical path lies outside the granted scope.
    PathNotAllowed { path: String },
    /// The URL's host is not on the allowlist.
    DomainNotAllowed { domain: String },
    /// The command is not on the allowlist.
    CommandNotAllowed { command: String },
    /// No plugin is known under the id.
    PluginNotFound { plugin_id: String },
    /// The filesystem primitive failed.
    FileError(String),
    /// The URL did not parse, named no host, or the request failed.
    NetworkError(String),
    /// The subprocess could not run.
    CommandError(String),
    /// The UI event could not be delivered.
    UiError(String),
    /// A value would not serialize.
    SerializationError(String),
    /// An editor round trip failed or timed out.
    InternalError(String),
}

// ============================================================================
// CAPABILITY VALIDATION
// ============================================================================

/// Refuses a read unless the filesystem grant admits the canonical path: a
/// plugin without filesystem access is denied outright, and a granted one
/// is confined to its scope.
pub fn validate_fs_read(
    capabilities: &PluginCapabilities,
    path: &str,
    workspace_root: &str,
) -> (r: Result<(), ApiError>)
    ensures
        r is Ok <==> fs_can_read(capabilities.filesystem, path@, workspace_root@),
        r matches Err(e) ==> if capabilities.filesystem is NoAccess {
            e is PermissionDenied
        } else {
            (e matches ApiError::PathNotAllowed { path: p } && p@ == path@)
        },
{
    match &capabilities.filesystem {
        crate::capabilities::FilesystemCapability::NoAccess => Err(
            ApiError::PermissionDenied {
                operation: String::from_str("read"),
                capability: String::from_str("filesystem read"),
            },
        ),
        _ => {
            if capabilities.filesystem.can_read(path, workspace_root) {
                Ok(())
            } else {
                Err(ApiError::PathNotAllowed { path: String::from_str(path) })
            }
        }
    }
}

/// Refuses a write unless the filesystem grant admits the canonical path:
/// read-only and no-access grants are denied outright.
pub fn validate_fs_write(
    capabilities: &PluginCapabilities,
    path: &str,
    workspace_root: &str,
) -> (r: Result<(), ApiError>)
    ensures
        r is Ok <==> fs_can_write(capabilities.filesystem, path@, workspace_root@),
        r matches Err(e) ==> if capabilities.filesystem is NoAccess
            || capabilities.filesystem is WorkspaceRead {
            e is PermissionDenied
        } else {
            (e matches ApiError::PathNotAllowed { path: p } && p@ == path@)
        },
{
    match &capabilities.filesystem {
        crate::capabilities::FilesystemCapability::NoAccess => Err(
            ApiError::PermissionDenied {
                operation: String::from_str("write"),
                capability: String::from_str("filesystem write"),
            },
        ),
        crate::capabilities::FilesystemCapability::WorkspaceRead => Err(
            ApiError::PermissionDenied {
                operation: String::from_str("write"),
                capability: String::from_str("filesystem write"),
            },
        ),
        _ => {
            if capabilities.filesystem.can_write(path, workspace_root) {
                Ok(())
            } else {
                Err(ApiError::PathNotAllowed { path: String::from_str(path) })
            }
        }
    }
}

/// Refuses a fetch unless the network grant admits the URL's host. A
/// plugin without network access is denied whatever the URL says; with an
/// allowlist, the URL must parse, name a host, and the host must be
/// listed.
pub fn validate_network(capabilities: &PluginCapabilities, url: &str) -> (r: Result<
    (),
    ApiError,
>)
    ensures
        capabilities.network is NoAccess ==> (r matches Err(e) && e is PermissionDenied),
        capabilities.network is Unrestricted ==> r is Ok,
        capabilities.network is DomainAllowlist ==> match url_host_of(url@) {
            Option::Some(h) => {
                &&& (r is Ok <==> net_can_access(capabilities.network, h))
                &&& (r matches Err(e) ==> (e matches ApiError::DomainNotAllowed { domain }
                    && domain@ == h))
            },
            Option::None => (r matches Err(e) && e is NetworkError),
        },
{
    match &capabilities.network {
        crate::capabilities::NetworkCapability::NoAccess => Err(
            ApiError::PermissionDenied {
                operation: String::from_str("network request"),
                capability: String::from_str("network access"),
            },
        ),
        crate::capabilities::NetworkCapability::Unrestricted => Ok(()),
        crate::capabilities::NetworkCapability::DomainAllowlist(domains) => {
            match url_host(url) {
                Option::Some(host) => {
                    if domains.contains(host.as_str()) {
                        Ok(())
                    } else {
                        Err(ApiError::DomainNotAllowed { domain: host })
                    }
                }
                Option::None => Err(ApiError::NetworkError(String::from_str(url))),
            }
        }
    }
}

/// Refuses a command not on the allowlist.
pub fn validate_command(capabilities: &PluginCapabilities, command: &str) -> (r: Result<
    (),
    ApiError,
>)
    ensures
        r is Ok <==> capabilities.commands.allowlist@.contains(command@),
        r matches Err(e) ==> (e matches ApiError::CommandNotAllowed { command: c } && c@
            == command@),
{
    if capabilities.commands.can_execute(command) {
        Ok(())
    } else {
        Err(ApiError::CommandNotAllowed { command: String::from_str(command) })
    }
}

/// Whether the UI grant covers the named operation; an unknown name is
/// covered by nothing.
pub open spec fn ui_op_allowed(c: &PluginCapabilities, operation: Seq<char>) -> bool {
    if operation == "status_bar"@ {
        c.ui.status_bar
    } else if operation == "sidebar"@ {
        c.ui.sidebar
    } else if operation == "notification"@ {
        c.ui.notifications
    } else if operation == "webview"@ {
        c.ui.webview
    } else {
        false
    }
}

/// Refuses a UI operation outside the granted surface.
pub fn validate_ui(capabilities: &PluginCapabilities, operation: &str) -> (r: Result<
    (),
    ApiError,
>)
    ensures
        r is Ok <==> ui_op_allowed(capabilities, operation@),
        r matches Err(e) ==> (e matches ApiError::PermissionDenied { operation: o, .. } && o@
            == operation@),
{
    let allowed = if str_eq(operation, "status_bar") {
        capabilities.ui.status_bar
    } else if str_eq(operation, "sidebar") {
        capabilities.ui.sidebar
    } else if str_eq(operation, "notification") {
        capabilities.ui.notifications
    } else if str_eq(operation, "webview") {
        capabilities.ui.webview
    } else {
        false
    };
    if allowed {
        Ok(())
    } else {
        Err(
            ApiError::PermissionDenied {
                operation: String::from_str(operation),
                capability: String::from_str("ui"),
            },
        )
    }
}

// ============================================================================
// ARGUMENT SANITIZATION
// ============================================================================

/// Whether a character is stripped from command arguments: the shell
/// metacharacters, stripped even when no shell is involved.
pub open spec fn is_shell_meta(c: char) -> bool {
    c == '|' || c == '&' || c == ';' || c == '>' || c == '<' || c == '`' || c == '$' || c
        == '\n' || c == '\r'
}

/// A text with every shell metacharacter removed, order kept.
pub open spec fn sanitized_text(s: Seq<char>) -> Seq<char> {
    s.filter(|c: char| !is_shell_meta(c))
}

/// Strips the shell metacharacters from one argument.
pub fn sanitize_arg(arg: &str) -> (r: String)
    ensures
        r@ == sanitized_text(arg@),
{
    let n = arg.unicode_len();
    let mut out = String::new();
    proof {
        assert(arg@.take(0) =~= Seq::<char>::empty());
        assert(out@ =~= sanitized_text(arg@.take(0))) by {
            reveal_with_fuel(Seq::filter, 2);
        }
    }
    let mut i: usize = 0;
    while i < n
        invariant
            i <= n,
            n == arg@.len(),
            out@ == sanitized_text(arg@.take(i as int)),
        decreases n - i,
    {
        proof {
            assert(arg@.take(i + 1).drop_last() =~= arg@.take(i as int));
            assert(arg@.take(i + 1).last() == arg@[i as int]);
            reveal_with_fuel(Seq::filter, 2);
        }
        let c = arg.get_char(i);
        if !(c == '|' || c == '&' || c == ';' || c == '>' || c == '<' || c == '`' || c == '$'
            || c == '\n' || c == '\r') {
            out.push(c);
        }
        i += 1;
    }
    proof {
        assert(arg@.take(n as int) =~= arg@);
    }
    out
}

/// Strips the shell metacharacters from every argument.
pub fn sanitize_args(args: &Vec<String>) -> (r: Vec<String>)
    ensures
        r@.len() == args@.len(),
        forall|i: int| 0 <= i < r@.len() ==> r@[i]@ == sanitized_text(
            (#[trigger] args@[i])@,
        ),
{
    let n = args.len();
    let mut r: Vec<String> = Vec::new();
    let mut i: usize = 0;
    while i < n
        invariant
            i <= n,
            n == args@.len(),
            r@.len() == i,
            forall|j: int| 0 <= j < i ==> r@[j]@ == sanitized_text((#[trigger] args@[j])@),
        decreases n - i,
    {
        r.push(sanitize_arg(args[i].as_str()));
        i += 1;
    }
    r
}

/// No sanitized argument holds a shell metacharacter.
pub proof fn lemma_sanitized_is_clean(s: Seq<char>)
    ensures
        forall|i: int| 0 <= i < sanitized_text(s).len() ==> !is_shell_meta(
            #[trigger] sanitized_text(s)[i],
        ),
{
    assert forall|i: int| 0 <= i < sanitized_text(s).len() implies !is_shell_meta(
        sanitized_text(s)[i],
    ) by {
        s.lemma_filter_pred(|c: char| !is_shell_meta(c), i);
    }
}

/// A text free of shell metacharacters passes the sanitizer unchanged.
pub proof fn lemma_clean_text_kept(s: Seq<char>)
    requires
        forall|i: int| 0 <= i < s.len() ==> !is_shell_meta(#[trigger] s[i]),
    ensures
        sanitized_text(s) == s,
    decreases s.len(),
{
    reveal_with_fuel(Seq::filter, 2);
    if s.len() == 0 {
        assert(sanitized_text(s) =~= s);
    } else {
        lemma_clean_text_kept(s.drop_last());
        assert(sanitized_text(s) =~= s);
    }
}

// ============================================================================
// OPERATION DATA
// ============================================================================

/// Arguments of `fs.read`.
pub struct ReadFileParams {
    pub plugin_id: String,
    pub path: String,
}

/// Arguments of `fs.write`.
pub struct WriteFileParams {
    pub plugin_id: String,
    pub path: String,
    pub content: String,
}

/// Arguments of `fs.list`.
pub struct ListDirectoryParams {
    pub plugin_id: String,
    pub path: String,
}

/// One listing entry of `fs.list`.
pub struct DirectoryEntry {
    pub name: String,
    pub path: String,
    pub is_dir: bool,
    pub size: u64,
    pub modified: Option<u64>,
}

/// Arguments of `fs.watch`.
pub struct WatchPathParams {
    pub plugin_id: String,
    pub path: String,
}

/// Arguments of `net.fetch`.
pub struct FetchParams {
    pub plugin_id: String,
    pub url: String,
    pub method: Option<String>,
    pub headers: Vec<(String, String)>,
    pub body: Option<String>,
}

/// The answer of `net.fetch`.
pub struct FetchResponse {
    pub status: u16,
    pub headers: Vec<(String, String)>,
    pub body: String,
}

/// Arguments of `cmd.exec`.
pub struct ExecuteCommandParams {
    pub plugin_id: String,
    pub command: String,
    pub args: Vec<String>,
    pub cwd: Option<String>,
}

/// The answer of `cmd.exec`.
pub struct CommandOutput {
    pub stdout: String,
    pub stderr: String,
    pub status: i32,
}

/// Arguments of `ui.notify`.
pub struct ShowNotificationParams {
    pub plugin_id: String,
    pub title: String,
    pub message: String,
    pub level: Option<String>,
}

/// Arguments of `ui.status_bar.add`.
pub struct AddStatusBarItemParams {
    pub plugin_id: String,
    pub id: String,
    pub text: String,
    pub tooltip: Option<String>,
    pub priority: Option<i32>,
}

/// Arguments of `ui.status_bar.remove`.
pub struct RemoveStatusBarItemParams {
    pub plugin_id: String,
    pub id: String,
}

/// Arguments of `ui.panel.show`.
pub struct ShowPanelParams {
    pub plugin_id: String,
    pub id: String,
    pub title: String,
    pub content: String,
    pub position: Option<String>,
}

/// Arguments of `ui.panel.hide`.
pub struct HidePanelParams {
    pub plugin_id: String,
    pub id: String,
}

/// Arguments of `editor.get_content`.
pub struct GetEditorContentParams {
    pub plugin_id: String,
}

/// Arguments of `editor.set_content`.
pub struct SetEditorContentParams {
    pub plugin_id: String,
    pub content: String,
}

/// Arguments of `editor.get_active_file`.
pub struct GetActiveFileParams {
    pub plugin_id: String,
}

/// The answer of `editor.get_active_file`.
pub struct FileInfo {
    pub path: String,
    pub language: Option<String>,
    pub is_dirty: bool,
}

/// Arguments of `event.subscribe`.
pub struct RegisterEventParams {
    pub plugin_id: String,
    pub event_name: String,
}

/// Arguments of the audit-log query.
pub struct GetAuditLogsParams {
    pub plugin_id: Option<String>,
}

/// One listing entry as the worker bridge reports it.
pub struct OpDirectoryEntry {
    pub name: String,
    pub path: String,
    pub is_dir: bool,
    pub size: u64,
}

/// A fetch request as the worker bridge carries it.
pub struct OpFetchParams {
    pub url: String,
    pub method: Option<String>,
    pub headers: Vec<(String, String)>,
    pub body: Option<String>,
}

/// A fetch answer as the worker bridge carries it.
pub struct OpFetchResponse {
    pub status: u16,
    pub headers: Vec<(String, String)>,
    pub body: String,
}

/// A command answer as the worker bridge carries it.
pub struct OpCommandOutput {
    pub stdout: String,
    pub stderr: String,
    pub status: i32,
}

} // verus!
