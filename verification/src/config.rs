//! Service configuration and the trust-boundary merge.
//!
//! One configuration shape serves both the server-pinned settings loaded at
//! startup and the settings a caller submits with a request. Before a request
//! is acted on, the two are merged: the fields that control the server's
//! file-system and network behavior are always taken from the server-pinned
//! configuration, never from the caller.

use vstd::prelude::*;

verus! {

/// Configuration for the service and for one scan request.
#[derive(Debug, PartialEq, Eq)]
pub struct ObserverWardConfig {
    /// Targets to scan.
    pub target: Vec<String>,
    /// Plugin selection; trust boundary: overridden from the server's own
    /// selection whenever the request names any plugin at all.
    pub plugin: Option<String>,
    /// Webhook sink for asynchronous result delivery.
    pub webhook: Option<String>,
    /// Directory holding fingerprint databases and plugins; trust boundary.
    pub config_dir: String,
    /// Execution mode; trust boundary.
    pub mode: Option<String>,
    /// Outbound proxy; trust boundary.
    pub proxy: Option<String>,
    /// Extra arguments handed to the engine; trust boundary.
    pub nuclei_args: Option<String>,
    /// Bearer secret required of callers; absent means auth is disabled.
    pub token: Option<String>,
    /// Worker threads serving connections.
    pub thread: usize,
    /// Refresh the web-fingerprint database.
    pub update_fingerprint: bool,
    /// Refresh the service-fingerprint database.
    pub update_service_fingerprint: bool,
    /// Refresh the plugin bundle.
    pub update_plugin: bool,
    /// Download a fresh executable beside the running one.
    pub update_self: bool,
    /// Where to save probes converted from the template directory.
    pub probe_path: Option<String>,
}

/// What a correct merge of `request` with the server-pinned `server` looks
/// like: every trust-boundary field comes from `server` (the plugin only when
/// the request named one), everything else comes from `request` unchanged.
pub open spec fn is_merged(
    request: ObserverWardConfig,
    server: ObserverWardConfig,
    merged: ObserverWardConfig,
) -> bool {
    &&& merged.config_dir == server.config_dir
    &&& merged.mode == server.mode
    &&& merged.proxy == server.proxy
    &&& merged.nuclei_args == server.nuclei_args
    &&& merged.plugin == (if request.plugin is Some {
        server.plugin
    } else {
        Option::<String>::None
    })
    &&& merged.target@ == request.target@
    &&& merged.webhook == request.webhook
    &&& merged.token == request.token
    &&& merged.thread == request.thread
    &&& merged.update_fingerprint == request.update_fingerprint
    &&& merged.update_service_fingerprint == request.update_service_fingerprint
    &&& merged.update_plugin == request.update_plugin
    &&& merged.update_self == request.update_self
    &&& merged.probe_path == request.probe_path
}

/// Field-for-field equality of two configurations.
pub open spec fn config_eq(a: ObserverWardConfig, b: ObserverWardConfig) -> bool {
    &&& a.target@ == b.target@
    &&& a.plugin == b.plugin
    &&& a.webhook == b.webhook
    &&& a.config_dir == b.config_dir
    &&& a.mode == b.mode
    &&& a.proxy == b.proxy
    &&& a.nuclei_args == b.nuclei_args
    &&& a.token == b.token
    &&& a.thread == b.thread
    &&& a.update_fingerprint == b.update_fingerprint
    &&& a.update_service_fingerprint == b.update_service_fingerprint
    &&& a.update_plugin == b.update_plugin
    &&& a.update_self == b.update_self
    &&& a.probe_path == b.probe_path
}

/// Copy of an optional string.
pub fn clone_opt_string(o: &Option<String>) -> (r: Option<String>)
    ensures
        r == *o,
{
    match o {
        Option::Some(s) => Option::Some(s.clone()),
        Option::None => Option::None,
    }
}

/// Copy of a list of strings.
pub fn clone_string_vec(v: &Vec<String>) -> (r: Vec<String>)
    ensures
        r@ == v@,
{
    let mut r: Vec<String> = Vec::new();
    let mut i: usize = 0;
    while i < v.len()
        invariant
            i <= v@.len(),
            r@ == v@.subrange(0, i as int),
        decreases v@.len() - i,
    {
        r.push(v[i].clone());
        proof {
            assert(r@ =~= v@.subrange(0, i + 1 as int));
        }
        i = i + 1;
    }
    proof {
        assert(r@ =~= v@);
    }
    r
}

/// Copy of a whole configuration.
pub fn clone_config(c: &ObserverWardConfig) -> (r: ObserverWardConfig)
    ensures
        config_eq(r, *c),
{
    ObserverWardConfig {
        target: clone_string_vec(&c.target),
        plugin: clone_opt_string(&c.plugin),
        webhook: clone_opt_string(&c.webhook),
        config_dir: c.config_dir.clone(),
        mode: clone_opt_string(&c.mode),
        proxy: clone_opt_string(&c.proxy),
        nuclei_args: clone_opt_string(&c.nuclei_args),
        token: clone_opt_string(&c.token),
        thread: c.thread,
        update_fingerprint: c.update_fingerprint,
        update_service_fingerprint: c.update_service_fingerprint,
        update_plugin: c.update_plugin,
        update_self: c.update_self,
        probe_path: clone_opt_string(&c.probe_path),
    }
}

/// Config merge: combines a request-supplied configuration with the
/// server-pinned fields that a remote caller must never override.
/// `config_dir`, `mode`, `proxy` and `nuclei_args` always come from the
/// server; `plugin` comes from the server exactly when the request named a
/// plugin, and stays unset when the request left it unset.
pub fn merge(request: &ObserverWardConfig, server: &ObserverWardConfig) -> (merged:
    ObserverWardConfig)
    ensures
        is_merged(*request, *server, merged),
{
    ObserverWardConfig {
        target: clone_string_vec(&request.target),
        plugin: if request.plugin.is_some() {
            clone_opt_string(&server.plugin)
        } else {
            Option::None
        },
        webhook: clone_opt_string(&request.webhook),
        config_dir: server.config_dir.clone(),
        mode: clone_opt_string(&server.mode),
        proxy: clone_opt_string(&server.proxy),
        nuclei_args: clone_opt_string(&server.nuclei_args),
        token: clone_opt_string(&request.token),
        thread: request.thread,
        update_fingerprint: request.update_fingerprint,
        update_service_fingerprint: request.update_service_fingerprint,
        update_plugin: request.update_plugin,
        update_self: request.update_self,
        probe_path: clone_opt_string(&request.probe_path),
    }
}

} // verus!
