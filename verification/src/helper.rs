//! Resource refresh helper: decides, for each of the four refresh
//! operations, what the on-disk state becomes from what the fetch and the
//! validation reported. The downloads, the parsing and the file operations
//! themselves are outside concerns; every decision here is best-effort
//! maintenance that never fails the running service.

use vstd::prelude::*;
use vstd::string::StringExecFns;
use crate::config::ObserverWardConfig;

verus! {

/// What the file at a fingerprint-database path parses as.
#[derive(Debug, PartialEq, Eq, Clone, Copy)]
pub enum DbFile {
    /// A well-formed list of this many template records.
    Templates(usize),
    /// Anything else: corrupt download, HTML error page, wrong shape.
    Malformed,
}

/// What a fetched plugin archive turned out to be.
#[derive(Debug, PartialEq, Eq)]
pub enum ArchiveOutcome {
    /// The archive opened and extracted to these entries.
    Extracted(Vec<String>),
    /// The archive could not be opened or read.
    Unreadable,
}

/// What the helper's standalone run does, by priority.
#[derive(Debug, PartialEq, Eq, Clone, Copy)]
pub enum RunAction {
    /// Refresh the service-fingerprint database, then stop.
    UpdateServiceFingerprint,
    /// Refresh the web-fingerprint database, then stop.
    UpdateFingerprint,
    /// Download a fresh executable beside the running one, then stop.
    UpdateSelf,
    /// Refresh the plugin bundle, then stop.
    UpdatePlugins,
    /// Convert the probe directory to one JSON file, then stop.
    ConvertProbes,
    /// Nothing was asked for.
    NoAction,
}

/// The state of a database file after a refresh. Validation applies to the
/// download alone: a download that parses as a template list is installed; a
/// malformed download is deleted and the prior artifact stays in place; a
/// failed fetch installs nothing and leaves the path untouched.
pub open spec fn db_after(prior: Option<DbFile>, fetched: Option<DbFile>) -> Option<DbFile> {
    match fetched {
        Option::Some(DbFile::Templates(n)) => Option::Some(DbFile::Templates(n)),
        Option::Some(DbFile::Malformed) => prior,
        Option::None => prior,
    }
}

/// The name of the executable to download for a platform: the target triple,
/// a suffix when the build carries the optional feature, and the platform
/// extension on windows.
pub open spec fn self_download_name(target: Seq<char>, mcp: bool, windows: bool) -> Seq<char> {
    target + (if mcp {
        "_mcp"@
    } else {
        Seq::<char>::empty()
    }) + (if windows {
        ".exe"@
    } else {
        Seq::<char>::empty()
    })
}

/// What the helper's standalone run does for a configuration, in the order
/// the update flags are consulted.
pub open spec fn spec_run_action(cfg: ObserverWardConfig, have_probes: bool) -> RunAction {
    if cfg.update_service_fingerprint {
        RunAction::UpdateServiceFingerprint
    } else if cfg.update_fingerprint {
        RunAction::UpdateFingerprint
    } else if cfg.update_self {
        RunAction::UpdateSelf
    } else if cfg.update_plugin {
        RunAction::UpdatePlugins
    } else if have_probes && cfg.probe_path is Some {
        RunAction::ConvertProbes
    } else {
        RunAction::NoAction
    }
}

/// `name` under the directory `dir`, with the usual separator.
fn join_path(dir: &String, name: &str) -> (p: String)
    ensures
        p@ == dir@ + "/"@ + name@,
{
    let mut p = dir.clone();
    p.append("/");
    p.append(name);
    p
}

/// Runs the resource refresh operations against a configuration.
pub struct Helper<'a> {
    config: &'a ObserverWardConfig,
}

impl<'a> Helper<'a> {
    /// The configuration this helper works for.
    pub closed spec fn cfg(&self) -> ObserverWardConfig {
        *self.config
    }

    pub fn new(config: &'a ObserverWardConfig) -> (h: Self)
        ensures
            h.cfg() == *config,
    {
        Self { config }
    }

    /// Destination of the web-fingerprint database, under the configuration
    /// directory.
    pub fn web_fingerprint_path(&self) -> (p: String)
        ensures
            p@ == self.cfg().config_dir@ + "/"@ + "web_fingerprint_v4.json"@,
    {
        join_path(&self.config.config_dir, "web_fingerprint_v4.json")
    }

    /// Destination of the service-fingerprint database.
    pub fn service_fingerprint_path(&self) -> (p: String)
        ensures
            p@ == self.cfg().config_dir@ + "/"@ + "service_fingerprint_v4.json"@,
    {
        join_path(&self.config.config_dir, "service_fingerprint_v4.json")
    }

    /// Where a fetched plugin bundle is saved before extraction.
    pub fn plugins_zip_path(&self) -> (p: String)
        ensures
            p@ == self.cfg().config_dir@ + "/"@ + "plugins.zip"@,
    {
        join_path(&self.config.config_dir, "plugins.zip")
    }

    /// The plugin directory that a refresh destructively replaces.
    pub fn plugins_path(&self) -> (p: String)
        ensures
            p@ == self.cfg().config_dir@ + "/"@ + "plugins"@,
    {
        join_path(&self.config.config_dir, "plugins")
    }

    /// Refresh decision for the web-fingerprint database: given what was at
    /// the destination before and what a fetch brought, says what the
    /// destination holds afterwards. Only the download is validated: a
    /// malformed download is deleted rather than installed, so a corrupt or
    /// error-page download never replaces the previous good database, and a
    /// failed fetch leaves the prior file untouched, surfacing only in logs.
    pub fn update_fingerprint(&self, prior: Option<DbFile>, fetched: Option<DbFile>) -> (after:
        Option<DbFile>)
        ensures
            after == db_after(prior, fetched),
    {
        match fetched {
            Option::Some(DbFile::Templates(n)) => Option::Some(DbFile::Templates(n)),
            Option::Some(DbFile::Malformed) => prior,
            Option::None => prior,
        }
    }

    /// Refresh decision for the service-fingerprint database: same shape as
    /// the web-fingerprint refresh, separate destination and source.
    pub fn update_service_fingerprint(&self, prior: Option<DbFile>, fetched: Option<DbFile>) -> (
        after: Option<DbFile>)
        ensures
            after == db_after(prior, fetched),
    {
        self.update_fingerprint(prior, fetched)
    }

    /// Refresh decision for the plugin bundle. The wipe of the existing
    /// plugin directory happens only after a successful download: a failed
    /// fetch leaves the directory exactly as it was. After a successful
    /// fetch the old directory is gone either way — replaced by the
    /// extracted entries, or left absent when the archive cannot be read.
    pub fn update_plugins(
        &self,
        prior: Option<Vec<String>>,
        fetch_ok: bool,
        archive: ArchiveOutcome,
    ) -> (after: Option<Vec<String>>)
        ensures
            !fetch_ok ==> after == prior,
            fetch_ok ==> match archive {
                ArchiveOutcome::Extracted(entries) => after == Option::Some(entries),
                ArchiveOutcome::Unreadable => after == Option::<Vec<String>>::None,
            },
    {
        if !fetch_ok {
            prior
        } else {
            match archive {
                ArchiveOutcome::Extracted(entries) => Option::Some(entries),
                ArchiveOutcome::Unreadable => Option::None,
            }
        }
    }

    /// Names for an executable update: the URL to download from and the
    /// side-by-side filename to save to. The save name is never the download
    /// name itself, so the running executable is never overwritten in place;
    /// the operator renames the file by hand.
    pub fn update_self(&self, target: &str, mcp: bool, windows: bool) -> (names: (String, String))
        ensures
            names.0@ == "https://github.com/emo-crab/observer_ward/releases/download/defaultv4/"@
                + self_download_name(target@, mcp, windows),
            names.1@ == "update_"@ + self_download_name(target@, mcp, windows),
            names.1@ != self_download_name(target@, mcp, windows),
    {
        let mut name = target.to_owned();
        if mcp {
            name.append("_mcp");
        }
        if windows {
            name.append(".exe");
        }
        proof {
            assert(name@ =~= self_download_name(target@, mcp, windows));
        }
        let mut url: String =
            "https://github.com/emo-crab/observer_ward/releases/download/defaultv4/".to_owned();
        url.append(name.as_str());
        let mut save: String = "update_".to_owned();
        save.append(name.as_str());
        proof {
            reveal_strlit("update_");
            assert(save@.len() != name@.len());
        }
        (url, save)
    }

    /// What a standalone run of the helper does: the update flags are
    /// consulted in a fixed order, the first one set wins, and converting
    /// probes needs both probes on disk and a save path.
    pub fn run(&self, have_probes: bool) -> (a: RunAction)
        ensures
            a == spec_run_action(self.cfg(), have_probes),
    {
        if self.config.update_service_fingerprint {
            RunAction::UpdateServiceFingerprint
        } else if self.config.update_fingerprint {
            RunAction::UpdateFingerprint
        } else if self.config.update_self {
            RunAction::UpdateSelf
        } else if self.config.update_plugin {
            RunAction::UpdatePlugins
        } else if have_probes && self.config.probe_path.is_some() {
            RunAction::ConvertProbes
        } else {
            RunAction::NoAction
        }
    }
}

} // verus!
