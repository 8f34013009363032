//! The batch prober: merging one saved installation's scan outcome and
//! lock-probe outcome into its UI-facing summary, and doing so for a whole
//! list of saved installations, one summary per entry.

use vstd::prelude::*;

use crate::model::{
    DirListing, LockProbe, ResponseSettings, SavedServer, ScanResult, ServerInfo, ServerResponse,
    SettingsFile,
};
use crate::status::{check_server_status, status_text};

verus! {

/// The archive the summary is judged against: the saved selection when one
/// was made, the conventional default name otherwise.
pub open spec fn effective_core(saved_core: Seq<char>) -> Seq<char> {
    if saved_core.len() > 0 {
        saved_core
    } else {
        "core.jar"@
    }
}

/// Whether the summary carries the saved installation's identity.
pub open spec fn summary_base_matches(saved: SavedServer, r: ServerResponse) -> bool {
    &&& r.id@ == saved.id@
    &&& r.name@ == saved.name@
    &&& r.path@ == saved.path@
}

/// Whether the summary's settings are the zero/empty defaults.
pub open spec fn zero_settings(s: ResponseSettings) -> bool {
    &&& s.motd@ == Seq::<char>::empty()
    &&& s.server_port == 0
    &&& s.max_players == 0
}

/// Whether `r` is the error summary for `saved` with message `msg`: the
/// saved archive selection is echoed back and the settings stay at their
/// defaults.
pub open spec fn error_summary(saved: SavedServer, msg: Seq<char>, r: ServerResponse) -> bool {
    &&& summary_base_matches(saved, r)
    &&& r.status@ == "error"@
    &&& r.core_jar@ == saved.core_jar@
    &&& zero_settings(r.settings)
    &&& r.error_message matches Some(m) && m@ == msg
}

/// Whether `r` is the summary for a configured installation (one whose
/// scan produced a configuration and archive list): the settings are taken
/// from the configuration; if the effective core archive is not in the
/// list the summary is an error naming it, otherwise the status is the
/// lock probe's verdict and no error is reported.
pub open spec fn configured_summary(
    saved: SavedServer,
    config: ServerInfo,
    jars: Vec<String>,
    lock: LockProbe,
    r: ServerResponse,
) -> bool {
    let ec = effective_core(saved.core_jar@);
    &&& summary_base_matches(saved, r)
    &&& r.settings.motd@ == config.motd@
    &&& r.settings.server_port == config.server_port
    &&& r.settings.max_players == config.max_players
    &&& r.core_jar@ == ec
    &&& if !jars.deep_view().contains(ec) {
        &&& r.status@ == "error"@
        &&& r.error_message matches Some(m) && m@ == "Core file '"@ + ec + "' not found"@
    } else {
        &&& r.status@ == status_text(lock)
        &&& r.error_message is None
    }
}

/// What the batch prober reports for one saved installation, given its
/// scan outcome and (where one is needed) its lock-probe outcome.
pub open spec fn entry_summary(
    saved: SavedServer,
    scan: Result<ScanResult, String>,
    lock: LockProbe,
    r: ServerResponse,
) -> bool {
    match scan {
        Err(e) => error_summary(saved, e@, r),
        Ok(s) => match s {
            ScanResult::NoSettings => error_summary(saved, "Settings missing"@, r),
            ScanResult::NoJars => error_summary(saved, "No jars found"@, r),
            ScanResult::Valid { config, jars } => configured_summary(saved, config, jars, lock, r),
            ScanResult::NeedCoreSelection { jars, config } => configured_summary(
                saved,
                config,
                jars,
                lock,
                r,
            ),
        },
    }
}

/// A summary reports the error status exactly when it carries an error
/// message.
pub open spec fn summary_wf(r: ServerResponse) -> bool {
    (r.status@ == "error"@) <==> (r.error_message is Some)
}

/// Every summary the batch prober produces is well-formed: its status is
/// `"error"` exactly when it carries an error message.
pub proof fn lemma_entry_summary_wf(
    saved: SavedServer,
    scan: Result<ScanResult, String>,
    lock: LockProbe,
    r: ServerResponse,
)
    requires
        entry_summary(saved, scan, lock, r),
    ensures
        summary_wf(r),
{
    assert("unknown"@ != "error"@) by {
        reveal_strlit("unknown");
        reveal_strlit("error");
        assert("unknown"@.len() == 7);
        assert("error"@.len() == 5);
    }
    assert("offline"@ != "error"@) by {
        reveal_strlit("offline");
        reveal_strlit("error");
        assert("offline"@.len() == 7);
        assert("error"@.len() == 5);
    }
    assert("online"@ != "error"@) by {
        reveal_strlit("online");
        reveal_strlit("error");
        assert("online"@.len() == 6);
        assert("error"@.len() == 5);
    }
}

/// Whether `name` occurs among `jars`.
pub fn contains_name(jars: &Vec<String>, name: &String) -> (r: bool)
    ensures
        r == jars.deep_view().contains(name@),
{
    let n = jars.len();
    let mut i: usize = 0;
    while i < n
        invariant
            0 <= i <= n,
            n == jars@.len(),
            forall|k: int| 0 <= k < i ==> jars.deep_view()[k] != name@,
        decreases n - i,
    {
        proof {
            assert(jars.deep_view()[i as int] == jars@[i as int]@);
        }
        if jars[i] == *name {
            proof {
                assert(jars.deep_view().contains(name@)) by {
                    assert(jars.deep_view()[i as int] == name@);
                }
            }
            return true;
        }
        i = i + 1;
    }
    proof {
        assert(!jars.deep_view().contains(name@)) by {
            if jars.deep_view().contains(name@) {
                let k = choose|k: int|
                    0 <= k < jars.deep_view().len() && jars.deep_view()[k] == name@;
            }
        }
    }
    false
}

fn respond_configured(
    saved: &SavedServer,
    config: &ServerInfo,
    jars: &Vec<String>,
    lock: &LockProbe,
) -> (r: ServerResponse)
    ensures
        configured_summary(*saved, *config, *jars, *lock, r),
{
    let effective = if saved.core_jar.as_str().is_empty() {
        String::from_str("core.jar")
    } else {
        saved.core_jar.clone()
    };
    let settings = ResponseSettings {
        motd: config.motd.clone(),
        server_port: config.server_port,
        max_players: config.max_players,
    };
    if !contains_name(jars, &effective) {
        let mut m = String::from_str("Core file '");
        m.append(effective.as_str());
        m.append("' not found");
        ServerResponse {
            id: saved.id.clone(),
            name: saved.name.clone(),
            path: saved.path.clone(),
            status: String::from_str("error"),
            core_jar: effective,
            settings,
            error_message: Some(m),
        }
    } else {
        let status = check_server_status(lock);
        ServerResponse {
            id: saved.id.clone(),
            name: saved.name.clone(),
            path: saved.path.clone(),
            status,
            core_jar: effective,
            settings,
            error_message: None,
        }
    }
}

fn respond_error(saved: &SavedServer, msg: String) -> (r: ServerResponse)
    ensures
        error_summary(*saved, msg@, r),
{
    ServerResponse {
        id: saved.id.clone(),
        name: saved.name.clone(),
        path: saved.path.clone(),
        status: String::from_str("error"),
        core_jar: saved.core_jar.clone(),
        settings: ResponseSettings { motd: String::new(), server_port: 0, max_players: 0 },
        error_message: Some(msg),
    }
}

/// Whether the scan outcome calls for a lock probe at all: only a
/// configured installation whose effective core archive is present has its
/// running state read.
pub fn needs_status_probe(saved: &SavedServer, scan: &Result<ScanResult, String>) -> (r: bool)
    ensures
        r == match *scan {
            Ok(s) => match s {
                ScanResult::Valid { jars, .. } => jars.deep_view().contains(
                    effective_core(saved.core_jar@),
                ),
                ScanResult::NeedCoreSelection { jars, .. } => jars.deep_view().contains(
                    effective_core(saved.core_jar@),
                ),
                _ => false,
            },
            Err(_) => false,
        },
{
    match scan {
        Ok(ScanResult::Valid { jars, .. }) => {
            let effective = if saved.core_jar.as_str().is_empty() {
                String::from_str("core.jar")
            } else {
                saved.core_jar.clone()
            };
            contains_name(jars, &effective)
        },
        Ok(ScanResult::NeedCoreSelection { jars, .. }) => {
            let effective = if saved.core_jar.as_str().is_empty() {
                String::from_str("core.jar")
            } else {
                saved.core_jar.clone()
            };
            contains_name(jars, &effective)
        },
        _ => false,
    }
}

/// Merges one saved installation's scan outcome and lock-probe outcome
/// into its summary. The lock probe is consulted only where
/// [`needs_status_probe`] says the scan calls for one.
pub fn scan_and_check_one(
    saved: &SavedServer,
    scan: &Result<ScanResult, String>,
    lock: &LockProbe,
) -> (r: ServerResponse)
    ensures
        entry_summary(*saved, *scan, *lock, r),
{
    match scan {
        Err(e) => respond_error(saved, e.clone()),
        Ok(ScanResult::NoSettings) => respond_error(saved, String::from_str("Settings missing")),
        Ok(ScanResult::NoJars) => respond_error(saved, String::from_str("No jars found")),
        Ok(ScanResult::Valid { config, jars }) => respond_configured(saved, config, jars, lock),
        Ok(ScanResult::NeedCoreSelection { jars, config }) => respond_configured(
            saved,
            config,
            jars,
            lock,
        ),
    }
}

/// One saved installation together with the snapshots its probing needs.
pub struct ProbeEntry {
    pub saved: SavedServer,
    pub listing: DirListing,
    pub settings: SettingsFile,
    pub lock: LockProbe,
}

/// Whether `r` is a summary the batch prober may report for the entry `e`:
/// the merge of `e`'s lock probe with some scan outcome that `e`'s
/// directory snapshot classifies to.
pub open spec fn probed_summary(e: ProbeEntry, r: ServerResponse) -> bool {
    exists|scan: Result<ScanResult, String>|
        #[trigger] crate::scan::scan_post(e.listing, e.settings, scan) && entry_summary(
            e.saved,
            scan,
            e.lock,
            r,
        )
}

/// Probes every saved installation: scans its directory snapshot and
/// merges the outcome with its lock probe. Exactly one summary per entry
/// comes back, each depending on its own entry alone, so a failing scan in
/// one entry never disturbs the summaries of the others.
pub fn scan_and_check_servers(entries: &Vec<ProbeEntry>) -> (r: Vec<ServerResponse>)
    ensures
        r@.len() == entries@.len(),
        forall|k: int| 0 <= k < entries@.len() ==> probed_summary(entries@[k], #[trigger] r@[k]),
{
    let n = entries.len();
    let mut out: Vec<ServerResponse> = Vec::new();
    let mut i: usize = 0;
    while i < n
        invariant
            0 <= i <= n,
            n == entries@.len(),
            out@.len() == i,
            forall|k: int| 0 <= k < i ==> probed_summary(entries@[k], #[trigger] out@[k]),
        decreases n - i,
    {
        let e = &entries[i];
        let scan = crate::scan::scan_server_folder(&e.listing, &e.settings);
        let summary = scan_and_check_one(&e.saved, &scan, &e.lock);
        out.push(summary);
        proof {
            let espec = entries@[i as int];
            assert(crate::scan::scan_post(espec.listing, espec.settings, scan));
            assert(entry_summary(espec.saved, scan, espec.lock, out@[i as int]));
            assert(probed_summary(espec, out@[i as int]));
        }
        i = i + 1;
    }
    out
}

} // verus!
