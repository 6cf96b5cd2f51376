//! The managed tool: how its status is assembled from probes, where it is
//! looked for, and the checks around installing and updating it.

use vstd::prelude::*;
use vstd::string::StringExecFns;

use crate::node_runtime::NodeStatus;
use crate::paths::{openclaw_binary_path, openclaw_global, openclaw_global_dir};
use crate::text::{joined, join_path, push_str, str_eq, string_of, trim, trimmed};
use crate::version::{parse_version_from_output, version_in_output, version_is_newer, version_newer};

verus! {

/// What a probe found of the tool.
#[derive(Clone)]
pub struct OpenClawStatus {
    pub installed: bool,
    pub version: Option<String>,
    pub binary_path: Option<String>,
}

/// The installed and the newest published version, and whether to update.
pub struct UpdateInfo {
    pub installed_version: String,
    pub latest_version: String,
    pub update_available: bool,
}

/// The status where nothing usable was found.
pub fn openclaw_missing() -> (r: OpenClawStatus)
    ensures
        !r.installed,
        r.version is None,
        r.binary_path is None,
{
    OpenClawStatus { installed: false, version: None, binary_path: None }
}

/// The result of probing one bundled candidate that exists: usable, and
/// installed, exactly where it reported a version.
pub fn openclaw_probe_result(binary: String, version: Option<String>) -> (r: Option<OpenClawStatus>)
    ensures
        r is Some == version is Some,
        r matches Some(s) ==> s.installed && s.version == version && s.binary_path == Some(binary),
{
    match version {
        Some(v) => Some(OpenClawStatus { installed: true, version: Some(v), binary_path: Some(binary) }),
        None => None,
    }
}

/// The status of a copy found on the system: installed where it reported
/// a version.
pub fn system_openclaw_status(binary_path: Option<String>, version: Option<String>) -> (r: OpenClawStatus)
    ensures
        r.installed == version is Some,
        r.version == version,
        r.binary_path == binary_path,
{
    let installed = version.is_some();
    OpenClawStatus { installed, version, binary_path }
}

/// Which status to report: the bundled copy if installed; else the system
/// copy if installed, where one was probed; else the bundled negative.
pub open spec fn chosen_openclaw_status(bundled: OpenClawStatus, system: Option<OpenClawStatus>) -> OpenClawStatus {
    if bundled.installed {
        bundled
    } else {
        match system {
            Some(s) => if s.installed {
                s
            } else {
                bundled
            },
            None => bundled,
        }
    }
}

/// Combines the bundled probe with the system probe, which is made only
/// where the bundled copy is not installed.
pub fn openclaw_status_from_probes(bundled: OpenClawStatus, system: Option<OpenClawStatus>) -> (r: OpenClawStatus)
    ensures
        r == chosen_openclaw_status(bundled, system),
{
    if bundled.installed {
        return bundled;
    }
    match system {
        Some(s) => {
            if s.installed {
                s
            } else {
                bundled
            }
        },
        None => bundled,
    }
}

/// The texts of `v`, in order.
pub open spec fn texts(v: Seq<String>) -> Seq<Seq<char>> {
    v.map_values(|x: String| x@)
}

/// `s` with every entry that repeats an earlier one removed, the order of
/// the rest kept.
pub open spec fn first_occurrences(s: Seq<Seq<char>>) -> Seq<Seq<char>>
    decreases s.len(),
{
    if s.len() == 0 {
        s
    } else {
        let d = first_occurrences(s.drop_last());
        if d.contains(s.last()) {
            d
        } else {
            d.push(s.last())
        }
    }
}

/// `v` without repeats, each entry kept where it first occurs.
pub fn dedup_keep_first(v: Vec<String>) -> (r: Vec<String>)
    ensures
        texts(r@) == first_occurrences(texts(v@)),
{
    let mut out: Vec<String> = Vec::new();
    let mut i: usize = 0;
    assert(texts(out@) =~= first_occurrences(texts(v@).subrange(0, 0)));
    while i < v.len()
        invariant
            i <= v.len(),
            texts(out@) == first_occurrences(texts(v@).subrange(0, i as int)),
        decreases v.len() - i,
    {
        let mut seen = false;
        let mut k: usize = 0;
        while k < out.len()
            invariant
                k <= out.len(),
                i < v.len(),
                texts(out@) == first_occurrences(texts(v@).subrange(0, i as int)),
                !seen ==> forall|a: int| 0 <= a < k ==> out@[a]@ != v@[i as int]@,
                seen ==> texts(out@).contains(v@[i as int]@),
            decreases out.len() - k,
        {
            if out[k] == v[i] {
                assert(texts(out@)[k as int] == v@[i as int]@);
                seen = true;
            }
            k = k + 1;
        }
        let ghost pre = texts(v@).subrange(0, i as int);
        let ghost next = texts(v@).subrange(0, i + 1);
        assert(next.drop_last() =~= pre);
        assert(next.last() == v@[i as int]@);
        if !seen {
            assert(!texts(out@).contains(v@[i as int]@)) by {
                if texts(out@).contains(v@[i as int]@) {
                    let w = choose|w: int| 0 <= w < texts(out@).len() && texts(out@)[w] == v@[i as int]@;
                    assert(out@[w]@ == v@[i as int]@);
                }
            }
            let ghost before = out@;
            out.push(v[i].clone());
            assert(texts(out@) =~= texts(before).push(v@[i as int]@));
        }
        i = i + 1;
    }
    assert(texts(v@).subrange(0, v.len() as int) =~= texts(v@));
    out
}

/// The places under the data directory where an install may have put the
/// tool's launcher, in the order they are tried.
pub open spec fn bundled_candidate_list(app: Seq<char>, windows: bool) -> Seq<Seq<char>> {
    let p = openclaw_global(app, windows);
    let modules_bin = joined(joined(p, "node_modules"@, windows), ".bin"@, windows);
    if windows {
        seq![
            joined(p, "openclaw.cmd"@, windows),
            joined(p, "openclaw.exe"@, windows),
            joined(joined(p, "bin"@, windows), "openclaw.cmd"@, windows),
            joined(joined(p, "bin"@, windows), "openclaw.exe"@, windows),
            joined(modules_bin, "openclaw.cmd"@, windows),
            joined(modules_bin, "openclaw.exe"@, windows),
        ]
    } else {
        seq![
            joined(joined(p, "bin"@, windows), "openclaw"@, windows),
            joined(p, "openclaw"@, windows),
            joined(modules_bin, "openclaw"@, windows),
        ]
    }
}

/// The bundled launcher candidates, without repeats.
pub fn bundled_openclaw_candidates(app_data_dir: &str, windows: bool) -> (r: Vec<String>)
    ensures
        texts(r@) == first_occurrences(bundled_candidate_list(app_data_dir@, windows)),
{
    let prefix = openclaw_global_dir(app_data_dir, windows);
    let nm = join_path(prefix.as_str(), "node_modules", windows);
    let modules_bin = join_path(nm.as_str(), ".bin", windows);
    let bin = join_path(prefix.as_str(), "bin", windows);
    let mut c: Vec<String> = Vec::new();
    if windows {
        c.push(join_path(prefix.as_str(), "openclaw.cmd", windows));
        c.push(join_path(prefix.as_str(), "openclaw.exe", windows));
        c.push(join_path(bin.as_str(), "openclaw.cmd", windows));
        c.push(join_path(bin.as_str(), "openclaw.exe", windows));
        c.push(join_path(modules_bin.as_str(), "openclaw.cmd", windows));
        c.push(join_path(modules_bin.as_str(), "openclaw.exe", windows));
    } else {
        c.push(openclaw_binary_path(app_data_dir, windows));
        c.push(join_path(prefix.as_str(), "openclaw", windows));
        c.push(join_path(modules_bin.as_str(), "openclaw", windows));
    }
    assert(texts(c@) =~= bundled_candidate_list(app_data_dir@, windows));
    dedup_keep_first(c)
}

/// Where a system copy of the tool is looked for first, on `os`.
pub fn default_openclaw_candidates(os: &str) -> (r: Vec<String>)
    ensures
        os@ == "macos"@ ==> r@.len() == 3 && r@[0]@ == "/opt/homebrew/bin/openclaw"@ && r@[1]@
            == "/usr/local/bin/openclaw"@ && r@[2]@ == "/usr/bin/openclaw"@,
        os@ == "linux"@ ==> r@.len() == 2 && r@[0]@ == "/usr/local/bin/openclaw"@ && r@[1]@
            == "/usr/bin/openclaw"@,
        os@ == "windows"@ ==> r@.len() == 3 && r@[0]@ == "C:\\Program Files\\nodejs\\openclaw.cmd"@
            && r@[1]@ == "C:\\Program Files\\nodejs\\openclaw.exe"@ && r@[2]@ == "openclaw.cmd"@,
        os@ != "macos"@ && os@ != "linux"@ && os@ != "windows"@ ==> r@.len() == 0,
{
    proof {
        reveal_strlit("macos");
        reveal_strlit("linux");
        reveal_strlit("windows");
        assert("linux"@[0] != "macos"@[0]);
        assert("windows"@[0] != "macos"@[0]);
        assert("windows"@[0] != "linux"@[0]);
    }
    let mut out: Vec<String> = Vec::new();
    if str_eq(os, "macos") {
        out.push(String::from_str("/opt/homebrew/bin/openclaw"));
        out.push(String::from_str("/usr/local/bin/openclaw"));
        out.push(String::from_str("/usr/bin/openclaw"));
    } else if str_eq(os, "linux") {
        out.push(String::from_str("/usr/local/bin/openclaw"));
        out.push(String::from_str("/usr/bin/openclaw"));
    } else if str_eq(os, "windows") {
        out.push(String::from_str("C:\\Program Files\\nodejs\\openclaw.cmd"));
        out.push(String::from_str("C:\\Program Files\\nodejs\\openclaw.exe"));
        out.push(String::from_str("openclaw.cmd"));
    }
    out
}

/// The version a run of the tool reported: found in its standard output,
/// else in its standard error.
pub fn version_from_outputs(stdout: &str, stderr: &str) -> (r: Option<String>)
    ensures
        version_in_output(stdout@) matches Some(v) ==> (r matches Some(s) && s@ == v),
        version_in_output(stdout@) is None ==> (match version_in_output(stderr@) {
            Some(v) => (r matches Some(s) && s@ == v),
            None => r is None,
        }),
{
    match parse_version_from_output(stdout) {
        Some(v) => Some(v),
        None => parse_version_from_output(stderr),
    }
}

/// Whether to offer an update: only where a version is installed and the
/// published one is newer.
pub fn update_info(installed: &OpenClawStatus, latest_version: String) -> (r: UpdateInfo)
    ensures
        r.latest_version == latest_version,
        installed.version matches Some(v) ==> r.installed_version@ == v@,
        installed.version is None ==> r.installed_version@.len() == 0,
        r.update_available == (r.installed_version@.len() > 0 && version_newer(
            r.installed_version@,
            latest_version@,
        )),
{
    let installed_version = match &installed.version {
        Some(v) => v.clone(),
        None => String::new(),
    };
    let update_available = if installed_version.as_str().unicode_len() == 0 {
        false
    } else {
        version_is_newer(installed_version.as_str(), latest_version.as_str())
    };
    UpdateInfo { installed_version, latest_version, update_available }
}

pub open spec fn npm_missing_message() -> Seq<char> {
    "npm path missing from node status"@
}

/// The package manager to run, taken from the runtime's status; refused
/// with `not_installed` where the runtime is not installed.
pub fn npm_path_for(status: &NodeStatus, not_installed: &str) -> (r: Result<String, String>)
    ensures
        !status.installed ==> (r matches Err(m) && m@ == not_installed@),
        status.installed && status.npm_path is None ==> (r matches Err(m) && m@ == npm_missing_message()),
        status.installed && status.npm_path is Some ==> (r matches Ok(p) && p@ == status.npm_path->0@),
{
    if !status.installed {
        return Err(String::from_str(not_installed));
    }
    match &status.npm_path {
        Some(p) => Ok(p.clone()),
        None => Err(String::from_str("npm path missing from node status")),
    }
}

/// The newest published version, from the package manager's output.
pub fn latest_version_from_npm(stdout: &str) -> (r: Result<String, String>)
    ensures
        r matches Ok(v) ==> v@ == trim(stdout@) && v@.len() > 0,
        r matches Err(m) ==> trim(stdout@).len() == 0 && m@ == "npm did not return a version string"@,
{
    let v = trimmed(stdout);
    if v.as_str().unicode_len() == 0 {
        return Err(String::from_str("npm did not return a version string"));
    }
    Ok(v)
}

/// Checks the probe made after an install.
pub fn verify_openclaw_install(status: &OpenClawStatus) -> (r: Result<(), String>)
    ensures
        r is Ok == status.installed,
        r matches Err(m) ==> m@ == "OpenClaw install completed but binary verification failed"@,
{
    if status.installed {
        Ok(())
    } else {
        Err(String::from_str("OpenClaw install completed but binary verification failed"))
    }
}

pub open spec fn runtime_missing_message() -> Seq<char> {
    "node runtime is not installed; run install_node first"@
}

/// What the caller of the tool install must do next.
pub enum ToolStep {
    /// Probe the runtime's status; report it to `runtime_probed`.
    ProbeRuntime,
    /// Create `prefix_dir` and run `npm_path` to install the tool's latest
    /// release under it, streaming its output; report to `installer_exited`.
    RunInstaller { npm_path: String, prefix_dir: String },
    /// Probe the tool; report it to `verified`.
    Verify,
    Finished,
    Failed(String),
}

#[derive(PartialEq, Eq, Structural)]
pub enum ToolStage {
    AwaitRuntime,
    AwaitInstaller,
    AwaitVerify,
    Done,
}

/// One install or update of the tool into `prefix_dir`.
pub struct ToolInstall {
    pub prefix_dir: String,
    pub stage: ToolStage,
}

impl ToolInstall {
    /// Starts an install under the data directory `app_data_dir`.
    pub fn begin(app_data_dir: &str, windows: bool) -> (r: (ToolInstall, ToolStep))
        ensures
            r.0.prefix_dir@ == openclaw_global(app_data_dir@, windows),
            r.0.stage == ToolStage::AwaitRuntime,
            r.1 is ProbeRuntime,
    {
        (
            ToolInstall { prefix_dir: openclaw_global_dir(app_data_dir, windows), stage: ToolStage::AwaitRuntime },
            ToolStep::ProbeRuntime,
        )
    }

    /// Takes the runtime's status: the package manager it provides runs the
    /// install; without an installed runtime the install fails.
    pub fn runtime_probed(&mut self, node: &NodeStatus) -> (r: ToolStep)
        requires
            old(self).stage == ToolStage::AwaitRuntime,
        ensures
            final(self).prefix_dir == old(self).prefix_dir,
            !node.installed ==> final(self).stage == ToolStage::Done && (r matches ToolStep::Failed(m)
                && m@ == runtime_missing_message()),
            node.installed && node.npm_path is None ==> final(self).stage == ToolStage::Done && (
            r matches ToolStep::Failed(m) && m@ == npm_missing_message()),
            node.installed && node.npm_path is Some ==> final(self).stage == ToolStage::AwaitInstaller
                && (r matches ToolStep::RunInstaller { npm_path, prefix_dir } && npm_path@
                == node.npm_path->0@ && prefix_dir == old(self).prefix_dir),
    {
        match npm_path_for(node, "node runtime is not installed; run install_node first") {
            Ok(npm_path) => {
                self.stage = ToolStage::AwaitInstaller;
                ToolStep::RunInstaller { npm_path, prefix_dir: self.prefix_dir.clone() }
            },
            Err(m) => {
                self.stage = ToolStage::Done;
                ToolStep::Failed(m)
            },
        }
    }

    /// Takes how the installer ended; `status` is its exit status as text.
    pub fn installer_exited(&mut self, success: bool, status: &str) -> (r: ToolStep)
        requires
            old(self).stage == ToolStage::AwaitInstaller,
        ensures
            final(self).prefix_dir == old(self).prefix_dir,
            success ==> final(self).stage == ToolStage::AwaitVerify && r is Verify,
            !success ==> final(self).stage == ToolStage::Done && (r matches ToolStep::Failed(m) && m@
                == "npm install failed with status "@ + status@),
    {
        if success {
            self.stage = ToolStage::AwaitVerify;
            ToolStep::Verify
        } else {
            self.stage = ToolStage::Done;
            let mut m: Vec<char> = Vec::new();
            push_str(&mut m, "npm install failed with status ");
            push_str(&mut m, status);
            ToolStep::Failed(string_of(m.as_slice()))
        }
    }

    /// Takes the probe made after the installer: the tool must be installed.
    pub fn verified(&mut self, status: &OpenClawStatus) -> (r: ToolStep)
        requires
            old(self).stage == ToolStage::AwaitVerify,
        ensures
            final(self).stage == ToolStage::Done,
            status.installed ==> r is Finished,
            !status.installed ==> (r matches ToolStep::Failed(m) && m@
                == "OpenClaw install completed but binary verification failed"@),
    {
        self.stage = ToolStage::Done;
        match verify_openclaw_install(status) {
            Ok(()) => ToolStep::Finished,
            Err(m) => ToolStep::Failed(m),
        }
    }
}

} // verus!
