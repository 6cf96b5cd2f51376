//! The bundled language runtime: how its status is assembled from probes,
//! where a system copy is looked for, which archive serves a platform, and
//! the decisions of the install pipeline.

use vstd::prelude::*;
use vstd::string::StringExecFns;

use crate::text::{
    chars_of, normalize_version, normalized_version, push_str, str_eq, string_of, trim,
    trim_chars,
};
use crate::json::{latest_stable, latest_stable_from_index, parsed_json};
use crate::version::{is_node_runtime_acceptable, runtime_acceptable, split_chars, split_on};

verus! {

/// Version installed when the version index cannot be read.
pub const NODE_FALLBACK_VERSION: &'static str = "22.16.0";

/// What a probe found of a runtime.
#[derive(Clone)]
pub struct NodeStatus {
    pub installed: bool,
    pub version: Option<String>,
    pub node_path: Option<String>,
    pub npm_path: Option<String>,
}

pub open spec fn same_text(a: Option<String>, b: Option<Seq<char>>) -> bool {
    match (a, b) {
        (Some(x), Some(y)) => x@ == y,
        (None, None) => true,
        _ => false,
    }
}

pub open spec fn normalized_opt(out: Option<String>) -> Option<Seq<char>> {
    match out {
        Some(o) => Some(normalized_version(o@)),
        None => None,
    }
}

pub open spec fn acceptable_opt(v: Option<Seq<char>>) -> bool {
    match v {
        Some(s) => runtime_acceptable(s),
        None => false,
    }
}

fn normalize_opt(out: Option<String>) -> (r: Option<String>)
    ensures
        same_text(r, normalized_opt(out)),
{
    match out {
        Some(o) => Some(normalize_version(o.as_str())),
        None => None,
    }
}

fn acceptable(v: &Option<String>) -> (r: bool)
    ensures
        r == acceptable_opt(match v {
            Some(s) => Some(s@),
            None => None,
        }),
{
    match v {
        Some(s) => is_node_runtime_acceptable(s.as_str()),
        None => false,
    }
}

/// The status of the bundled runtime. Where either executable is missing it
/// is not installed and nothing is known; otherwise the version is the
/// normalised output of `node --version` (if it ran), and the runtime is
/// installed when that version is acceptable.
pub fn bundled_node_status(
    node_path: String,
    npm_path: String,
    both_exist: bool,
    version_output: Option<String>,
) -> (r: NodeStatus)
    ensures
        !both_exist ==> !r.installed && r.version is None && r.node_path is None && r.npm_path
            is None,
        both_exist ==> same_text(r.version, normalized_opt(version_output)) && r.installed
            == acceptable_opt(normalized_opt(version_output)) && r.node_path == Some(node_path)
            && r.npm_path == Some(npm_path),
{
    if !both_exist {
        return NodeStatus { installed: false, version: None, node_path: None, npm_path: None };
    }
    let version = normalize_opt(version_output);
    let installed = acceptable(&version);
    NodeStatus { installed, version, node_path: Some(node_path), npm_path: Some(npm_path) }
}

/// The status of a runtime found on the system: installed when its version
/// is acceptable and `npm` was found too.
pub fn system_node_status(
    node_path: Option<String>,
    npm_path: Option<String>,
    version_output: Option<String>,
) -> (r: NodeStatus)
    ensures
        same_text(r.version, normalized_opt(version_output)),
        r.installed == (acceptable_opt(normalized_opt(version_output)) && npm_path is Some),
        r.node_path == node_path,
        r.npm_path == npm_path,
{
    let version = normalize_opt(version_output);
    let installed = acceptable(&version) && npm_path.is_some();
    NodeStatus { installed, version, node_path, npm_path }
}

/// Which status to report: the bundled runtime if installed; else a system
/// runtime whose version could be read, where one was probed; else the
/// bundled one's negative result.
pub open spec fn chosen_node_status(bundled: NodeStatus, system: Option<NodeStatus>) -> NodeStatus {
    if bundled.installed {
        bundled
    } else {
        match system {
            Some(s) => if s.version is Some {
                s
            } else {
                bundled
            },
            None => bundled,
        }
    }
}

/// Whether the system must be probed too: only where the bundled runtime is
/// not installed.
pub fn needs_system_probe(bundled: &NodeStatus) -> (r: bool)
    ensures
        r == !bundled.installed,
{
    !bundled.installed
}

/// Combines the bundled probe with the system probe (made only where
/// `needs_system_probe` asked for it).
pub fn node_status_from_probes(bundled: NodeStatus, system: Option<NodeStatus>) -> (r: NodeStatus)
    ensures
        r == chosen_node_status(bundled, system),
{
    if bundled.installed {
        return bundled;
    }
    match system {
        Some(s) => {
            if s.version.is_some() {
                s
            } else {
                bundled
            }
        },
        None => bundled,
    }
}

/// Where a system copy of `binary` is looked for first, on `os`.
pub fn default_binary_candidates(os: &str, binary: &str) -> (r: Vec<String>)
    ensures
        os@ == "macos"@ ==> r@.len() == 3 && r@[0]@ == "/opt/homebrew/bin/"@ + binary@ && r@[1]@
            == "/usr/local/bin/"@ + binary@ && r@[2]@ == "/usr/bin/"@ + binary@,
        os@ == "linux"@ ==> r@.len() == 2 && r@[0]@ == "/usr/local/bin/"@ + binary@ && r@[1]@
            == "/usr/bin/"@ + binary@,
        os@ == "windows"@ && ascii_same(binary@, "npm"@) ==> r@.len() == 3 && r@[0]@
            == "C:\\Program Files\\nodejs\\npm.cmd"@ && r@[1]@ == "C:\\Program Files\\nodejs\\npm.exe"@
            && r@[2]@ == "C:\\Program Files\\nodejs\\npm"@,
        os@ == "windows"@ && !ascii_same(binary@, "npm"@) ==> r@.len() == 2 && r@[0]@
            == "C:\\Program Files\\nodejs\\node.exe"@ && r@[1]@ == "C:\\Program Files\\nodejs\\node"@,
        os@ != "macos"@ && os@ != "linux"@ && os@ != "windows"@ ==> r@.len() == 0,
{
    proof {
        reveal_strlit("macos");
        reveal_strlit("linux");
        reveal_strlit("windows");
        assert("linux"@[0] != "macos"@[0]);
        assert("windows"@[0] != "macos"@[0]);
        assert("windows"@[0] != "linux"@[0]);
    }
    let mut out: Vec<String> = Vec::new();
    if str_eq(os, "macos") {
        out.push(prefixed("/opt/homebrew/bin/", binary));
        out.push(prefixed("/usr/local/bin/", binary));
        out.push(prefixed("/usr/bin/", binary));
    } else if str_eq(os, "linux") {
        out.push(prefixed("/usr/local/bin/", binary));
        out.push(prefixed("/usr/bin/", binary));
    } else if str_eq(os, "windows") {
        if ascii_eq_ignore_case(binary, "npm") {
            out.push(String::from_str("C:\\Program Files\\nodejs\\npm.cmd"));
            out.push(String::from_str("C:\\Program Files\\nodejs\\npm.exe"));
            out.push(String::from_str("C:\\Program Files\\nodejs\\npm"));
        } else {
            out.push(String::from_str("C:\\Program Files\\nodejs\\node.exe"));
            out.push(String::from_str("C:\\Program Files\\nodejs\\node"));
        }
    }
    out
}

/// `head` followed by `tail`.
pub fn prefixed(head: &str, tail: &str) -> (r: String)
    ensures
        r@ == head@ + tail@,
{
    let mut out: Vec<char> = Vec::new();
    push_str(&mut out, head);
    push_str(&mut out, tail);
    string_of(out.as_slice())
}

/// The code of `c` with ASCII upper case folded to lower case.
pub open spec fn ascii_lower(c: char) -> u32 {
    if 'A' <= c && c <= 'Z' {
        (c as u32 + 32) as u32
    } else {
        c as u32
    }
}

/// Whether `a` and `b` are equal once ASCII upper case is folded to lower.
pub open spec fn ascii_same(a: Seq<char>, b: Seq<char>) -> bool {
    a.len() == b.len() && forall|i: int| 0 <= i < a.len() ==> ascii_lower(#[trigger] a[i]) == ascii_lower(b[i])
}

/// Whether `a` and `b` are equal ignoring ASCII case.
pub fn ascii_eq_ignore_case(a: &str, b: &str) -> (r: bool)
    ensures
        r == ascii_same(a@, b@),
{
    let x = chars_of(a);
    let y = chars_of(b);
    if x.len() != y.len() {
        return false;
    }
    let mut i: usize = 0;
    while i < x.len()
        invariant
            x@ == a@,
            y@ == b@,
            x.len() == y.len(),
            i <= x.len(),
            forall|j: int| 0 <= j < i ==> ascii_lower(#[trigger] x@[j]) == ascii_lower(y@[j]),
        decreases x.len() - i,
    {
        let p = if 'A' <= x[i] && x[i] <= 'Z' {
            x[i] as u32 + 32
        } else {
            x[i] as u32
        };
        let q = if 'A' <= y[i] && y[i] <= 'Z' {
            y[i] as u32 + 32
        } else {
            y[i] as u32
        };
        if p != q {
            return false;
        }
        i = i + 1;
    }
    true
}

/// The first non-blank line of a path lookup's output, trimmed.
pub open spec fn first_nonblank(lines: Seq<Seq<char>>) -> Option<Seq<char>>
    decreases lines.len(),
{
    if lines.len() == 0 {
        None
    } else if trim(lines[0]).len() > 0 {
        Some(trim(lines[0]))
    } else {
        first_nonblank(lines.drop_first())
    }
}

/// The path that a `which`/`where` lookup printed: its first line that is
/// not blank, trimmed.
pub fn first_nonempty_line(stdout: &str) -> (r: Option<String>)
    ensures
        r matches Some(p) ==> first_nonblank(split_on(stdout@, '\n')) == Some(p@),
        r is None ==> first_nonblank(split_on(stdout@, '\n')) is None,
{
    let chars = chars_of(stdout);
    let lines = split_chars(&chars, '\n');
    let ghost ls = split_on(stdout@, '\n');
    let mut i: usize = 0;
    assert(ls.subrange(0, ls.len() as int) =~= ls);
    while i < lines.len()
        invariant
            i <= lines.len(),
            ls == split_on(stdout@, '\n'),
            lines.len() == ls.len(),
            forall|j: int| 0 <= j < lines.len() ==> #[trigger] lines[j]@ == ls[j],
            first_nonblank(ls) == first_nonblank(ls.subrange(i as int, ls.len() as int)),
        decreases lines.len() - i,
    {
        let ghost cur = ls.subrange(i as int, ls.len() as int);
        assert(cur.drop_first() =~= ls.subrange(i + 1, ls.len() as int));
        assert(cur[0] == lines[i as int]@);
        let t = trim_chars(&lines[i]);
        if t.len() > 0 {
            assert(first_nonblank(cur) == Some(t@));
            return Some(string_of(t.as_slice()));
        }
        i = i + 1;
    }
    None
}

/// The archive format of a runtime distribution.
#[derive(Clone, Copy, PartialEq, Eq, Structural)]
pub enum ArchiveKind {
    TarGz,
    TarXz,
    Zip,
}

/// A platform for which a runtime distribution exists: the name the
/// distribution uses for it, and how its archive is packed.
pub struct NodePlatform {
    pub slug: &'static str,
    pub kind: ArchiveKind,
    pub extension: &'static str,
}

/// The distribution's name for (`os`, `arch`), its archive kind and file
/// extension, or `None` where no distribution serves the pair.
pub open spec fn platform_spec(os: Seq<char>, arch: Seq<char>) -> Option<(Seq<char>, ArchiveKind, Seq<char>)> {
    if os == "macos"@ && arch == "arm64"@ {
        Some(("darwin-arm64"@, ArchiveKind::TarGz, "tar.gz"@))
    } else if os == "macos"@ && arch == "x64"@ {
        Some(("darwin-x64"@, ArchiveKind::TarGz, "tar.gz"@))
    } else if os == "windows"@ && arch == "x64"@ {
        Some(("win-x64"@, ArchiveKind::Zip, "zip"@))
    } else if os == "windows"@ && arch == "arm64"@ {
        Some(("win-arm64"@, ArchiveKind::Zip, "zip"@))
    } else if os == "linux"@ && arch == "x64"@ {
        Some(("linux-x64"@, ArchiveKind::TarXz, "tar.xz"@))
    } else if os == "linux"@ && arch == "arm64"@ {
        Some(("linux-arm64"@, ArchiveKind::TarXz, "tar.xz"@))
    } else {
        None
    }
}

pub open spec fn unsupported_message(os: Seq<char>, arch: Seq<char>) -> Seq<char> {
    "unsupported platform combination: os="@ + os + ", arch="@ + arch
}

/// The distribution serving (`os`, `arch`). Needs no version and no network,
/// so an unsupported pair fails before anything is fetched.
pub fn node_platform(os: &str, arch: &str) -> (r: Result<NodePlatform, String>)
    ensures
        r matches Ok(p) ==> platform_spec(os@, arch@) == Some((p.slug@, p.kind, p.extension@)),
        r matches Err(m) ==> platform_spec(os@, arch@) is None && m@ == unsupported_message(
            os@,
            arch@,
        ),
{
    let mac = str_eq(os, "macos");
    let win = str_eq(os, "windows");
    let lin = str_eq(os, "linux");
    let arm = str_eq(arch, "arm64");
    let x64 = str_eq(arch, "x64");
    if mac && arm {
        Ok(NodePlatform { slug: "darwin-arm64", kind: ArchiveKind::TarGz, extension: "tar.gz" })
    } else if mac && x64 {
        Ok(NodePlatform { slug: "darwin-x64", kind: ArchiveKind::TarGz, extension: "tar.gz" })
    } else if win && x64 {
        Ok(NodePlatform { slug: "win-x64", kind: ArchiveKind::Zip, extension: "zip" })
    } else if win && arm {
        Ok(NodePlatform { slug: "win-arm64", kind: ArchiveKind::Zip, extension: "zip" })
    } else if lin && x64 {
        Ok(NodePlatform { slug: "linux-x64", kind: ArchiveKind::TarXz, extension: "tar.xz" })
    } else if lin && arm {
        Ok(NodePlatform { slug: "linux-arm64", kind: ArchiveKind::TarXz, extension: "tar.xz" })
    } else {
        let mut m: Vec<char> = Vec::new();
        push_str(&mut m, "unsupported platform combination: os=");
        push_str(&mut m, os);
        push_str(&mut m, ", arch=");
        push_str(&mut m, arch);
        Err(string_of(m.as_slice()))
    }
}

/// The download location of `version` for the distribution named `slug`.
pub open spec fn download_url(version: Seq<char>, slug: Seq<char>, extension: Seq<char>) -> Seq<char> {
    "https://nodejs.org/dist/v"@ + version + "/node-v"@ + version + "-"@ + slug + "."@ + extension
}

/// Where to fetch `version` of the runtime for (`os`, `arch`), how the
/// archive is packed, and its file extension.
pub fn node_download_target(os: &str, arch: &str, version: &str) -> (r: Result<
    (String, ArchiveKind, &'static str),
    String,
>)
    ensures
        r matches Ok(t) ==> platform_spec(os@, arch@) matches Some(p) && t.0@ == download_url(
            version@,
            p.0,
            p.2,
        ) && t.1 == p.1 && t.2@ == p.2,
        r matches Err(m) ==> platform_spec(os@, arch@) is None && m@ == unsupported_message(
            os@,
            arch@,
        ),
{
    let p = node_platform(os, arch)?;
    let mut url: Vec<char> = Vec::new();
    push_str(&mut url, "https://nodejs.org/dist/v");
    push_str(&mut url, version);
    push_str(&mut url, "/node-v");
    push_str(&mut url, version);
    push_str(&mut url, "-");
    push_str(&mut url, p.slug);
    push_str(&mut url, ".");
    push_str(&mut url, p.extension);
    Ok((string_of(url.as_slice()), p.kind, p.extension))
}

/// The version to install: the newest stable one found, else the fallback.
pub fn desired_node_version(resolved: Option<String>) -> (r: String)
    ensures
        resolved matches Some(v) ==> r@ == v@,
        resolved is None ==> r@ == NODE_FALLBACK_VERSION@,
{
    match resolved {
        Some(v) => v,
        None => String::from_str(NODE_FALLBACK_VERSION),
    }
}

/// Whether `status` shows an installed runtime at exactly `desired`.
pub open spec fn installed_at(status: NodeStatus, desired: Seq<char>) -> bool {
    status.installed && (status.version matches Some(v) && v@ == desired)
}

/// Whether a fresh probe shows the runtime installed at the desired
/// version already, in which case an install does nothing more.
pub fn is_installed_at(status: &NodeStatus, desired: &str) -> (r: bool)
    ensures
        r == installed_at(*status, desired@),
{
    status.installed && match &status.version {
        Some(v) => str_eq(v.as_str(), desired),
        None => false,
    }
}

pub open spec fn verification_failed_message() -> Seq<char> {
    "node installation completed but verification failed"@
}

pub open spec fn mismatch_message(desired: Seq<char>, found: Option<String>) -> Seq<char> {
    "node installation version mismatch (expected "@ + desired + ", got "@ + match found {
        Some(v) => v@,
        None => "unknown"@,
    } + ")"@
}

/// Checks the probe made after an install: the runtime must be installed,
/// at exactly the desired version.
pub fn verify_node_install(status: &NodeStatus, desired: &str) -> (r: Result<(), String>)
    ensures
        r is Ok == installed_at(*status, desired@),
        r matches Err(m) ==> (if !status.installed {
            m@ == verification_failed_message()
        } else {
            m@ == mismatch_message(desired@, status.version)
        }),
{
    if !status.installed {
        return Err(String::from_str("node installation completed but verification failed"));
    }
    if is_installed_at(status, desired) {
        return Ok(());
    }
    let mut m: Vec<char> = Vec::new();
    push_str(&mut m, "node installation version mismatch (expected ");
    push_str(&mut m, desired);
    push_str(&mut m, ", got ");
    match &status.version {
        Some(v) => push_str(&mut m, v.as_str()),
        None => push_str(&mut m, "unknown"),
    }
    push_str(&mut m, ")");
    Err(string_of(m.as_slice()))
}

/// Whether the extracted archive holds a single wrapper directory whose
/// contents are the package: exactly one top-level entry, a directory.
pub fn strips_wrapper_dir(entry_is_dir: &Vec<bool>) -> (r: bool)
    ensures
        r == (entry_is_dir@.len() == 1 && entry_is_dir@[0]),
{
    entry_is_dir.len() == 1 && entry_is_dir[0]
}

/// The version an install aims at, given what the version index read (if
/// anything): its newest stable release, else the fallback version.
pub open spec fn desired_from_index(index_text: Option<String>) -> Seq<char> {
    match index_text {
        Some(t) => match parsed_json(t@) {
            Some(doc) => match latest_stable(doc) {
                Some(v) => v,
                None => NODE_FALLBACK_VERSION@,
            },
            None => NODE_FALLBACK_VERSION@,
        },
        None => NODE_FALLBACK_VERSION@,
    }
}

/// What the caller of the install pipeline must do next.
pub enum InstallStep {
    /// Read the version index (a network call); report it to `version_resolved`.
    ResolveVersion,
    /// Probe the bundled runtime afresh, bypassing the cache; report it to
    /// `current_probed`.
    ProbeCurrent,
    /// Download `url` to a temporary file, unpack it (`kind`) into a fresh
    /// directory, replace the install with it, clean up; report to `unpacked`.
    Fetch { url: String, kind: ArchiveKind, extension: &'static str },
    /// Probe the installed runtime; report it to `verified`.
    Verify,
    /// Nothing to do: the desired version is installed already.
    AlreadyInstalled,
    /// The install is done and verified.
    Finished,
    /// The install failed.
    Failed(String),
}

pub enum StepView {
    ResolveVersion,
    ProbeCurrent,
    Fetch(Seq<char>, ArchiveKind, Seq<char>),
    Verify,
    AlreadyInstalled,
    Finished,
    Failed(Seq<char>),
}

impl View for InstallStep {
    type V = StepView;

    open spec fn view(&self) -> StepView {
        match self {
            InstallStep::ResolveVersion => StepView::ResolveVersion,
            InstallStep::ProbeCurrent => StepView::ProbeCurrent,
            InstallStep::Fetch { url, kind, extension } => StepView::Fetch(url@, *kind, extension@),
            InstallStep::Verify => StepView::Verify,
            InstallStep::AlreadyInstalled => StepView::AlreadyInstalled,
            InstallStep::Finished => StepView::Finished,
            InstallStep::Failed(m) => StepView::Failed(m@),
        }
    }
}

/// Where an install of the runtime stands.
#[derive(PartialEq, Eq, Structural)]
pub enum InstallStage {
    AwaitVersion,
    AwaitCurrent,
    AwaitUnpack,
    AwaitVerify,
    Done,
}

/// One install of the runtime for (`os`, `arch`), aiming at `desired`.
pub struct NodeInstall {
    pub os: String,
    pub arch: String,
    pub desired: String,
    pub stage: InstallStage,
}

/// The first step of an install for (`os`, `arch`).
pub open spec fn begin_step(os: Seq<char>, arch: Seq<char>) -> StepView {
    if platform_spec(os, arch) is None {
        StepView::Failed(unsupported_message(os, arch))
    } else {
        StepView::ResolveVersion
    }
}

/// The step after the fresh probe of the current runtime.
pub open spec fn current_step(os: Seq<char>, arch: Seq<char>, desired: Seq<char>, current: NodeStatus) -> StepView {
    if installed_at(current, desired) {
        StepView::AlreadyInstalled
    } else {
        match platform_spec(os, arch) {
            Some(p) => StepView::Fetch(download_url(desired, p.0, p.2), p.1, p.2),
            None => StepView::Failed(unsupported_message(os, arch)),
        }
    }
}

/// The step after the probe that follows unpacking.
pub open spec fn verify_step(status: NodeStatus, desired: Seq<char>) -> StepView {
    if installed_at(status, desired) {
        StepView::Finished
    } else if !status.installed {
        StepView::Failed(verification_failed_message())
    } else {
        StepView::Failed(mismatch_message(desired, status.version))
    }
}

impl NodeInstall {
    /// Every stage but the last has a platform that a distribution serves.
    pub open spec fn wf(&self) -> bool {
        self.stage != InstallStage::Done ==> platform_spec(self.os@, self.arch@) is Some
    }

    /// Starts an install. An unsupported platform fails here, before any
    /// network call.
    pub fn begin(os: String, arch: String) -> (r: (NodeInstall, InstallStep))
        ensures
            r.0.wf(),
            r.0.os == os,
            r.0.arch == arch,
            r.1@ == begin_step(os@, arch@),
            r.0.stage == (if platform_spec(os@, arch@) is None {
                InstallStage::Done
            } else {
                InstallStage::AwaitVersion
            }),
    {
        match node_platform(os.as_str(), arch.as_str()) {
            Ok(_) => (
                NodeInstall { os, arch, desired: String::new(), stage: InstallStage::AwaitVersion },
                InstallStep::ResolveVersion,
            ),
            Err(m) => (
                NodeInstall { os, arch, desired: String::new(), stage: InstallStage::Done },
                InstallStep::Failed(m),
            ),
        }
    }

    /// Takes the text of the version index, if it could be read, and fixes
    /// the desired version.
    pub fn version_resolved(&mut self, index_text: Option<String>) -> (r: InstallStep)
        requires
            old(self).wf(),
            old(self).stage == InstallStage::AwaitVersion,
        ensures
            final(self).wf(),
            final(self).os == old(self).os,
            final(self).arch == old(self).arch,
            final(self).stage == InstallStage::AwaitCurrent,
            final(self).desired@ == desired_from_index(index_text),
            r@ == StepView::ProbeCurrent,
    {
        let resolved = match &index_text {
            Some(t) => latest_stable_from_index(t.as_str()),
            None => None,
        };
        self.desired = desired_node_version(resolved);
        self.stage = InstallStage::AwaitCurrent;
        InstallStep::ProbeCurrent
    }

    /// Takes the fresh probe of the current runtime: if it is installed at
    /// the desired version nothing more is done, else the archive is fetched.
    pub fn current_probed(&mut self, current: &NodeStatus) -> (r: InstallStep)
        requires
            old(self).wf(),
            old(self).stage == InstallStage::AwaitCurrent,
        ensures
            final(self).wf(),
            final(self).os == old(self).os,
            final(self).arch == old(self).arch,
            final(self).desired == old(self).desired,
            r@ == current_step(old(self).os@, old(self).arch@, old(self).desired@, *current),
            final(self).stage == (if installed_at(*current, old(self).desired@) {
                InstallStage::Done
            } else {
                InstallStage::AwaitUnpack
            }),
    {
        if is_installed_at(current, self.desired.as_str()) {
            self.stage = InstallStage::Done;
            return InstallStep::AlreadyInstalled;
        }
        match node_download_target(self.os.as_str(), self.arch.as_str(), self.desired.as_str()) {
            Ok((url, kind, extension)) => {
                self.stage = InstallStage::AwaitUnpack;
                InstallStep::Fetch { url, kind, extension }
            },
            Err(m) => {
                self.stage = InstallStage::Done;
                InstallStep::Failed(m)
            },
        }
    }

    /// Takes the outcome of download, extraction and replacement; any
    /// failure there ends the install.
    pub fn unpacked(&mut self, outcome: Result<(), String>) -> (r: InstallStep)
        requires
            old(self).wf(),
            old(self).stage == InstallStage::AwaitUnpack,
        ensures
            final(self).wf(),
            final(self).os == old(self).os,
            final(self).arch == old(self).arch,
            final(self).desired == old(self).desired,
            outcome matches Err(e) ==> final(self).stage == InstallStage::Done && r@ == StepView::Failed(e@),
            outcome is Ok ==> final(self).stage == InstallStage::AwaitVerify && r@ == StepView::Verify,
    {
        match outcome {
            Ok(()) => {
                self.stage = InstallStage::AwaitVerify;
                InstallStep::Verify
            },
            Err(e) => {
                self.stage = InstallStage::Done;
                InstallStep::Failed(e)
            },
        }
    }

    /// Takes the probe made after the install: it must show the runtime
    /// installed at exactly the desired version.
    pub fn verified(&mut self, status: &NodeStatus) -> (r: InstallStep)
        requires
            old(self).wf(),
            old(self).stage == InstallStage::AwaitVerify,
        ensures
            final(self).wf(),
            final(self).stage == InstallStage::Done,
            final(self).desired == old(self).desired,
            r@ == verify_step(*status, old(self).desired@),
    {
        self.stage = InstallStage::Done;
        match verify_node_install(status, self.desired.as_str()) {
            Ok(()) => InstallStep::Finished,
            Err(m) => InstallStep::Failed(m),
        }
    }
}

/// An install for a platform that no distribution serves fails at its
/// first step, with the platform named, and is then over: it never asks
/// for the version index or a download, so it makes no network call.
pub proof fn lemma_unsupported_platform_fails(os: Seq<char>, arch: Seq<char>)
    requires
        platform_spec(os, arch) is None,
    ensures
        begin_step(os, arch) == StepView::Failed(unsupported_message(os, arch)),
{
}

/// Installing twice: once an install has verified the desired version, a
/// second install that finds the runtime in the same state and aims at the
/// same version stops after its probe, with no download or extraction.
pub proof fn lemma_install_idempotent(os: Seq<char>, arch: Seq<char>, status: NodeStatus, desired: Seq<char>)
    requires
        verify_step(status, desired) == StepView::Finished,
    ensures
        current_step(os, arch, desired, status) == StepView::AlreadyInstalled,
{
}

} // verus!
