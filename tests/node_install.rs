use openclawini::node_runtime::{
    bundled_node_status, default_binary_candidates, desired_node_version, first_nonempty_line,
    is_installed_at, node_download_target, node_platform, node_status_from_probes,
    strips_wrapper_dir, system_node_status, verify_node_install, ArchiveKind, InstallStage,
    InstallStep, NodeInstall, NodeStatus, NODE_FALLBACK_VERSION,
};
use openclawini::json::latest_stable_from_index;

fn status(installed: bool, version: Option<&str>) -> NodeStatus {
    NodeStatus {
        installed,
        version: version.map(|v| v.to_string()),
        node_path: Some("/n".to_string()),
        npm_path: Some("/m".to_string()),
    }
}

#[test]
fn download_target_covers_matrix() {
    let (url, _, _) =
        node_download_target("linux", "x64", "25.0.0").expect("linux x64 supported");
    assert!(url.contains("linux-x64.tar.xz"));
    assert!(url.contains("v25.0.0"));
}

#[test]
fn download_target_exact_url() {
    let (url, kind, ext) = node_download_target("macos", "arm64", "22.16.0").unwrap();
    assert_eq!(url, "https://nodejs.org/dist/v22.16.0/node-v22.16.0-darwin-arm64.tar.gz");
    assert!(kind == ArchiveKind::TarGz);
    assert_eq!(ext, "tar.gz");
    let (url, kind, ext) = node_download_target("windows", "x64", "1.0.0").unwrap();
    assert_eq!(url, "https://nodejs.org/dist/v1.0.0/node-v1.0.0-win-x64.zip");
    assert!(kind == ArchiveKind::Zip);
    assert_eq!(ext, "zip");
}

#[test]
fn unsupported_platform_returns_error() {
    assert!(node_download_target("linux", "sparc", "25.0.0").is_err());
}

#[test]
fn unsupported_platform_fails_before_version_is_known() {
    match node_platform("freebsd", "x64") {
        Err(m) => assert_eq!(m, "unsupported platform combination: os=freebsd, arch=x64"),
        Ok(_) => panic!("freebsd is not served"),
    }
    assert!(node_platform("linux", "arm64").is_ok());
}

#[test]
fn default_candidates_include_homebrew_on_macos() {
    let candidates = default_binary_candidates("macos", "node");
    assert!(candidates.iter().any(|value| value == "/opt/homebrew/bin/node"));
}

#[test]
fn default_candidates_on_windows_fold_case() {
    let c = default_binary_candidates("windows", "NPM");
    assert_eq!(c[0], "C:\\Program Files\\nodejs\\npm.cmd");
    assert_eq!(c.len(), 3);
    assert_eq!(default_binary_candidates("linux", "node"), vec!["/usr/local/bin/node", "/usr/bin/node"]);
    assert!(default_binary_candidates("plan9", "node").is_empty());
}

#[test]
fn first_nonempty_line_skips_blank_lines() {
    assert_eq!(first_nonempty_line("\n  \n /usr/bin/node \n/x\n"), Some("/usr/bin/node".to_string()));
    assert_eq!(first_nonempty_line(" \n"), None);
}

#[test]
fn bundled_status_requires_both_binaries() {
    let s = bundled_node_status("/n".into(), "/m".into(), false, Some("v22.1.0".into()));
    assert!(!s.installed && s.version.is_none() && s.node_path.is_none());
    let s = bundled_node_status("/n".into(), "/m".into(), true, Some("v22.1.0\n".into()));
    assert!(s.installed);
    assert_eq!(s.version.as_deref(), Some("22.1.0"));
    let s = bundled_node_status("/n".into(), "/m".into(), true, Some("v20.1.0".into()));
    assert!(!s.installed);
}

#[test]
fn system_status_needs_npm() {
    let s = system_node_status(Some("/usr/bin/node".into()), None, Some("v24.0.0".into()));
    assert!(!s.installed);
    assert_eq!(s.version.as_deref(), Some("24.0.0"));
    let s = system_node_status(Some("/usr/bin/node".into()), Some("/usr/bin/npm".into()), Some("v24.0.0".into()));
    assert!(s.installed);
}

#[test]
fn status_precedence_bundled_then_system() {
    let r = node_status_from_probes(status(true, Some("22.0.0")), Some(status(true, Some("24.0.0"))));
    assert_eq!(r.version.as_deref(), Some("22.0.0"));
    let r = node_status_from_probes(status(false, Some("20.0.0")), Some(status(false, Some("21.0.0"))));
    assert_eq!(r.version.as_deref(), Some("21.0.0"));
    let r = node_status_from_probes(status(false, Some("20.0.0")), Some(status(false, None)));
    assert_eq!(r.version.as_deref(), Some("20.0.0"));
}

#[test]
fn desired_version_falls_back() {
    assert_eq!(desired_node_version(None), NODE_FALLBACK_VERSION);
    assert_eq!(desired_node_version(Some("24.1.0".into())), "24.1.0");
}

#[test]
fn second_install_at_same_version_is_skipped() {
    let after = status(true, Some("22.16.0"));
    assert!(verify_node_install(&after, "22.16.0").is_ok());
    assert!(is_installed_at(&after, "22.16.0"));
    assert!(!is_installed_at(&after, "24.0.0"));
}

#[test]
fn verification_errors() {
    assert_eq!(
        verify_node_install(&status(false, None), "22.16.0"),
        Err("node installation completed but verification failed".to_string())
    );
    assert_eq!(
        verify_node_install(&status(true, Some("22.15.0")), "22.16.0"),
        Err("node installation version mismatch (expected 22.16.0, got 22.15.0)".to_string())
    );
    assert_eq!(
        verify_node_install(&status(true, None), "22.16.0"),
        Err("node installation version mismatch (expected 22.16.0, got unknown)".to_string())
    );
}

#[test]
fn wrapper_directory_is_stripped_only_when_alone() {
    assert!(strips_wrapper_dir(&vec![true]));
    assert!(!strips_wrapper_dir(&vec![false]));
    assert!(!strips_wrapper_dir(&vec![true, true]));
    assert!(!strips_wrapper_dir(&vec![]));
}

#[test]
fn latest_stable_from_index_picks_first_stable() {
    let raw = r#"[{"version":"v26.0.0-rc.1"},{"version":"v21.9.0"},{"version":"v25.6.0"},{"version":"v24.0.0"}]"#;
    assert_eq!(latest_stable_from_index(raw), Some("25.6.0".to_string()));
    assert_eq!(latest_stable_from_index("not json"), None);
    assert_eq!(latest_stable_from_index(r#"{"version":"v25.0.0"}"#), None);
    assert_eq!(latest_stable_from_index("[]"), None);
}

#[test]
fn install_on_unsupported_platform_fails_first() {
    let (install, step) = NodeInstall::begin("linux".to_string(), "sparc".to_string());
    assert!(install.stage == InstallStage::Done);
    match step {
        InstallStep::Failed(m) => assert_eq!(m, "unsupported platform combination: os=linux, arch=sparc"),
        _ => panic!("an unsupported platform must fail before resolving a version"),
    }
}

#[test]
fn install_pipeline_runs_and_second_install_is_skipped() {
    let (mut install, step) = NodeInstall::begin("linux".to_string(), "x64".to_string());
    assert!(matches!(step, InstallStep::ResolveVersion));
    let index = r#"[{"version":"v25.6.0"}]"#.to_string();
    assert!(matches!(install.version_resolved(Some(index.clone())), InstallStep::ProbeCurrent));
    assert_eq!(install.desired, "25.6.0");
    match install.current_probed(&status(false, None)) {
        InstallStep::Fetch { url, kind, extension } => {
            assert_eq!(url, "https://nodejs.org/dist/v25.6.0/node-v25.6.0-linux-x64.tar.xz");
            assert!(kind == ArchiveKind::TarXz);
            assert_eq!(extension, "tar.xz");
        }
        _ => panic!("a missing runtime must be fetched"),
    }
    assert!(matches!(install.unpacked(Ok(())), InstallStep::Verify));
    let after = status(true, Some("25.6.0"));
    assert!(matches!(install.verified(&after), InstallStep::Finished));

    let (mut again, _) = NodeInstall::begin("linux".to_string(), "x64".to_string());
    again.version_resolved(Some(index));
    assert!(matches!(again.current_probed(&after), InstallStep::AlreadyInstalled));
    assert!(again.stage == InstallStage::Done);
}

#[test]
fn install_without_index_uses_fallback_and_reports_failures() {
    let (mut install, _) = NodeInstall::begin("macos".to_string(), "arm64".to_string());
    install.version_resolved(None);
    assert_eq!(install.desired, NODE_FALLBACK_VERSION);
    install.current_probed(&status(true, Some("21.0.0")));
    match install.unpacked(Err("download failed".to_string())) {
        InstallStep::Failed(m) => assert_eq!(m, "download failed"),
        _ => panic!("a failed download ends the install"),
    }
}
