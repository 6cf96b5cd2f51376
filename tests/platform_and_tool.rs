use openclawini::node_runtime::NodeStatus;
use openclawini::openclaw_installer::{
    bundled_openclaw_candidates, default_openclaw_candidates, latest_version_from_npm,
    npm_path_for, openclaw_missing, openclaw_probe_result, openclaw_status_from_probes,
    system_openclaw_status, update_info, verify_openclaw_install, version_from_outputs,
    ToolInstall, ToolStage, ToolStep,
};
use openclawini::platform::{
    available_bytes_from_df, has_enough_disk, http_code_verdict, normalize_arch, normalize_os,
    status_line_is_healthy, MIN_DISK_BYTES,
};

#[test]
fn normalize_arch_maps_known_values() {
    assert_eq!(normalize_arch("x86_64"), "x64");
    assert_eq!(normalize_arch("aarch64"), "arm64");
}

#[test]
fn normalize_keeps_other_names() {
    assert_eq!(normalize_arch("riscv64"), "riscv64");
    assert_eq!(normalize_os("linux"), "linux");
}

#[test]
fn df_output_is_parsed() {
    let out = "Filesystem 1K-blocks Used Available Use% Mounted on\n/dev/sda1 100 50 2048 50% /\n";
    assert_eq!(available_bytes_from_df(out), Ok(2048 * 1024));
    assert!(available_bytes_from_df("header only\n").is_err());
    assert!(available_bytes_from_df("h\na b c\n").is_err());
    assert!(available_bytes_from_df("h\na b c x\n").is_err());
    assert!(has_enough_disk(MIN_DISK_BYTES));
    assert!(!has_enough_disk(MIN_DISK_BYTES - 1));
}

#[test]
fn health_verdicts() {
    assert!(status_line_is_healthy("HTTP/1.1 200 OK\r\n"));
    assert!(status_line_is_healthy("HTTP/1.0 204 No Content"));
    assert!(!status_line_is_healthy("HTTP/1.1 500 Oops"));
    assert!(!status_line_is_healthy(""));
    assert_eq!(http_code_verdict("200\n"), Some(true));
    assert_eq!(http_code_verdict("299"), Some(true));
    assert_eq!(http_code_verdict("300"), Some(false));
    assert_eq!(http_code_verdict("000"), Some(false));
    assert_eq!(http_code_verdict("abc"), None);
    assert_eq!(http_code_verdict("70000"), None);
}

#[test]
fn tool_status_precedence() {
    let found = openclaw_probe_result("/b".to_string(), Some("1.0.0".to_string())).unwrap();
    assert!(found.installed);
    assert!(openclaw_probe_result("/b".to_string(), None).is_none());
    let sys = system_openclaw_status(Some("/usr/bin/openclaw".to_string()), Some("2.0.0".to_string()));
    let r = openclaw_status_from_probes(openclaw_missing(), Some(sys));
    assert_eq!(r.version.as_deref(), Some("2.0.0"));
    let r = openclaw_status_from_probes(found, None);
    assert_eq!(r.binary_path.as_deref(), Some("/b"));
    let r = openclaw_status_from_probes(openclaw_missing(), Some(system_openclaw_status(None, None)));
    assert!(!r.installed);
}

#[test]
fn tool_candidates() {
    let c = bundled_openclaw_candidates("/d", false);
    assert_eq!(
        c,
        vec![
            "/d/openclaw_global/bin/openclaw",
            "/d/openclaw_global/openclaw",
            "/d/openclaw_global/node_modules/.bin/openclaw"
        ]
    );
    assert_eq!(bundled_openclaw_candidates("C:\\d", true).len(), 6);
    assert_eq!(default_openclaw_candidates("linux"), vec!["/usr/local/bin/openclaw", "/usr/bin/openclaw"]);
    assert_eq!(default_openclaw_candidates("windows")[2], "openclaw.cmd");
}

#[test]
fn tool_version_from_either_stream() {
    assert_eq!(version_from_outputs("OpenClaw 1.2.3", "x"), Some("1.2.3".to_string()));
    assert_eq!(version_from_outputs("", "v4.5.6"), Some("4.5.6".to_string()));
    assert_eq!(version_from_outputs("", ""), None);
}

#[test]
fn update_info_compares_versions() {
    let mut s = openclaw_missing();
    let u = update_info(&s, "2.0.0".to_string());
    assert!(!u.update_available);
    assert_eq!(u.installed_version, "");
    s.version = Some("1.0.0".to_string());
    assert!(update_info(&s, "2.0.0".to_string()).update_available);
    assert!(!update_info(&s, "1.0.0".to_string()).update_available);
}

#[test]
fn npm_checks() {
    let mut n = NodeStatus { installed: false, version: None, node_path: None, npm_path: None };
    assert_eq!(npm_path_for(&n, "not installed"), Err("not installed".to_string()));
    n.installed = true;
    assert_eq!(npm_path_for(&n, "x"), Err("npm path missing from node status".to_string()));
    n.npm_path = Some("/npm".to_string());
    assert_eq!(npm_path_for(&n, "x"), Ok("/npm".to_string()));
    assert_eq!(latest_version_from_npm(" 2026.2.1\n"), Ok("2026.2.1".to_string()));
    assert!(latest_version_from_npm(" \n").is_err());
    assert!(verify_openclaw_install(&openclaw_missing()).is_err());
}

#[test]
fn tool_install_pipeline() {
    let (mut install, step) = ToolInstall::begin("/d", false);
    assert!(matches!(step, ToolStep::ProbeRuntime));
    assert_eq!(install.prefix_dir, "/d/openclaw_global");
    let node = NodeStatus {
        installed: true,
        version: Some("22.16.0".to_string()),
        node_path: Some("/n".to_string()),
        npm_path: Some("/npm".to_string()),
    };
    match install.runtime_probed(&node) {
        ToolStep::RunInstaller { npm_path, prefix_dir } => {
            assert_eq!(npm_path, "/npm");
            assert_eq!(prefix_dir, "/d/openclaw_global");
        }
        _ => panic!("an installed runtime runs the installer"),
    }
    assert!(matches!(install.installer_exited(true, "exit status: 0"), ToolStep::Verify));
    let found = openclaw_probe_result("/b".to_string(), Some("1.0.0".to_string())).unwrap();
    assert!(matches!(install.verified(&found), ToolStep::Finished));
    assert!(install.stage == ToolStage::Done);
}

#[test]
fn tool_install_failures() {
    let (mut install, _) = ToolInstall::begin("/d", false);
    let missing = NodeStatus { installed: false, version: None, node_path: None, npm_path: None };
    match install.runtime_probed(&missing) {
        ToolStep::Failed(m) => assert_eq!(m, "node runtime is not installed; run install_node first"),
        _ => panic!("no runtime, no install"),
    }
    let (mut install, _) = ToolInstall::begin("/d", false);
    let node = NodeStatus { installed: true, version: None, node_path: None, npm_path: Some("/npm".to_string()) };
    install.runtime_probed(&node);
    match install.installer_exited(false, "exit status: 1") {
        ToolStep::Failed(m) => assert_eq!(m, "npm install failed with status exit status: 1"),
        _ => panic!("a failed installer ends the install"),
    }
    let (mut install, _) = ToolInstall::begin("/d", false);
    install.runtime_probed(&node);
    install.installer_exited(true, "exit status: 0");
    match install.verified(&openclaw_missing()) {
        ToolStep::Failed(m) => assert_eq!(m, "OpenClaw install completed but binary verification failed"),
        _ => panic!("an unverified install fails"),
    }
}
