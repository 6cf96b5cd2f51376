use openclawini::json::{selected_model_from_text, string_pairs_from_text};
use openclawini::llm_config::{
    api_key_entry, check_llm_selection, llm_config_state, provider_by_id, providers,
};
use openclawini::paths::{
    install_path_override, keys_file_path, node_bin_dir, node_binary_path, node_root_dir,
    npm_binary_path, openclaw_binary_path, openclaw_global_dir, prepend_path_env, trim_user_path,
    InstallPathState,
};

#[test]
fn install_path_state_type_fields_exist() {
    let value = InstallPathState {
        default_path: "a".to_string(),
        selected_path: Some("b".to_string()),
        effective_path: "c".to_string(),
    };

    assert_eq!(value.default_path, "a");
    assert_eq!(value.selected_path.as_deref(), Some("b"));
    assert_eq!(value.effective_path, "c");
}

#[test]
fn normalize_user_path_rejects_empty_input() {
    assert!(trim_user_path(" ").is_err());
    assert_eq!(trim_user_path("  /opt/x "), Ok("/opt/x".to_string()));
}

#[test]
fn layout_under_data_dir() {
    assert_eq!(node_root_dir("/d", false), "/d/node");
    assert_eq!(node_bin_dir("/d/", false), "/d/node/bin");
    assert_eq!(node_binary_path("/d", false), "/d/node/bin/node");
    assert_eq!(npm_binary_path("/d", false), "/d/node/bin/npm");
    assert_eq!(node_binary_path("C:\\d", true), "C:\\d\\node\\node.exe");
    assert_eq!(npm_binary_path("C:\\d", true), "C:\\d\\node\\npm.cmd");
    assert_eq!(node_bin_dir("C:\\d", true), "C:\\d\\node");
    assert_eq!(openclaw_global_dir("/d", false), "/d/openclaw_global");
    assert_eq!(openclaw_binary_path("/d", false), "/d/openclaw_global/bin/openclaw");
    assert_eq!(openclaw_binary_path("C:\\d", true), "C:\\d\\openclaw_global\\openclaw.cmd");
    assert_eq!(keys_file_path("/d", false), "/d/keys.json");
}

#[test]
fn path_env_is_prefixed() {
    assert_eq!(prepend_path_env("/n/bin", Some("/usr/bin"), false), "/n/bin:/usr/bin");
    assert_eq!(prepend_path_env("C:\\n", Some("C:\\w"), true), "C:\\n;C:\\w");
    assert_eq!(prepend_path_env("/n/bin", Some("  "), false), "/n/bin");
    assert_eq!(prepend_path_env("/n/bin", None, false), "/n/bin");
}

#[test]
fn blank_override_is_ignored() {
    assert_eq!(install_path_override(Some("  ".to_string())), None);
    assert_eq!(install_path_override(Some(" /x".to_string())), Some(" /x".to_string()));
    assert_eq!(install_path_override(None), None);
}

#[test]
fn provider_ids_are_unique() {
    let providers = providers();
    let mut ids = providers.iter().map(|p| p.id.clone()).collect::<Vec<_>>();
    ids.sort();
    ids.dedup();
    assert_eq!(ids.len(), providers.len());
}

#[test]
fn provider_lookup_and_selection() {
    assert_eq!(provider_by_id("openai").map(|p| p.display_name), Some("OpenAI".to_string()));
    assert!(provider_by_id("nope").is_none());
    assert!(check_llm_selection("ollama", "ollama/mistral").is_ok());
    assert!(check_llm_selection("openai", "openai/gpt-4o-mini").is_ok());
    assert!(check_llm_selection("ollama", "ollama/llama3.2").is_ok());
    match check_llm_selection("nope", "x") {
        Err(m) => assert_eq!(m, "unknown provider: nope"),
        Ok(_) => panic!("unknown provider accepted"),
    }
    match check_llm_selection("openai", "ollama/mistral") {
        Err(m) => assert_eq!(m, "model ollama/mistral is not valid for provider openai"),
        Ok(_) => panic!("foreign model accepted"),
    }
}

#[test]
fn api_key_is_trimmed_and_blank_is_skipped() {
    let anthropic = provider_by_id("anthropic").unwrap();
    assert_eq!(
        api_key_entry(&anthropic, Some("  sk-1 ".to_string())),
        Ok(Some(("ANTHROPIC_API_KEY".to_string(), "sk-1".to_string())))
    );
    assert_eq!(api_key_entry(&anthropic, Some("   ".to_string())), Ok(None));
    assert_eq!(api_key_entry(&anthropic, None), Ok(None));
    let ollama = provider_by_id("ollama").unwrap();
    assert_eq!(api_key_entry(&ollama, Some("k".to_string())), Ok(None));
    let mut broken = provider_by_id("openai").unwrap();
    broken.env_var = None;
    assert_eq!(
        api_key_entry(&broken, Some("k".to_string())),
        Err("provider openai missing env var metadata".to_string())
    );
}

#[test]
fn config_state_from_model_and_keys() {
    let keys = vec![("OPENAI_API_KEY".to_string(), " k ".to_string())];
    let s = llm_config_state(Some("openai/gpt-4o".to_string()), &keys);
    assert_eq!(s.selected_provider.as_deref(), Some("openai"));
    assert!(s.has_api_key);
    let s = llm_config_state(Some("anthropic/any".to_string()), &keys);
    assert_eq!(s.selected_provider.as_deref(), Some("anthropic"));
    assert!(!s.has_api_key);
    let s = llm_config_state(Some("ollama/mistral".to_string()), &keys);
    assert!(!s.has_api_key);
    let s = llm_config_state(None, &keys);
    assert!(s.selected_provider.is_none() && !s.has_api_key);
}

#[test]
fn config_documents_are_read() {
    assert_eq!(
        selected_model_from_text(r#"{"agent":{"model":"ollama/llama3.2"}}"#),
        Some(Some("ollama/llama3.2".to_string()))
    );
    assert_eq!(selected_model_from_text(r#"{"agent":{}}"#), Some(None));
    assert_eq!(selected_model_from_text(r#"{"agent":{"model":3}}"#), Some(None));
    assert_eq!(selected_model_from_text("{"), None);
    let pairs = string_pairs_from_text(r#"{"A":"1","B":"2"}"#).unwrap();
    assert_eq!(pairs, vec![("A".to_string(), "1".to_string()), ("B".to_string(), "2".to_string())]);
    assert!(string_pairs_from_text(r#"{"A":1}"#).is_none());
    assert!(string_pairs_from_text("[]").is_none());
    assert!(string_pairs_from_text("{").is_none());
}
