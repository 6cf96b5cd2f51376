use openclawini::install_guard::InstallGuard;
use openclawini::status_cache::{StatusCache, STATUS_CACHE_TTL_MS};

#[test]
fn cache_returns_value_within_ttl_only() {
    let mut c: StatusCache<u32> = StatusCache::new();
    let scope = "/data".to_string();
    assert_eq!(c.read_cached_status(&scope, 0), None);
    c.write_cached_status(scope.clone(), 7, 1_000);
    assert_eq!(c.read_cached_status(&scope, 1_000), Some(&7));
    assert_eq!(c.read_cached_status(&scope, 1_000 + STATUS_CACHE_TTL_MS), Some(&7));
    assert_eq!(c.read_cached_status(&scope, 1_001 + STATUS_CACHE_TTL_MS), None);
}

#[test]
fn cache_is_scoped_to_one_key() {
    let mut c: StatusCache<u32> = StatusCache::new();
    c.write_cached_status("/a".to_string(), 1, 0);
    assert_eq!(c.read_cached_status(&"/b".to_string(), 0), None);
    c.write_cached_status("/b".to_string(), 2, 0);
    assert_eq!(c.read_cached_status(&"/a".to_string(), 0), None);
    assert_eq!(c.read_cached_status(&"/b".to_string(), 0), Some(&2));
    c.clear_cached_status();
    assert_eq!(c.read_cached_status(&"/b".to_string(), 0), None);
}

#[test]
fn second_install_is_refused_while_first_runs() {
    let mut g = InstallGuard::new("OpenClaw".to_string());
    assert!(g.try_begin().is_ok());
    assert_eq!(g.try_begin(), Err("OpenClaw install is already in progress".to_string()));
    assert!(g.running);
    g.finish();
    assert!(g.try_begin().is_ok());
}
