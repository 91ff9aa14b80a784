use napi_modules::host::HostOp;
use napi_modules::identity::EnvEqHash;
use napi_modules::resolver::{esm_helpers_derivation, require_derivation, ResolverCache};

fn env(location: &str) -> EnvEqHash {
    EnvEqHash::new(location.to_string())
}

#[test]
fn new_cache_keeps_nothing() {
    let cache: ResolverCache<u32, u32> = ResolverCache::new();
    assert_eq!(cache.require_for(&env("file:///opt/app/addon.node")), None);
    assert_eq!(
        cache.esm_helpers_for(&env("file:///opt/app/addon.node")),
        None
    );
}

#[test]
fn recorded_require_is_kept_for_its_context() {
    let mut cache: ResolverCache<u32, u32> = ResolverCache::new();
    assert_eq!(
        cache.record_require_for(env("file:///opt/app/addon.node"), Ok(7)),
        Ok(&7)
    );
    assert_eq!(
        cache.require_for(&env("file:///opt/app/addon.node")),
        Some(&7)
    );
    assert_eq!(cache.require_for(&env("file:///opt/app/other.node")), None);
    assert_eq!(
        cache.esm_helpers_for(&env("file:///opt/app/addon.node")),
        None
    );
}

#[test]
fn recorded_helpers_are_kept_for_their_context() {
    let mut cache: ResolverCache<u32, u32> = ResolverCache::new();
    assert_eq!(
        cache.record_esm_helpers_for(env("file:///opt/app/addon.node"), Ok(9)),
        Ok(&9)
    );
    assert_eq!(
        cache.esm_helpers_for(&env("file:///opt/app/addon.node")),
        Some(&9)
    );
    assert_eq!(
        cache.esm_helpers_for(&env("file:///opt/app/other.node")),
        None
    );
    assert_eq!(cache.require_for(&env("file:///opt/app/addon.node")), None);
}

#[test]
fn kept_value_is_not_replaced() {
    let mut cache: ResolverCache<u32, u32> = ResolverCache::new();
    cache
        .record_require_for(env("file:///opt/app/addon.node"), Ok(7))
        .unwrap();
    assert_eq!(
        cache.record_require_for(env("file:///opt/app/addon.node"), Ok(8)),
        Ok(&7)
    );
    assert_eq!(
        cache.require_for(&env("file:///opt/app/addon.node")),
        Some(&7)
    );
    cache
        .record_esm_helpers_for(env("file:///opt/app/addon.node"), Ok(1))
        .unwrap();
    assert_eq!(
        cache.record_esm_helpers_for(env("file:///opt/app/addon.node"), Ok(2)),
        Ok(&1)
    );
}

#[test]
fn failure_is_handed_back_and_not_kept() {
    let mut cache: ResolverCache<u32, u32> = ResolverCache::new();
    assert_eq!(
        cache.record_require_for(
            env("file:///opt/app/addon.node"),
            Err("get_named_property error".to_string())
        ),
        Err("get_named_property error".to_string())
    );
    assert_eq!(cache.require_for(&env("file:///opt/app/addon.node")), None);
    assert_eq!(
        cache.record_esm_helpers_for(
            env("file:///opt/app/addon.node"),
            Err("Call Function failed".to_string())
        ),
        Err("Call Function failed".to_string())
    );
    assert_eq!(
        cache.esm_helpers_for(&env("file:///opt/app/addon.node")),
        None
    );
}

#[test]
fn failure_after_success_changes_nothing() {
    let mut cache: ResolverCache<u32, u32> = ResolverCache::new();
    cache
        .record_require_for(env("file:///opt/app/addon.node"), Ok(7))
        .unwrap();
    assert!(cache
        .record_require_for(env("file:///opt/app/addon.node"), Err("late".to_string()))
        .is_err());
    assert_eq!(
        cache.require_for(&env("file:///opt/app/addon.node")),
        Some(&7)
    );
}

#[test]
fn require_is_derived_through_the_module_system() {
    assert_eq!(
        require_derivation("/opt/app/addon.node"),
        vec![
            HostOp::Global,
            HostOp::NamedProperty("process".to_string()),
            HostOp::NamedProperty("getBuiltinModule".to_string()),
            HostOp::Call("node:module".to_string()),
            HostOp::NamedProperty("createRequire".to_string()),
            HostOp::Call("/opt/app/addon.node".to_string()),
            HostOp::CreateFunctionRef,
        ]
    );
}

#[test]
fn helpers_are_derived_by_requiring_the_script() {
    assert_eq!(
        esm_helpers_derivation("/opt/app/addon.node.esm-helpers.js"),
        vec![
            HostOp::RequireHandle,
            HostOp::Rebind,
            HostOp::Call("/opt/app/addon.node.esm-helpers.js".to_string()),
            HostOp::CreateObjectRef,
        ]
    );
}
