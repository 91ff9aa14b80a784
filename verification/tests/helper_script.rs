use napi_modules::helper_script::{
    esm_helpers_path, EsmHelpersPathForError, HelperScript, HelperScriptCache,
    ESM_HELPERS_EXTENSION, ESM_HELPERS_JS,
};

#[test]
fn helper_script_stands_beside_the_module() {
    assert_eq!(
        esm_helpers_path("/opt/app/addon.node"),
        "/opt/app/addon.node.esm-helpers.js"
    );
    assert_eq!(esm_helpers_path("addon"), "addon.esm-helpers.js");
    assert_eq!(
        esm_helpers_path("/opt/my app/addon.tar.gz"),
        "/opt/my app/addon.tar.gz.esm-helpers.js"
    );
}

#[test]
fn helper_script_extension_is_fixed() {
    assert_eq!(ESM_HELPERS_EXTENSION, "esm-helpers.js");
}

#[test]
fn helper_script_wraps_import_and_resolution() {
    let lines: Vec<&str> = ESM_HELPERS_JS.lines().map(|line| line.trim()).collect();
    assert_eq!(
        lines,
        vec![
            "",
            "const _import = (specifier, options) => import(specifier, options);",
            "export { _import as \"import\" };",
            "export const importMetaResolve = (specifier) => import.meta.resolve(specifier);",
            "",
        ]
    );
}

#[test]
fn first_call_asks_for_a_write() {
    let cache = HelperScriptCache::new();
    assert_eq!(
        cache.esm_helpers_path_for("/opt/app/addon.node"),
        HelperScript::Write {
            path: "/opt/app/addon.node.esm-helpers.js".to_string(),
            contents: ESM_HELPERS_JS,
        }
    );
}

#[test]
fn written_script_is_not_written_again() {
    let mut cache = HelperScriptCache::new();
    assert_eq!(
        cache.record("/opt/app/addon.node", Ok(())),
        Ok("/opt/app/addon.node.esm-helpers.js".to_string())
    );
    assert_eq!(
        cache.esm_helpers_path_for("/opt/app/addon.node"),
        HelperScript::Written {
            path: "/opt/app/addon.node.esm-helpers.js".to_string()
        }
    );
    assert_eq!(
        cache.esm_helpers_path_for("/opt/app/addon.node"),
        HelperScript::Written {
            path: "/opt/app/addon.node.esm-helpers.js".to_string()
        }
    );
}

#[test]
fn other_module_gets_its_own_write() {
    let mut cache = HelperScriptCache::new();
    cache.record("/opt/app/addon.node", Ok(())).unwrap();
    assert_eq!(
        cache.esm_helpers_path_for("/opt/lib/other.node"),
        HelperScript::Write {
            path: "/opt/lib/other.node.esm-helpers.js".to_string(),
            contents: ESM_HELPERS_JS,
        }
    );
    cache.record("/opt/lib/other.node", Ok(())).unwrap();
    assert_eq!(
        cache.esm_helpers_path_for("/opt/lib/other.node"),
        HelperScript::Written {
            path: "/opt/lib/other.node.esm-helpers.js".to_string()
        }
    );
    assert_eq!(
        cache.esm_helpers_path_for("/opt/app/addon.node"),
        HelperScript::Written {
            path: "/opt/app/addon.node.esm-helpers.js".to_string()
        }
    );
}

#[test]
fn failed_write_is_an_io_error_and_is_asked_for_again() {
    let mut cache = HelperScriptCache::new();
    assert_eq!(
        cache.record("/opt/app/addon.node", Err("permission denied".to_string())),
        Err(EsmHelpersPathForError::IoError(
            "permission denied".to_string()
        ))
    );
    assert_eq!(
        cache.esm_helpers_path_for("/opt/app/addon.node"),
        HelperScript::Write {
            path: "/opt/app/addon.node.esm-helpers.js".to_string(),
            contents: ESM_HELPERS_JS,
        }
    );
}

#[test]
fn failure_after_success_leaves_the_script_served() {
    let mut cache = HelperScriptCache::new();
    cache.record("/opt/app/addon.node", Ok(())).unwrap();
    assert!(cache
        .record("/opt/app/addon.node", Err("disk full".to_string()))
        .is_err());
    assert_eq!(
        cache.esm_helpers_path_for("/opt/app/addon.node"),
        HelperScript::Written {
            path: "/opt/app/addon.node.esm-helpers.js".to_string()
        }
    );
}

#[test]
fn io_error_describes_itself() {
    assert_eq!(
        EsmHelpersPathForError::IoError("permission denied".to_string()).to_string(),
        "I/O error: permission denied"
    );
    assert_eq!(
        EsmHelpersPathForError::IoError(String::new()).to_string(),
        "I/O error: "
    );
}

#[test]
fn written_script_is_found_under_another_spelling_of_the_path() {
    let mut cache = HelperScriptCache::new();
    assert_eq!(
        cache.record("/opt/app//addon.node", Ok(())),
        Ok("/opt/app//addon.node.esm-helpers.js".to_string())
    );
    assert_eq!(
        cache.esm_helpers_path_for("/opt/app/addon.node"),
        HelperScript::Written {
            path: "/opt/app//addon.node.esm-helpers.js".to_string()
        }
    );
    assert_eq!(
        cache.record("/opt/app/./addon.node", Ok(())),
        Ok("/opt/app//addon.node.esm-helpers.js".to_string())
    );
    assert_eq!(
        cache.esm_helpers_path_for("/opt/app/addon.nod"),
        HelperScript::Write {
            path: "/opt/app/addon.nod.esm-helpers.js".to_string(),
            contents: ESM_HELPERS_JS,
        }
    );
}
