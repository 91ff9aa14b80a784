use napi_modules::identity::EnvEqHash;
use std::collections::hash_map::DefaultHasher;
use std::hash::{Hash, Hasher};

fn hash_of(env: &EnvEqHash) -> u64 {
    let mut hasher = DefaultHasher::new();
    env.hash(&mut hasher);
    hasher.finish()
}

#[test]
fn contexts_with_the_same_location_are_equal() {
    let first = EnvEqHash::new("file:///opt/app/addon.node".to_string());
    let second = EnvEqHash::new(String::from("file:///opt/app/") + "addon.node");
    assert!(first == second);
    assert_eq!(hash_of(&first), hash_of(&second));
    assert!(first == first.clone());
}

#[test]
fn contexts_with_other_locations_differ() {
    let first = EnvEqHash::new("file:///opt/app/addon.node".to_string());
    let second = EnvEqHash::new("file:///opt/app/other.node".to_string());
    assert!(first != second);
}

#[test]
fn locations_are_compared_as_they_were_reported() {
    let first = EnvEqHash::new("file:///opt/app/addon.node".to_string());
    let second = EnvEqHash::new("file:///opt/app/./addon.node".to_string());
    let third = EnvEqHash::new("FILE:///opt/app/addon.node".to_string());
    assert!(first != second);
    assert!(first != third);
}

#[test]
fn context_hashes_as_its_location() {
    let env = EnvEqHash::new("file:///opt/app/addon.node".to_string());
    let mut hasher = DefaultHasher::new();
    "file:///opt/app/addon.node".to_string().hash(&mut hasher);
    assert_eq!(hash_of(&env), hasher.finish());
}

#[test]
fn context_gives_its_location_back() {
    let env = EnvEqHash::new("file:///opt/app/addon.node".to_string());
    assert_eq!(env.file_url_string(), "file:///opt/app/addon.node");
    assert_eq!(env.into_file_url_string(), "file:///opt/app/addon.node");
}
