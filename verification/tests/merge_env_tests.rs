use edgelet::env::StringMap;
use edgelet::runtime::DockerModuleRuntime;

#[test]
fn merge_env_empty() {
    let cur: Vec<String> = vec![];
    let new_env = StringMap::new();
    assert_eq!(0, DockerModuleRuntime::merge_env(Some(&cur), &new_env).len());
}

#[test]
fn merge_env_new_empty() {
    let cur = vec!["k1=v1".to_string(), "k2=v2".to_string()];
    let new_env = StringMap::new();
    let mut merged_env = DockerModuleRuntime::merge_env(Some(&cur), &new_env);
    merged_env.sort();
    assert_eq!(vec!["k1=v1", "k2=v2"], merged_env);
}

#[test]
fn merge_env_extend_new() {
    let cur = vec!["k1=v1".to_string(), "k2=v2".to_string()];
    let mut new_env = StringMap::new();
    new_env.insert("k3".to_string(), "v3".to_string());
    let mut merged_env = DockerModuleRuntime::merge_env(Some(&cur), &new_env);
    merged_env.sort();
    assert_eq!(vec!["k1=v1", "k2=v2", "k3=v3"], merged_env);
}

#[test]
fn merge_env_extend_replace_new() {
    // The specification's own environment wins on key collision.
    let cur = vec!["k1=v1".to_string(), "k2=v2".to_string()];
    let mut new_env = StringMap::new();
    new_env.insert("k2".to_string(), "v02".to_string());
    new_env.insert("k3".to_string(), "v3".to_string());
    let mut merged_env = DockerModuleRuntime::merge_env(Some(&cur), &new_env);
    merged_env.sort();
    assert_eq!(vec!["k1=v1", "k2=v02", "k3=v3"], merged_env);
}

#[test]
fn merge_env_no_cur_env() {
    let mut new_env = StringMap::new();
    new_env.insert("k1".to_string(), "v1".to_string());
    let merged_env = DockerModuleRuntime::merge_env(None, &new_env);
    assert_eq!(vec!["k1=v1"], merged_env);
}

#[test]
fn merge_env_spec_entries_win_and_cur_only_preserved() {
    let cur = vec!["K1=v1".to_string(), "K2=v2".to_string()];
    let mut new_env = StringMap::new();
    new_env.insert("K2".to_string(), "v02".to_string());
    new_env.insert("K3".to_string(), "v3".to_string());
    let mut merged_env = DockerModuleRuntime::merge_env(Some(&cur), &new_env);
    merged_env.sort();
    assert_eq!(vec!["K1=v1", "K2=v02", "K3=v3"], merged_env);
}

#[test]
fn merge_env_duplicate_cur_key_last_wins() {
    let cur = vec!["k=a".to_string(), "k=b".to_string()];
    let new_env = StringMap::new();
    let merged_env = DockerModuleRuntime::merge_env(Some(&cur), &new_env);
    assert_eq!(vec!["k=b"], merged_env);
}

#[test]
fn merge_env_entry_without_separator_gets_empty_value() {
    let cur = vec!["plain".to_string()];
    let new_env = StringMap::new();
    let merged_env = DockerModuleRuntime::merge_env(Some(&cur), &new_env);
    assert_eq!(vec!["plain="], merged_env);
}

#[test]
fn string_map_insert_replaces_in_place() {
    let mut map = StringMap::new();
    map.insert("k".to_string(), "1".to_string());
    map.insert("j".to_string(), "2".to_string());
    map.insert("k".to_string(), "3".to_string());
    assert_eq!(2, map.len());
    assert_eq!("k", map.key_at(0).as_str());
    assert_eq!("3", map.val_at(0).as_str());
    assert_eq!("j", map.key_at(1).as_str());
}

#[test]
fn string_map_contains_key() {
    let mut map = StringMap::new();
    map.insert("k".to_string(), "1".to_string());
    assert!(map.contains_key("k"));
    assert!(!map.contains_key("j"));
}

#[test]
fn string_map_duplicate_copies_entries() {
    let mut map = StringMap::new();
    map.insert("k".to_string(), "1".to_string());
    let copy = map.duplicate();
    assert_eq!(1, copy.len());
    assert_eq!("k", copy.key_at(0).as_str());
    assert_eq!("1", copy.val_at(0).as_str());
}
