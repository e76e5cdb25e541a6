use host_commands::directories::PATH_SEPARATOR;
use host_commands::{get_user_dirs, DirectorySet};
use serde_json::Value;

fn expected_object(home: &str, downloads: &str, documents: &str, desktop: &str) -> Value {
    let mut members = serde_json::Map::new();
    members.insert("home".to_string(), Value::String(home.to_string()));
    members.insert("downloads".to_string(), Value::String(downloads.to_string()));
    members.insert("documents".to_string(), Value::String(documents.to_string()));
    members.insert("desktop".to_string(), Value::String(desktop.to_string()));
    Value::Object(members)
}

#[test]
fn separator_is_a_backslash() {
    assert_eq!(PATH_SEPARATOR, "\\");
}

#[test]
fn paths_are_home_separator_name() {
    let dirs = DirectorySet::from_home("C:\\Users\\ada".to_string());
    assert_eq!(dirs.home(), "C:\\Users\\ada");
    assert_eq!(dirs.downloads(), "C:\\Users\\ada\\Downloads");
    assert_eq!(dirs.documents(), "C:\\Users\\ada\\Documents");
    assert_eq!(dirs.desktop(), "C:\\Users\\ada\\Desktop");
}

#[test]
fn a_home_with_forward_slashes_still_gets_backslashes() {
    let dirs = DirectorySet::from_home("/home/ada".to_string());
    assert_eq!(dirs.home(), "/home/ada");
    assert_eq!(dirs.downloads(), "/home/ada\\Downloads");
    assert_eq!(dirs.documents(), "/home/ada\\Documents");
    assert_eq!(dirs.desktop(), "/home/ada\\Desktop");
}

#[test]
fn an_empty_home_gives_bare_subdirectories() {
    let dirs = DirectorySet::from_home(String::new());
    assert_eq!(dirs.home(), "");
    assert_eq!(dirs.downloads(), "\\Downloads");
    assert_eq!(dirs.documents(), "\\Documents");
    assert_eq!(dirs.desktop(), "\\Desktop");
}

#[test]
fn resolve_uses_the_default_when_nothing_is_set() {
    let dirs = DirectorySet::resolve(None, None);
    assert_eq!(dirs, DirectorySet::from_home("C:\\Users\\User".to_string()));
    assert_eq!(dirs.desktop(), "C:\\Users\\User\\Desktop");
}

#[test]
fn resolve_prefers_the_primary_value() {
    let dirs = DirectorySet::resolve(Some("P".to_string()), Some("S".to_string()));
    assert_eq!(dirs.home(), "P");
    assert_eq!(dirs.downloads(), "P\\Downloads");
}

#[test]
fn resolve_falls_back_to_the_secondary_value() {
    let dirs = DirectorySet::resolve(None, Some("S".to_string()));
    assert_eq!(dirs.home(), "S");
    assert_eq!(dirs.documents(), "S\\Documents");
}

#[test]
fn a_clone_lists_the_same_paths() {
    let dirs = DirectorySet::from_home("/home/ada".to_string());
    let copy = dirs.clone();
    assert_eq!(copy, dirs);
    assert_eq!(copy.desktop(), "/home/ada\\Desktop");
}

#[test]
fn json_is_an_object_of_the_four_strings() {
    let dirs = DirectorySet::from_home("C:\\Users\\ada".to_string());
    assert_eq!(
        dirs.to_json(),
        expected_object(
            "C:\\Users\\ada",
            "C:\\Users\\ada\\Downloads",
            "C:\\Users\\ada\\Documents",
            "C:\\Users\\ada\\Desktop",
        )
    );
}

#[test]
fn json_has_exactly_the_four_keys() {
    let value = DirectorySet::from_home("/home/ada".to_string()).to_json();
    let members = match &value {
        Value::Object(members) => members,
        _ => panic!("not an object"),
    };
    let mut keys: Vec<&str> = members.keys().map(|key| key.as_str()).collect();
    keys.sort();
    assert_eq!(keys, vec!["desktop", "documents", "downloads", "home"]);
    assert!(members.values().all(|member| member.is_string()));
}

#[test]
fn json_text_is_the_compact_object() {
    let value = DirectorySet::from_home("h".to_string()).to_json();
    assert_eq!(
        value.to_string(),
        "{\"desktop\":\"h\\\\Desktop\",\"documents\":\"h\\\\Documents\",\"downloads\":\"h\\\\Downloads\",\"home\":\"h\"}"
    );
}

#[test]
fn get_user_dirs_defaults() {
    assert_eq!(
        get_user_dirs(None, None),
        Ok(expected_object(
            "C:\\Users\\User",
            "C:\\Users\\User\\Downloads",
            "C:\\Users\\User\\Documents",
            "C:\\Users\\User\\Desktop",
        ))
    );
}

#[test]
fn get_user_dirs_primary_wins() {
    let answer = get_user_dirs(Some("C:\\Users\\ada".to_string()), Some("/home/ada".to_string()));
    assert_eq!(
        answer,
        Ok(expected_object(
            "C:\\Users\\ada",
            "C:\\Users\\ada\\Downloads",
            "C:\\Users\\ada\\Documents",
            "C:\\Users\\ada\\Desktop",
        ))
    );
}

#[test]
fn get_user_dirs_secondary_stands_in() {
    let answer = get_user_dirs(None, Some("/home/ada".to_string()));
    assert_eq!(
        answer,
        Ok(expected_object(
            "/home/ada",
            "/home/ada\\Downloads",
            "/home/ada\\Documents",
            "/home/ada\\Desktop",
        ))
    );
}

#[test]
fn get_user_dirs_never_fails() {
    assert!(get_user_dirs(None, None).is_ok());
    assert!(get_user_dirs(Some(String::new()), None).is_ok());
    assert!(get_user_dirs(None, Some(String::new())).is_ok());
    assert!(get_user_dirs(Some("a".to_string()), Some("b".to_string())).is_ok());
}
