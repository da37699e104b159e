use std::collections::HashMap;

use envr::environment::build_environment;

fn pairs(list: &[(&str, &str)]) -> Vec<(String, String)> {
    list.iter().map(|(k, v)| (k.to_string(), v.to_string())).collect()
}

fn as_map(list: &[(String, String)]) -> HashMap<String, String> {
    let mut m = HashMap::new();
    for (k, v) in list {
        m.insert(k.clone(), v.clone());
    }
    m
}

#[test]
fn inherited_environment_with_overlay() {
    let parent = pairs(&[("HOME", "/root"), ("PATH", "/bin"), ("LANG", "C")]);
    let overlay = pairs(&[("PATH", "/usr/bin"), ("FOO", "bar")]);
    let built = build_environment(&parent, false, &overlay);
    assert_eq!(built, pairs(&[
        ("HOME", "/root"),
        ("PATH", "/bin"),
        ("LANG", "C"),
        ("PATH", "/usr/bin"),
        ("FOO", "bar"),
    ]));
    let m = as_map(&built);
    assert_eq!(m.get("HOME").map(String::as_str), Some("/root"));
    assert_eq!(m.get("LANG").map(String::as_str), Some("C"));
    assert_eq!(m.get("PATH").map(String::as_str), Some("/usr/bin"));
    assert_eq!(m.get("FOO").map(String::as_str), Some("bar"));
    assert_eq!(m.len(), 4);
}

#[test]
fn ignored_environment_holds_only_the_overlay() {
    let parent = pairs(&[("HOME", "/root"), ("PATH", "/bin")]);
    let overlay = pairs(&[("FOO", "bar"), ("BAZ", "qux")]);
    let built = build_environment(&parent, true, &overlay);
    assert_eq!(built, overlay);
    let m = as_map(&built);
    assert!(!m.contains_key("HOME"));
    assert!(!m.contains_key("PATH"));
    assert_eq!(m.len(), 2);
}

#[test]
fn later_duplicate_key_wins() {
    let parent = pairs(&[("K", "parent")]);
    let overlay = pairs(&[("K", "first"), ("K", "second")]);
    let built = build_environment(&parent, false, &overlay);
    let m = as_map(&built);
    assert_eq!(m.get("K").map(String::as_str), Some("second"));
    assert_eq!(m.len(), 1);

    let cleared = build_environment(&parent, true, &overlay);
    let m = as_map(&cleared);
    assert_eq!(m.get("K").map(String::as_str), Some("second"));
    assert_eq!(m.len(), 1);
}

#[test]
fn empty_overlay_keeps_parent_intact() {
    let parent = pairs(&[("A", "1"), ("B", "2")]);
    let overlay = pairs(&[]);
    let built = build_environment(&parent, false, &overlay);
    assert_eq!(built, parent);

    let cleared = build_environment(&parent, true, &overlay);
    assert!(cleared.is_empty());
}
