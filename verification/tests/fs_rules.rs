use now::fs_rules::{is_excluded_path, is_excluded_relative, is_temp_name};

#[test]
fn excludes_runtime_and_temp_paths() {
    assert!(is_excluded_relative(".now.json"));
    assert!(is_excluded_relative("node_modules/pkg/index.js"));
    assert!(is_excluded_relative("target/release/now"));
    assert!(is_excluded_relative(".env"));
    assert!(is_excluded_relative(".env.local"));
    assert!(is_excluded_relative("index.html.tmp"));
    assert!(!is_excluded_relative("public/index.html"));
}

#[test]
fn excludes_paths_relative_to_root() {
    let root = "/tmp/site";
    assert!(is_excluded_path(root, "/tmp/site/.git/config"));
}

#[test]
fn a_path_outside_the_root_is_read_whole() {
    assert!(!is_excluded_path("/tmp/site", "/srv/www/index.html"));
    assert!(is_excluded_path("/tmp/site", "/srv/node_modules/x.js"));
    assert!(!is_excluded_path("/tmp/site", "/tmp/site/index.html"));
}

#[test]
fn temp_names() {
    assert!(is_temp_name("a.tmp"));
    assert!(is_temp_name("notes.swp"));
    assert!(!is_temp_name("index.html"));
}
