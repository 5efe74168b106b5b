use opencodedeck::env_path::{
    expand_tilde, expand_tilde_with_home, extra_path_candidates, extra_path_dirs_linux,
    extra_path_dirs_macos, extra_path_dirs_unix, merge_path_entries,
};
use opencodedeck::paths::{path_join, Platform};

#[test]
fn expand_tilde_home() {
    let p = expand_tilde("~/foo").unwrap();
    assert!(std::path::Path::new(&p).starts_with(dirs::home_dir().unwrap()));
}

#[test]
fn expand_tilde_absolute() {
    let p = expand_tilde("/usr/local/bin").unwrap();
    assert_eq!(p, "/usr/local/bin".to_string());
}

#[test]
fn unix_dirs_are_shared_across_platforms() {
    for p in extra_path_dirs_unix() {
        assert!(!p.starts_with("/opt/homebrew"), "{} should not be macOS-only", p);
        assert!(p.starts_with("~") || p == "~", "{} should be a home-relative path", p);
    }
}

#[test]
fn macos_dirs_are_macos_specific() {
    for p in extra_path_dirs_macos() {
        assert!(
            p.starts_with("/opt/homebrew") || p.starts_with("/usr/local"),
            "{} should be a macOS-specific system path",
            p
        );
    }
}

#[test]
fn linux_dirs_are_linux_specific() {
    for p in extra_path_dirs_linux() {
        assert!(p == "/snap/bin" || p == "/usr/local/bin", "{} should be a Linux-specific system path", p);
    }
}

#[test]
fn expand_tilde_with_given_home() {
    let home = Some("/home/alice".to_string());
    assert_eq!(expand_tilde_with_home("~/x/y", home.clone()), Some("/home/alice/x/y".to_string()));
    assert_eq!(expand_tilde_with_home("~", home.clone()), Some("/home/alice".to_string()));
    assert_eq!(expand_tilde_with_home("~x", home.clone()), Some("~x".to_string()));
    assert_eq!(expand_tilde_with_home("~/a", None), None);
    assert_eq!(expand_tilde_with_home("rel/a", None), Some("rel/a".to_string()));
}

#[test]
fn candidates_depend_on_platform() {
    assert_eq!(extra_path_candidates(Platform::Other).len(), 7);
    let mac = extra_path_candidates(Platform::MacOs);
    assert_eq!(mac.len(), 11);
    assert_eq!(mac[7], "/opt/homebrew/bin");
    let linux = extra_path_candidates(Platform::Linux);
    assert_eq!(linux[7..].to_vec(), vec!["/snap/bin", "/usr/local/bin"]);
}

#[test]
fn merge_adds_only_missing_paths() {
    let parts = vec!["/usr/bin".to_string(), "/bin".to_string()];
    let extras = vec![
        "/usr/bin/".to_string(),
        "/opt/x".to_string(),
        "/opt//x".to_string(),
        "/snap/bin".to_string(),
    ];
    let merged = merge_path_entries(parts, extras);
    assert_eq!(merged, vec!["/usr/bin", "/bin", "/opt/x", "/snap/bin"]);
}

#[test]
fn path_join_follows_posix_rules() {
    assert_eq!(path_join("/a", "b"), "/a/b");
    assert_eq!(path_join("/a/", "b"), "/a/b");
    assert_eq!(path_join("", "b"), "b");
    assert_eq!(path_join("/a", "/b"), "/b");
    assert_eq!(path_join("/a", ""), "/a/");
}
