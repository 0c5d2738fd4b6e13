use rebazel::classify::aliased;
use rebazel::classify::buildfile;
use rebazel::classify::clean_path;
use rebazel::classify::external_workspace;
use rebazel::classify::tools_default;
use rebazel::classify::watchable;

#[test]
fn is_tools_default() {
    assert!(tools_default("//tools/defaults:BUILD"))
}

#[test]
fn is_external_workspace() {
    assert!(external_workspace("@foo//bar"))
}

#[test]
fn is_aliasd() {
    assert!(aliased("//external/foo"))
}

#[test]
fn external_workspace_paths_are_not_watchable() {
    assert!(!watchable("@foo//bar"));
    assert!(!watchable("@"));
}

#[test]
fn aliased_paths_are_not_watchable() {
    assert!(!watchable("//external/foo"));
    assert!(!watchable("//external"));
}

#[test]
fn tools_default_buildfile_is_not_watchable() {
    assert!(!watchable("//tools/defaults:BUILD"));
}

#[test]
fn other_tools_default_targets_are_watchable() {
    assert!(watchable("//tools/defaults:OTHER"));
}

#[test]
fn ordinary_paths_are_watchable() {
    assert!(watchable("//pkg:file.go"));
    assert!(watchable("pkg/file.go"));
}

#[test]
fn clean_path_strips_package_marker() {
    assert_eq!(clean_path("//pkg:file.go"), "pkg/file.go");
}

#[test]
fn clean_path_strips_root_package_marker() {
    assert_eq!(clean_path("//:file.go"), "file.go");
}

#[test]
fn clean_path_replaces_every_separator() {
    assert_eq!(clean_path("//a/b:c:d"), "a/b/c/d");
    assert_eq!(clean_path("plain/file.go"), "plain/file.go");
}

#[test]
fn buildfile_true_for_canonical_name() {
    assert!(buildfile("BUILD"));
    assert!(buildfile("app/BUILD"));
    assert!(buildfile("a/b/BUILD"));
}

#[test]
fn buildfile_true_for_extension_files() {
    assert!(buildfile("defs.bzl"));
    assert!(buildfile("tools/build_rules/rules.bzl"));
    assert!(buildfile("pkg/a.b.bzl"));
}

#[test]
fn buildfile_false_for_source_paths() {
    assert!(!buildfile("app/main.go"));
    assert!(!buildfile("app/BUILDx"));
    assert!(!buildfile("app/xBUILD"));
    assert!(!buildfile("bzl"));
}

#[test]
fn buildfile_false_for_bare_dotfile() {
    // a name that is all extension has no extension
    assert!(!buildfile(".bzl"));
    assert!(!buildfile("pkg/.bzl"));
}
