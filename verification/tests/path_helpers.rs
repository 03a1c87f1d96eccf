use fd_filesystem::components::{render_components, PathComponent, PrefixKind};
use fd_filesystem::entry::{emptiness_probe, is_empty, EntryContents, EntryKind, EntryProbe};
use fd_filesystem::paths::{
    absolute_path, default_path_separator, existing_directory_needs_normalize,
    is_existing_directory, path_absolute_form, replace_path_separator, strip_current_dir, Platform, RenderedPath,
};
use fd_filesystem::text::trim_start_matches;
use normpath::PathExt;
use std::path::Path;

/// Asks the disk what `is_existing_directory` needs, as a caller does, and decides.
fn existing_directory_on_disk(path: &str) -> bool {
    let is_dir = Path::new(path).is_dir();
    let normalizes =
        existing_directory_needs_normalize(path, is_dir) && Path::new(path).normalize().is_ok();
    is_existing_directory(path, is_dir, normalizes)
}

#[test]
fn strip_current_dir_basic() {
    assert_eq!(strip_current_dir("./foo"), "foo");
    assert_eq!(strip_current_dir("foo"), "foo");
    assert_eq!(strip_current_dir("./foo/bar/baz"), "foo/bar/baz");
    assert_eq!(strip_current_dir("foo/bar/baz"), "foo/bar/baz");
}

#[test]
fn replace_separator_none_is_noop() {
    let path = "foo/bar/baz";
    let result = replace_path_separator(path, None);
    // Should return Borrowed (zero-cost)
    assert!(matches!(result, RenderedPath::Borrowed(_)));
    assert_eq!(result.as_str(), path);
}

#[test]
fn replace_separator_basic() {
    let result = replace_path_separator("foo/bar/baz", Some("#"));
    assert_eq!(result.as_str(), "foo#bar#baz");
}

#[test]
fn replace_separator_single_component() {
    let result = replace_path_separator("foo", Some("#"));
    assert_eq!(result.as_str(), "foo");
}

#[test]
fn replace_separator_empty() {
    let result = replace_path_separator("", Some("#"));
    assert_eq!(result.as_str(), "");
}

#[test]
fn replace_separator_absolute() {
    let result = replace_path_separator("/foo/bar", Some("="));
    assert_eq!(result.as_str(), "=foo=bar");
}

#[test]
fn replace_separator_multi_char() {
    let result = replace_path_separator("a/b/c", Some("::"));
    assert_eq!(result.as_str(), "a::b::c");
}

#[test]
fn replace_separator_root_only() {
    let result = replace_path_separator("/", Some("#"));
    assert_eq!(result.as_str(), "#");
}

/// The separator layer of the multi-root `--path-separator=#` search with `--exec`: each
/// found path, and its parent, is written with `#` and holds no `/`.
#[test]
fn test_combo_multi_root_separator_exec() {
    let found = [
        "root_a/alpha.txt",
        "root_a/sub_a/beta.txt",
        "root_b/alpha.txt",
        "root_b/sub_b/delta.txt",
    ];
    let expected = [
        "root_a#alpha.txt",
        "root_a#sub_a#beta.txt",
        "root_b#alpha.txt",
        "root_b#sub_b#delta.txt",
    ];
    for (path, want) in found.iter().zip(expected.iter()) {
        let written = replace_path_separator(path, Some("#"));
        assert_eq!(written.as_str(), *want);
        assert!(!written.as_str().contains('/'), "path contains '/': {}", written.as_str());
        let parent = &path[..path.rfind('/').unwrap()];
        let parent_written = replace_path_separator(parent, Some("#"));
        assert!(
            !parent_written.as_str().contains('/'),
            "parent contains '/': {}",
            parent_written.as_str()
        );
        let base = &path[path.rfind('/').unwrap() + 1..];
        assert!(!base.contains('#'), "basename should not contain separator '#': {}", base);
    }
}

/// The separator layer of `--exec-batch` with `--path-separator=#`: every path handed to
/// the batch is written with `#` and holds no `/`.
#[test]
fn test_combo_exec_batch_batch_size_separator() {
    let found = [
        "./root_a/alpha.txt",
        "./root_a/sub_a/beta.txt",
        "./root_b/alpha.txt",
        "./root_b/sub_b/delta.txt",
    ];
    let mut written: Vec<String> = Vec::new();
    for path in found.iter() {
        let relative = strip_current_dir(path);
        written.push(replace_path_separator(relative, Some("#")).as_str().to_string());
    }
    let mut sorted = written.clone();
    sorted.sort();
    assert_eq!(
        sorted,
        vec![
            "root_a#alpha.txt".to_string(),
            "root_a#sub_a#beta.txt".to_string(),
            "root_b#alpha.txt".to_string(),
            "root_b#sub_b#delta.txt".to_string(),
        ]
    );
    for path in &written {
        assert!(!path.contains('/'), "path contains '/': {}", path);
    }
}

/// Search roots that do not exist are not accepted as directories.
#[test]
fn test_combo_failure_all_roots_invalid() {
    assert!(!existing_directory_on_disk("fake_root_1"));
    assert!(!existing_directory_on_disk("fake_root_2"));
}

/// A valid root next to a missing one: the valid root is accepted, the missing one is not.
#[test]
fn test_combo_failure_valid_plus_invalid_root() {
    assert!(existing_directory_on_disk("tests"));
    assert!(!existing_directory_on_disk("nonexistent_dir"));
}

#[test]
fn existing_directory_accepts_dot_and_rejects_files() {
    assert!(existing_directory_on_disk("."));
    assert!(existing_directory_on_disk("tests/.."));
    assert!(!existing_directory_on_disk("Cargo.toml"));
    assert!(!existing_directory_on_disk(""));
}

#[test]
fn existing_directory_decision_cases() {
    // Not a directory: refused whatever else holds.
    assert!(!is_existing_directory("root_a", false, true));
    // A directory with a file name: accepted without normalizing.
    assert!(is_existing_directory("root_a", true, false));
    // `.` in a working directory that was removed: it is a directory but does not normalize.
    assert!(!is_existing_directory(".", true, false));
    assert!(is_existing_directory(".", true, true));
    assert!(!is_existing_directory("a/..", true, false));
}

#[test]
fn existing_directory_normalizes_only_without_file_name() {
    assert!(!existing_directory_needs_normalize("root_a", true));
    assert!(existing_directory_needs_normalize(".", true));
    assert!(existing_directory_needs_normalize("a/..", true));
    assert!(!existing_directory_needs_normalize(".", false));
}

#[test]
fn strip_current_dir_edge_cases() {
    assert_eq!(strip_current_dir("."), "");
    assert_eq!(strip_current_dir("./"), "");
    assert_eq!(strip_current_dir("/foo"), "/foo");
    assert_eq!(strip_current_dir("../foo"), "../foo");
    assert_eq!(strip_current_dir(".foo"), ".foo");
}

#[test]
fn absolute_form_of_relative_and_absolute_paths() {
    let cwd = Some("/home/u");
    assert_eq!(path_absolute_form("foo", cwd), Some("/home/u/foo".to_string()));
    assert_eq!(path_absolute_form("./foo/bar", cwd), Some("/home/u/foo/bar".to_string()));
    assert_eq!(path_absolute_form("/etc/hosts", cwd), Some("/etc/hosts".to_string()));
    assert_eq!(path_absolute_form(".", cwd), Some("/home/u/".to_string()));
    // Without a readable working directory only absolute paths succeed.
    assert_eq!(path_absolute_form("/etc/hosts", None), Some("/etc/hosts".to_string()));
    assert_eq!(path_absolute_form("foo", None), None);
}

#[test]
fn absolute_path_per_platform() {
    let cwd = Some("/home/u");
    assert_eq!(absolute_path("./foo", cwd, Platform::Unix), Some("/home/u/foo".to_string()));
    assert_eq!(absolute_path("/x", cwd, Platform::Unix), Some("/x".to_string()));
    assert_eq!(absolute_path("/x", None, Platform::Unix), Some("/x".to_string()));
    assert_eq!(absolute_path("x", None, Platform::Windows), None);
    // The verbatim prefix is taken off, every copy of it, only on Windows.
    let base = Some("\\\\?\\\\\\?\\base");
    assert_eq!(
        absolute_path("x", base, Platform::Unix),
        Some("\\\\?\\\\\\?\\base/x".to_string())
    );
    assert_eq!(absolute_path("x", base, Platform::Windows), Some("base/x".to_string()));
}

#[test]
fn trim_start_matches_removes_every_leading_copy() {
    assert_eq!(trim_start_matches("ababc", "ab"), "c");
    assert_eq!(trim_start_matches("abc", ""), "abc");
    assert_eq!(trim_start_matches("xab", "ab"), "xab");
    assert_eq!(trim_start_matches("abab", "ab"), "");
    assert_eq!(trim_start_matches("é/é/x", "é/"), "x");
}

#[test]
fn default_separator_only_under_msys() {
    assert_eq!(default_path_separator(Platform::Windows, Some("MINGW64")), Some("/".to_string()));
    assert_eq!(default_path_separator(Platform::Windows, Some("")), None);
    assert_eq!(default_path_separator(Platform::Windows, None), None);
    assert_eq!(default_path_separator(Platform::Unix, Some("MINGW64")), None);
}

#[test]
fn render_components_handles_prefixes_and_dots() {
    let comps = vec![
        PathComponent::Prefix(
            PrefixKind::Unc("server".to_string(), "share".to_string()),
            "\\\\server\\share".to_string(),
        ),
        PathComponent::RootDir,
        PathComponent::Normal("dir".to_string()),
        PathComponent::ParentDir,
        PathComponent::Normal("f.txt".to_string()),
    ];
    assert_eq!(render_components(&comps, "/"), "//server/share/dir/../f.txt");
    let comps = vec![
        PathComponent::Prefix(PrefixKind::Disk, "C:".to_string()),
        PathComponent::RootDir,
        PathComponent::Normal("Users".to_string()),
    ];
    assert_eq!(render_components(&comps, "/"), "C:/Users");
    let comps = vec![PathComponent::CurDir, PathComponent::Normal("a".to_string())];
    assert_eq!(render_components(&comps, "#"), ".#a");
    assert_eq!(render_components(&Vec::new(), "#"), "");
    // Only a plain UNC prefix is rewritten; a verbatim one stays as written.
    let comps = vec![
        PathComponent::Prefix(PrefixKind::VerbatimUnc, "\\\\?\\UNC\\srv\\share".to_string()),
        PathComponent::RootDir,
        PathComponent::Normal("f".to_string()),
    ];
    assert_eq!(render_components(&comps, "/"), "\\\\?\\UNC\\srv\\share/f");
    let comps = vec![
        PathComponent::Prefix(PrefixKind::DeviceNs, "\\\\.\\COM1".to_string()),
        PathComponent::RootDir,
    ];
    assert_eq!(render_components(&comps, "#"), "\\\\.\\COM1#");
}

#[test]
fn replace_separator_normalizes_components() {
    assert_eq!(replace_path_separator("a//b/./c/", Some("#")).as_str(), "a#b#c");
    assert_eq!(replace_path_separator("./a/../b", Some("#")).as_str(), ".#a#..#b");
    assert!(matches!(replace_path_separator("a", Some("#")), RenderedPath::Owned(_)));
}

#[test]
fn emptiness_probe_per_kind() {
    assert!(matches!(emptiness_probe(Some(EntryKind::Directory)), EntryProbe::ListDirectory));
    assert!(matches!(emptiness_probe(Some(EntryKind::File)), EntryProbe::ReadLength));
    assert!(matches!(emptiness_probe(Some(EntryKind::Other)), EntryProbe::Nothing));
    assert!(matches!(emptiness_probe(None), EntryProbe::Nothing));
}

#[test]
fn is_empty_per_kind() {
    assert!(is_empty(Some(EntryKind::Directory), EntryContents::Listing(Some(false))));
    assert!(!is_empty(Some(EntryKind::Directory), EntryContents::Listing(Some(true))));
    assert!(!is_empty(Some(EntryKind::Directory), EntryContents::Listing(None)));
    assert!(is_empty(Some(EntryKind::File), EntryContents::Length(Some(0))));
    assert!(!is_empty(Some(EntryKind::File), EntryContents::Length(Some(3))));
    assert!(!is_empty(Some(EntryKind::File), EntryContents::Length(None)));
    assert!(!is_empty(Some(EntryKind::Other), EntryContents::Unread));
    assert!(!is_empty(None, EntryContents::Unread));
    assert!(!is_empty(Some(EntryKind::File), EntryContents::Listing(Some(false))));
}

/// The paths that a search over `root_a` and `root_b` prints are written the same way on
/// every run and whatever order the entries arrive in: the result set never changes.
#[test]
fn test_combo_concurrency_consistency() {
    let entries = [
        "./root_a/alpha.txt",
        "./root_a/sub_a",
        "./root_a/sub_a/beta.txt",
        "./root_a/sub_a/deep",
        "./root_a/sub_a/deep/gamma.log",
        "./root_b/alpha.txt",
        "./root_b/sub_b",
        "./root_b/sub_b/delta.txt",
        "./root_b/sub_b/deep",
        "./root_b/sub_b/deep/epsilon.log",
    ];
    let print = |order: &[&str]| -> std::collections::BTreeSet<String> {
        order
            .iter()
            .map(|p| replace_path_separator(strip_current_dir(p), None).as_str().to_string())
            .collect()
    };
    let baseline = print(&entries);
    for _ in 1..10 {
        assert_eq!(baseline, print(&entries));
    }
    let mut reversed = entries.to_vec();
    reversed.reverse();
    let mut interleaved: Vec<&str> = entries.iter().step_by(2).copied().collect();
    interleaved.extend(entries.iter().skip(1).step_by(2).copied());
    assert_eq!(
        print(&reversed),
        print(&interleaved),
        "CONCURRENCY MISMATCH: -j1 and -j4 produced different result sets"
    );
    let expected: std::collections::BTreeSet<String> = entries
        .iter()
        .map(|p| p.trim_start_matches("./").to_string())
        .collect();
    assert_eq!(baseline, expected);
}
