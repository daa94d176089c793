use r_tvui::filesystem::{
    absolute, assert_allowed, classify_file_type, is_hidden_name, join, list_directories, parent,
    prepend_parent_link, sort_entries, CacheConfig, DirectoriesCache, DirectoryListOptions, DirectorySortOrder,
    ScannedEntry, MAX_LISTED,
};
use r_tvui::paths::{AbsolutePath, File, FileType};

fn abs(p: &str) -> AbsolutePath {
    AbsolutePath(p.to_string())
}

fn entry(name: &str, kind: FileType, size: Option<u64>, modified: Option<(i64, u32)>) -> File {
    File {
        name: name.to_string(),
        path: abs(&format!("/d/{name}")),
        kind,
        size,
        modified,
        hidden: name.starts_with('.'),
        git_status: None,
        is_parent_link: false,
    }
}

fn read(path: &str, is_dir: bool, size: u64) -> ScannedEntry {
    ScannedEntry::Read { path: path.to_string(), is_dir, is_file: !is_dir, is_symlink: false, size, modified: None }
}

fn names(v: &[File]) -> Vec<String> {
    v.iter().map(|f| f.name.clone()).collect()
}

#[test]
fn paths_are_made_absolute_joined_and_walked_up() {
    assert_eq!(absolute("/a/b", "/cwd").0, "/a/b");
    assert_eq!(absolute("a/b", "/cwd").0, "/cwd/a/b");
    assert_eq!(join(&abs("/a"), "b").0, "/a/b");
    assert_eq!(parent(&abs("/a/b"), "/cwd").map(|p| p.0), Some("/a".to_string()));
    assert_eq!(parent(&abs("/"), "/cwd").map(|p| p.0), None);
    assert_eq!(parent(&abs("a"), "/cwd").map(|p| p.0), Some("/cwd/".to_string()));
}

#[test]
fn allowed_paths_lie_under_a_root() {
    assert!(assert_allowed(&abs("/x/y"), &vec![]));
    assert!(assert_allowed(&abs("/home/u/docs"), &vec![abs("/tmp"), abs("/home/u")]));
    assert!(!assert_allowed(&abs("/home/uv"), &vec![abs("/home/u")]));
}

#[test]
fn hidden_names_and_kinds() {
    assert!(is_hidden_name(".git"));
    assert!(!is_hidden_name(".."));
    assert!(!is_hidden_name("a.txt"));
    assert!(!is_hidden_name(""));
    assert_eq!(classify_file_type(true, false, true), FileType::Directory);
    assert_eq!(classify_file_type(false, true, false), FileType::File);
    assert_eq!(classify_file_type(false, false, true), FileType::Symlink);
    assert_eq!(classify_file_type(false, false, false), FileType::Other);
}

#[test]
fn entries_sort_directories_first_then_by_key() {
    let mut v = vec![
        entry("b.txt", FileType::File, Some(5), Some((10, 0))),
        entry("Zeta", FileType::Directory, None, None),
        entry("a.txt", FileType::File, Some(50), Some((20, 0))),
        entry("alpha", FileType::Directory, None, None),
        entry("c.txt", FileType::File, None, Some((20, 0))),
    ];
    sort_entries(&mut v, DirectorySortOrder::Name);
    assert_eq!(names(&v), vec!["alpha", "Zeta", "a.txt", "b.txt", "c.txt"]);
    sort_entries(&mut v, DirectorySortOrder::Size);
    assert_eq!(names(&v), vec!["Zeta", "alpha", "a.txt", "b.txt", "c.txt"]);
    sort_entries(&mut v, DirectorySortOrder::Modified);
    assert_eq!(names(&v), vec!["Zeta", "alpha", "a.txt", "c.txt", "b.txt"]);
}

#[test]
fn parent_link_goes_first() {
    let mut v = vec![entry("a.txt", FileType::File, Some(1), None)];
    prepend_parent_link(&abs("/d/e"), &mut v);
    assert_eq!(names(&v), vec!["..", "a.txt"]);
    assert!(v[0].is_parent_link);
    assert_eq!(v[0].path.0, "/d");
    assert_eq!(v[0].kind, FileType::Directory);
    let mut root = Vec::new();
    prepend_parent_link(&abs("/"), &mut root);
    assert!(root.is_empty());
}

#[test]
fn listing_collects_sorts_and_reports_errors() {
    let raw = vec![
        read("/d/z.txt", false, 1),
        ScannedEntry::Unreadable { message: "denied".to_string() },
        read("/d/.hidden", false, 1),
        ScannedEntry::NoMetadata { path: "/d/gone".to_string(), message: "vanished".to_string() },
        read("/d/sub", true, 0),
        read("/d/a.txt", false, 3),
    ];
    let result = list_directories(abs("/d"), DirectoryListOptions::default(), raw, 42);
    assert_eq!(names(&result.entries), vec!["..", "sub", "a.txt", "z.txt"]);
    assert!(!result.partial);
    assert_eq!(result.read_at, 42);
    assert_eq!(result.error_rows.len(), 2);
    assert_eq!(result.error_rows[0].name, "(read error)");
    assert_eq!(result.error_rows[0].message, "denied");
    assert_eq!(result.error_rows[1].name, "gone");
    assert_eq!(result.entries[2].size, Some(3));

    let opts = DirectoryListOptions { show_hidden: true, sort: DirectorySortOrder::Name, include_parent_link: false };
    let result = list_directories(abs("/d"), opts, vec![read("/d/.hidden", false, 1)], 0);
    assert_eq!(names(&result.entries), vec![".hidden"]);
    assert!(result.entries[0].hidden);
}

#[test]
fn listing_stops_at_the_limit() {
    let raw: Vec<ScannedEntry> = (0..MAX_LISTED + 3).map(|i| read(&format!("/d/f{i}"), false, 1)).collect();
    let opts = DirectoryListOptions { show_hidden: false, sort: DirectorySortOrder::Name, include_parent_link: false };
    let result = list_directories(abs("/d"), opts, raw, 0);
    assert!(result.partial);
    assert_eq!(result.entries.len(), MAX_LISTED);
}

#[test]
fn cache_keeps_fresh_listings_within_room() {
    let mut cache = DirectoriesCache::new(&CacheConfig { max_dirs: 2, ttl: 2000 });
    let listing = |p: &str, at: u64| list_directories(abs(p), DirectoryListOptions::default(), Vec::new(), at);
    cache.insert(listing("/a", 0));
    cache.insert(listing("/b", 10));
    assert!(cache.get(&abs("/a"), 100).is_some());
    assert!(cache.get(&abs("/a"), 5000).is_none());
    cache.insert(listing("/c", 20));
    assert!(cache.get(&abs("/a"), 100).is_none());
    assert_eq!(cache.get(&abs("/b"), 100).map(|l| l.read_at), Some(10));
    cache.insert(listing("/b", 30));
    assert_eq!(cache.get(&abs("/b"), 100).map(|l| l.read_at), Some(30));
    assert!(cache.get(&abs("/c"), 100).is_some());
    cache.invalidate(&abs("/c"));
    assert!(cache.get(&abs("/c"), 100).is_none());
    cache.insert(listing("/b/x", 40));
    cache.invalidate_tree_under(&abs("/b"));
    assert!(cache.get(&abs("/b"), 100).is_none());
    assert!(cache.get(&abs("/b/x"), 100).is_none());

    let mut none = DirectoriesCache::new(&CacheConfig { max_dirs: 0, ttl: 2000 });
    none.insert(listing("/a", 0));
    assert!(none.get(&abs("/a"), 0).is_none());
}
