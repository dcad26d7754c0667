use cachesweep::catalog::{
    artifact_scan_dirs, candidate_paths, category_records, category_tag, is_artifact_name,
    is_dependency_dir, is_leftover_name, join_path, leftover_scan_dirs, requires_directory,
    scan_plan, Category,
};
use cachesweep::greet;
use cachesweep::reclaim::{reclaim_outcome, ItemReport};
use cachesweep::records::collect_records;
use cachesweep::walk::{total_size, SizeError, WalkEntry};

#[test]
fn walk_sums_regular_files_at_every_depth() {
    let entries = vec![
        WalkEntry::Other,
        WalkEntry::File { len: 100 },
        WalkEntry::Other,
        WalkEntry::File { len: 50 },
        WalkEntry::Other,
        WalkEntry::File { len: 7 },
    ];
    assert_eq!(total_size(&entries), Ok(157));
}

#[test]
fn walk_of_single_file_root() {
    assert_eq!(total_size(&vec![WalkEntry::File { len: 42 }]), Ok(42));
    assert_eq!(total_size(&vec![WalkEntry::Other]), Ok(0));
}

#[test]
fn unreadable_descendant_is_left_out() {
    let entries = vec![
        WalkEntry::Other,
        WalkEntry::File { len: 100 },
        WalkEntry::Failed { depth: 1 },
        WalkEntry::File { len: 20 },
    ];
    assert_eq!(total_size(&entries), Ok(120));
}

#[test]
fn unreadable_root_fails() {
    assert_eq!(total_size(&vec![WalkEntry::Failed { depth: 0 }]), Err(SizeError::RootUnreadable));
    let entries = vec![WalkEntry::Other, WalkEntry::File { len: 3 }, WalkEntry::Failed { depth: 0 }];
    assert_eq!(total_size(&entries), Err(SizeError::RootUnreadable));
}

#[test]
fn paths_join_with_one_separator() {
    assert_eq!(join_path("/home/u", ".npm/_cacache"), "/home/u/.npm/_cacache");
    assert_eq!(join_path("/home/u/", ".npm"), "/home/u/.npm");
    assert_eq!(join_path("", "Library/Caches/Homebrew"), "Library/Caches/Homebrew");
}

#[test]
fn npm_candidates() {
    let paths = candidate_paths(Category::Npm, "/home/u", "/tmp");
    assert_eq!(paths.len(), 6);
    assert_eq!(paths[0], "/home/u/.npm/_cacache");
    assert_eq!(paths[5], "/home/u/AppData/Local/Yarn/Cache");
    assert_eq!(category_tag(Category::Npm), "npm_cache");
}

#[test]
fn temporary_directory_candidates() {
    let paths = candidate_paths(Category::Metro, "/home/u", "/var/tmp");
    assert_eq!(paths[3], "/var/tmp/metro-cache");
    assert_eq!(paths[4], "/var/tmp/react-native-packager-cache");
    let logs = candidate_paths(Category::SystemLogs, "/home/u", "/var/tmp");
    assert_eq!(logs[2], "/tmp");
}

#[test]
fn absent_candidates_give_no_records() {
    let paths = scan_plan(Category::Npm, Some("/home/u"), "/tmp").unwrap();
    let sizes = vec![None; paths.len()];
    assert!(category_records(Category::Npm, &paths, &sizes).is_empty());
    for c in [Category::Expo, Category::Ios, Category::Rust, Category::Homebrew, Category::Git] {
        let paths = scan_plan(c, Some("/home/u"), "/tmp").unwrap();
        let sizes = vec![None; paths.len()];
        assert!(category_records(c, &paths, &sizes).is_empty());
    }
}

#[test]
fn missing_home_fails_the_scan() {
    assert_eq!(
        scan_plan(Category::Expo, None, "/tmp"),
        Err("Could not find home directory".to_string())
    );
}

#[test]
fn homebrew_scans_without_home() {
    let paths = scan_plan(Category::Homebrew, None, "/tmp").unwrap();
    assert_eq!(
        paths,
        vec![
            "/opt/homebrew/var/cache".to_string(),
            "/usr/local/var/cache".to_string(),
            "Library/Caches/Homebrew".to_string(),
        ]
    );
}

#[test]
fn only_git_needs_directories() {
    assert!(requires_directory(Category::Git));
    assert!(!requires_directory(Category::Npm));
}

#[test]
fn records_keep_candidate_order() {
    let paths = vec!["/p/one".to_string(), "/p/two".to_string(), "/p/three".to_string()];
    let sizes = vec![Some(5), None, Some(0)];
    let records = collect_records("rust_cache", &paths, &sizes);
    assert_eq!(records.len(), 2);
    assert_eq!(records[0].path, "/p/one");
    assert_eq!(records[0].size, 5);
    assert_eq!(records[1].path, "/p/three");
    assert_eq!(records[1].size, 0);
    assert_eq!(records[1].file_type, "rust_cache");
    assert!(records[1].can_delete);
}

#[test]
fn leftover_names() {
    assert!(is_leftover_name("react-native-packager-1"));
    assert!(is_leftover_name("metro-abc"));
    assert!(is_leftover_name("expo-x"));
    assert!(is_leftover_name("haste-map-123"));
    assert!(is_leftover_name(".tmp"));
    assert!(!is_leftover_name(".tmpx"));
    assert!(!is_leftover_name("metro"));
    assert!(!is_leftover_name("my-metro-abc"));
}

#[test]
fn leftover_and_artifact_directories() {
    assert_eq!(
        leftover_scan_dirs("/home/u", "/tmp"),
        vec!["/tmp", "/home/u"]
    );
    assert_eq!(
        artifact_scan_dirs("/home/u"),
        vec!["/home/u/Desktop", "/home/u/Downloads", "/home/u/Documents"]
    );
}

#[test]
fn artifact_names() {
    assert!(is_artifact_name("app-release.apk"));
    assert!(is_artifact_name("x.ipa"));
    assert!(!is_artifact_name(".apk"));
    assert!(!is_artifact_name("app.APK"));
    assert!(!is_artifact_name("apk"));
    assert!(!is_artifact_name("app.apk.zip"));
}

#[test]
fn dependency_directories() {
    assert!(is_dependency_dir("node_modules"));
    assert!(!is_dependency_dir("node_modules2"));
}

#[test]
fn npm_cache_found_then_reclaimed() {
    let paths = scan_plan(Category::Npm, Some("/home/u"), "/tmp").unwrap();
    let walk = vec![WalkEntry::Other, WalkEntry::File { len: 100 }];
    let mut sizes = vec![None; paths.len()];
    sizes[0] = total_size(&walk).ok();
    let records = category_records(Category::Npm, &paths, &sizes);
    assert_eq!(records.len(), 1);
    assert_eq!(records[0].path, "/home/u/.npm/_cacache");
    assert_eq!(records[0].size, 100);
    assert_eq!(records[0].file_type, "npm_cache");

    let locators = vec![records[0].path.clone()];
    let reports = vec![ItemReport::Deleted { measured: Some(records[0].size) }];
    let out = reclaim_outcome(&locators, &reports, 2);
    assert_eq!(out.files_deleted, 1);
    assert_eq!(out.space_freed, 100);
    assert!(out.errors.is_empty());
}

#[test]
fn greeting() {
    assert_eq!(greet("Ann"), "Hello, Ann! You've been greeted from Rust!");
}
