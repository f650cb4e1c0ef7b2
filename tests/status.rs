use asyncgit::{
    discard_reset_count, status_items, workdir_clean, DeltaKind, Error, RepoKind, ShowUntrackedFilesConfig,
    StatusEntry, StatusFlags, StatusItemType, StatusQuery, StatusType,
};

fn entry(bits: u32, path: &str) -> StatusEntry {
    StatusEntry { flags: StatusFlags::new(bits), head_to_index: None, path: Some(path.to_string()) }
}

#[test]
fn item_type_follows_precedence() {
    assert_eq!(StatusFlags::new(0).item_type(), StatusItemType::Modified);
    assert_eq!(StatusFlags::new(1).item_type(), StatusItemType::New);
    assert_eq!(StatusFlags::new(128).item_type(), StatusItemType::New);
    assert_eq!(StatusFlags::new(256).item_type(), StatusItemType::Modified);
    assert_eq!(StatusFlags::new(4).item_type(), StatusItemType::Deleted);
    assert_eq!(StatusFlags::new(512).item_type(), StatusItemType::Deleted);
    assert_eq!(StatusFlags::new(8).item_type(), StatusItemType::Renamed);
    assert_eq!(StatusFlags::new(2048).item_type(), StatusItemType::Renamed);
    assert_eq!(StatusFlags::new(16).item_type(), StatusItemType::Typechange);
    assert_eq!(StatusFlags::new(1024).item_type(), StatusItemType::Typechange);
    assert_eq!(StatusFlags::new(32768).item_type(), StatusItemType::Conflicted);
    // new wins over deleted, deleted over renamed, and so on
    assert_eq!(StatusFlags::new(1 | 512).item_type(), StatusItemType::New);
    assert_eq!(StatusFlags::new(4 | 8).item_type(), StatusItemType::Deleted);
    assert_eq!(StatusFlags::new(2048 | 16).item_type(), StatusItemType::Renamed);
    assert_eq!(StatusFlags::new(1024 | 32768).item_type(), StatusItemType::Typechange);
    assert_eq!(StatusFlags::new(32768 | 256).item_type(), StatusItemType::Conflicted);
    assert_eq!(StatusItemType::from(StatusFlags::new(2 | 256)), StatusItemType::Modified);
}

#[test]
fn delta_kinds_map_to_item_types() {
    assert_eq!(StatusItemType::from(DeltaKind::Added), StatusItemType::New);
    assert_eq!(StatusItemType::from(DeltaKind::Deleted), StatusItemType::Deleted);
    assert_eq!(StatusItemType::from(DeltaKind::Renamed), StatusItemType::Renamed);
    assert_eq!(StatusItemType::from(DeltaKind::Typechange), StatusItemType::Typechange);
    assert_eq!(StatusItemType::from(DeltaKind::Modified), StatusItemType::Modified);
    assert_eq!(StatusItemType::from(DeltaKind::Copied), StatusItemType::Modified);
    assert_eq!(StatusItemType::from(DeltaKind::Untracked), StatusItemType::Modified);
    assert_eq!(StatusItemType::from(DeltaKind::Conflicted), StatusItemType::Modified);
}

#[test]
fn status_is_sorted_by_path_components() {
    let entries = vec![entry(128, "b.txt"), entry(256, "a.b"), entry(4, "a/b"), entry(128, "a")];
    let items = status_items(&entries).unwrap();
    let paths: Vec<&str> = items.iter().map(|i| i.path.as_str()).collect();
    // component order puts "a/b" before "a.b", unlike byte order
    assert_eq!(paths, vec!["a", "a/b", "a.b", "b.txt"]);
    assert_eq!(items[1].status, StatusItemType::Deleted);
    assert_eq!(items[2].status, StatusItemType::Modified);
    assert_eq!(items[3].status, StatusItemType::New);
}

#[test]
fn status_listing_again_is_the_same() {
    let entries = vec![entry(128, "z"), entry(256, "m/n"), entry(128, "c")];
    let first = status_items(&entries).unwrap();
    let second = status_items(&entries).unwrap();
    assert_eq!(first, second);
    let again: Vec<StatusEntry> = first
        .iter()
        .map(|i| StatusEntry { flags: StatusFlags::new(128), head_to_index: None, path: Some(i.path.clone()) })
        .collect();
    let third = status_items(&again).unwrap();
    let first_paths: Vec<&str> = first.iter().map(|i| i.path.as_str()).collect();
    let third_paths: Vec<&str> = third.iter().map(|i| i.path.as_str()).collect();
    assert_eq!(first_paths, third_paths);
}

#[test]
fn status_of_empty_scan_is_empty() {
    assert!(status_items(&Vec::new()).unwrap().is_empty());
}

#[test]
fn staged_rename_is_listed_under_new_path() {
    let e = StatusEntry {
        flags: StatusFlags::new(8),
        head_to_index: Some(Some("new.txt".to_string())),
        path: Some("old.txt".to_string()),
    };
    let items = status_items(&vec![e]).unwrap();
    assert_eq!(items.len(), 1);
    assert_eq!(items[0].path, "new.txt");
    assert_eq!(items[0].status, StatusItemType::Renamed);
}

#[test]
fn missing_paths_fail_with_first_error() {
    let no_new = StatusEntry { flags: StatusFlags::new(8), head_to_index: Some(None), path: Some("x".to_string()) };
    let no_path = StatusEntry { flags: StatusFlags::new(128), head_to_index: None, path: None };
    assert_eq!(status_items(&vec![entry(128, "a"), no_new.clone()]), Err(Error::NewFilePathMissing));
    assert_eq!(status_items(&vec![no_path.clone()]), Err(Error::IndexPathMissing));
    assert_eq!(status_items(&vec![no_path, no_new]), Err(Error::IndexPathMissing));
}

#[test]
fn untracked_policy_from_config() {
    assert_eq!(ShowUntrackedFilesConfig::from_config_value(Some("no".to_string())), ShowUntrackedFilesConfig::No);
    assert_eq!(
        ShowUntrackedFilesConfig::from_config_value(Some("normal".to_string())),
        ShowUntrackedFilesConfig::Normal
    );
    assert_eq!(ShowUntrackedFilesConfig::from_config_value(Some("all".to_string())), ShowUntrackedFilesConfig::All);
    assert_eq!(ShowUntrackedFilesConfig::from_config_value(Some("yes".to_string())), ShowUntrackedFilesConfig::All);
    assert_eq!(ShowUntrackedFilesConfig::from_config_value(None), ShowUntrackedFilesConfig::All);
    assert!(!ShowUntrackedFilesConfig::No.include_untracked());
    assert!(!ShowUntrackedFilesConfig::Normal.recurse_untracked_dirs());
}

#[test]
fn status_query_options() {
    let q = StatusQuery::new(StatusType::Stage, ShowUntrackedFilesConfig::Normal);
    assert_eq!(q.show, StatusType::Stage);
    assert!(q.update_index && q.renames_head_to_index && q.include_untracked);
    assert!(!q.recurse_untracked_dirs);
    let q = StatusQuery::new(StatusType::default(), ShowUntrackedFilesConfig::No);
    assert_eq!(q.show, StatusType::WorkingDir);
    assert!(!q.include_untracked && !q.recurse_untracked_dirs);
    let q = StatusQuery::new(StatusType::Both, ShowUntrackedFilesConfig::All);
    assert!(q.include_untracked && q.recurse_untracked_dirs);
}

#[test]
fn bare_repository_is_clean() {
    assert!(workdir_clean(RepoKind { bare: true, worktree: false }, 3));
    assert!(!workdir_clean(RepoKind { bare: true, worktree: true }, 3));
    assert!(!workdir_clean(RepoKind { bare: false, worktree: false }, 1));
    assert!(workdir_clean(RepoKind { bare: false, worktree: false }, 0));
}

#[test]
fn discard_resets_once_per_modified_or_new_entry() {
    // one new file in the working tree
    assert_eq!(discard_reset_count(&vec![StatusFlags::new(128)]), 1);
    assert_eq!(
        discard_reset_count(&vec![StatusFlags::new(128), StatusFlags::new(256), StatusFlags::new(2), StatusFlags::new(512)]),
        2
    );
    assert_eq!(discard_reset_count(&vec![]), 0);
}
