use file_hosting::tree::{
    clone_forest, iter_folder, snapshot, DirEntry, FileMetadata, FileStat, FileStruct,
    FolderItem, PathItem, SnapshotError, Timestamp,
};

fn stamp(secs: u64) -> Timestamp {
    Timestamp { secs_since_epoch: secs, nanos_since_epoch: 5 }
}

fn full_stat() -> FileStat {
    FileStat { len: 2, modified: Some(stamp(1)), accessed: Some(stamp(2)), created: Some(stamp(3)) }
}

#[test]
fn metadata_needs_all_three_times() {
    let made = FileMetadata::from_fs_metadata(full_stat()).expect("all times are there");
    assert_eq!(made.file_size, 2);
    assert_eq!(made.file_modified, stamp(1));
    assert_eq!(made.file_accessed, stamp(2));
    assert_eq!(made.file_created, stamp(3));
    let mut stat = full_stat();
    stat.created = None;
    assert_eq!(FileMetadata::from_fs_metadata(stat), None);
    let mut stat = full_stat();
    stat.accessed = None;
    assert_eq!(FileMetadata::from_fs_metadata(stat), None);
    let mut stat = full_stat();
    stat.modified = None;
    assert_eq!(FileMetadata::from_fs_metadata(stat), None);
}

#[test]
fn get_path_gives_the_path_of_either_kind() {
    let file = PathItem::File(FileStruct { path: "a/b".to_string(), metadata: None });
    assert_eq!(file.get_path(), "a/b");
    let folder = PathItem::Folder(FolderItem::new("a".to_string(), &Vec::new()));
    assert_eq!(folder.get_path(), "a");
}

#[test]
fn new_folder_is_closed_and_holds_the_listing() {
    let listing = vec![DirEntry::File { path: "d/x".to_string(), stat: Some(full_stat()) }];
    let folder = FolderItem::new("d".to_string(), &listing);
    assert_eq!(folder.path, "d");
    assert!(!folder.opened);
    assert_eq!(folder.entries.len(), 1);
    match &folder.entries[0] {
        PathItem::File(file) => {
            assert_eq!(file.path, "d/x");
            assert_eq!(file.metadata, FileMetadata::from_fs_metadata(full_stat()));
        }
        other => panic!("unexpected {:?}", other),
    }
}

#[test]
fn iter_folder_keeps_order_and_leaves_out_what_cannot_be_read() {
    let mut partial = full_stat();
    partial.created = None;
    let listing = vec![
        DirEntry::Other { path: "r/link".to_string() },
        DirEntry::File { path: "r/z".to_string(), stat: None },
        DirEntry::Directory { path: "r/locked".to_string(), listing: None },
        DirEntry::Directory {
            path: "r/d".to_string(),
            listing: Some(vec![
                DirEntry::Directory { path: "r/d/e".to_string(), listing: Some(Vec::new()) },
                DirEntry::Other { path: "r/d/dev".to_string() },
                DirEntry::File { path: "r/d/f".to_string(), stat: Some(partial) },
            ]),
        },
        DirEntry::File { path: "r/a".to_string(), stat: Some(full_stat()) },
    ];
    let paths = iter_folder(&listing);
    let names: Vec<String> = paths.iter().map(|item| item.get_path()).collect();
    assert_eq!(names, vec!["r/z".to_string(), "r/d".to_string(), "r/a".to_string()]);
    assert!(matches!(&paths[0], PathItem::File(FileStruct { metadata: None, .. })));
    assert!(matches!(&paths[2], PathItem::File(FileStruct { metadata: Some(_), .. })));
    match &paths[1] {
        PathItem::Folder(folder) => {
            assert!(!folder.opened);
            assert_eq!(folder.entries.len(), 2);
            match &folder.entries[0] {
                PathItem::Folder(inner) => {
                    assert_eq!(inner.path, "r/d/e");
                    assert!(inner.entries.is_empty());
                }
                other => panic!("unexpected {:?}", other),
            }
            assert!(matches!(
                &folder.entries[1],
                PathItem::File(FileStruct { metadata: None, .. })
            ));
        }
        other => panic!("unexpected {:?}", other),
    }
}

#[test]
fn iter_folder_of_nothing_is_nothing() {
    assert!(iter_folder(&Vec::new()).is_empty());
}

#[test]
fn snapshot_fails_only_on_an_unreadable_root() {
    assert!(matches!(snapshot("R".to_string(), None), Err(SnapshotError::UnreadableRoot)));
    let listing = vec![
        DirEntry::Directory { path: "R/locked".to_string(), listing: None },
        DirEntry::File { path: "R/a.txt".to_string(), stat: None },
    ];
    match snapshot("R".to_string(), Some(listing)) {
        Ok(PathItem::Folder(root)) => {
            assert_eq!(root.path, "R");
            assert_eq!(root.entries.len(), 1);
            assert_eq!(root.entries[0].get_path(), "R/a.txt");
        }
        other => panic!("unexpected {:?}", other),
    }
}

#[test]
fn clone_forest_copies_every_node() {
    let listing = vec![
        DirEntry::File { path: "r/a".to_string(), stat: Some(full_stat()) },
        DirEntry::Directory {
            path: "r/d".to_string(),
            listing: Some(vec![DirEntry::File { path: "r/d/f".to_string(), stat: None }]),
        },
    ];
    let paths = iter_folder(&listing);
    let copy = clone_forest(&paths);
    assert_eq!(format!("{:?}", copy), format!("{:?}", paths));
}
