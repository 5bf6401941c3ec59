//! The shared directory tree: an immutable picture of folders and files,
//! taken once from a directory listing and served unchanged afterwards.

use vstd::prelude::*;

verus! {

/// A point in time, counted from the Unix epoch.
#[derive(Clone, Copy, Debug, PartialEq, Eq, Structural)]
pub struct Timestamp {
    pub secs_since_epoch: u64,
    pub nanos_since_epoch: u32,
}

/// Size and times of a file, as they were when the tree was taken.
#[derive(Clone, Copy, Debug, PartialEq, Eq, Structural)]
pub struct FileMetadata {
    pub file_size: u64,
    pub file_modified: Timestamp,
    pub file_accessed: Timestamp,
    pub file_created: Timestamp,
}

/// A file of the tree: its path and, where the platform gave them, its
/// size and times.
#[derive(Debug)]
pub struct FileStruct {
    pub path: String,
    pub metadata: Option<FileMetadata>,
}

/// A folder of the tree with the entries found in it, in listing order.
#[derive(Debug)]
pub struct FolderItem {
    /// Path to the folder.
    pub path: String,
    /// Whether a viewer shows the folder's entries.
    pub opened: bool,
    /// The folder's entries.
    pub entries: Vec<PathItem>,
}

/// A node of the shared tree.
#[derive(Debug)]
pub enum PathItem {
    Folder(FolderItem),
    File(FileStruct),
}

/// The mathematical tree that a `PathItem` stands for.
pub enum TreeNode {
    Folder { path: Seq<char>, opened: bool, entries: Seq<TreeNode> },
    File { path: Seq<char>, metadata: Option<FileMetadata> },
}

impl TreeNode {
    /// The path that the node carries.
    pub open spec fn path(self) -> Seq<char> {
        match self {
            TreeNode::Folder { path, .. } => path,
            TreeNode::File { path, .. } => path,
        }
    }
}

/// The tree that `item` stands for.
pub open spec fn tree_view(item: PathItem) -> TreeNode
    decreases item,
{
    match item {
        PathItem::Folder(folder) => TreeNode::Folder {
            path: folder.path@,
            opened: folder.opened,
            entries: forest_view(folder.entries@),
        },
        PathItem::File(file) => TreeNode::File { path: file.path@, metadata: file.metadata },
    }
}

/// The trees that `items` stand for, in the same order.
pub open spec fn forest_view(items: Seq<PathItem>) -> Seq<TreeNode>
    decreases items,
{
    Seq::new(
        items.len(),
        |i: int|
            if 0 <= i < items.len() {
                tree_view(items[i])
            } else {
                arbitrary()
            },
    )
}

impl View for PathItem {
    type V = TreeNode;

    open spec fn view(&self) -> TreeNode {
        tree_view(*self)
    }
}

impl View for FolderItem {
    type V = TreeNode;

    open spec fn view(&self) -> TreeNode {
        TreeNode::Folder {
            path: self.path@,
            opened: self.opened,
            entries: forest_view(self.entries@),
        }
    }
}

impl View for FileStruct {
    type V = TreeNode;

    open spec fn view(&self) -> TreeNode {
        TreeNode::File { path: self.path@, metadata: self.metadata }
    }
}

impl Clone for FileStruct {
    fn clone(&self) -> (copy: Self)
        ensures
            copy@ == self@,
    {
        FileStruct { path: self.path.clone(), metadata: self.metadata }
    }
}

impl Clone for FolderItem {
    fn clone(&self) -> (copy: Self)
        ensures
            copy@ == self@,
        decreases self, 0nat,
    {
        FolderItem {
            path: self.path.clone(),
            opened: self.opened,
            entries: clone_forest(&self.entries),
        }
    }
}

impl Clone for PathItem {
    fn clone(&self) -> (copy: Self)
        ensures
            copy@ == self@,
        decreases self, 0nat,
    {
        match self {
            PathItem::Folder(folder) => PathItem::Folder(folder.clone()),
            PathItem::File(file) => PathItem::File(file.clone()),
        }
    }
}

/// Copies a list of trees, node by node.
pub fn clone_forest(items: &Vec<PathItem>) -> (copy: Vec<PathItem>)
    ensures
        forest_view(copy@) == forest_view(items@),
    decreases items, 1nat,
{
    let mut copy: Vec<PathItem> = Vec::new();
    let mut i: usize = 0;
    while i < items.len()
        invariant
            i <= items.len(),
            copy.len() == i,
            forall|k: int| 0 <= k < i ==> tree_view(#[trigger] copy@[k]) == tree_view(items@[k]),
        decreases items.len() - i,
    {
        copy.push(items[i].clone());
        i += 1;
    }
    assert(forest_view(copy@) =~= forest_view(items@));
    copy
}

impl PathItem {
    /// The path of the node, folder or file.
    pub fn get_path(&self) -> (path: String)
        ensures
            path@ == self@.path(),
    {
        match self {
            PathItem::Folder(folder) => folder.path.clone(),
            PathItem::File(file) => file.path.clone(),
        }
    }
}

/// What the platform reports of a file, as plain values. A time that the
/// platform does not keep is absent.
#[derive(Clone, Copy, Debug, PartialEq, Eq, Structural)]
pub struct FileStat {
    pub len: u64,
    pub modified: Option<Timestamp>,
    pub accessed: Option<Timestamp>,
    pub created: Option<Timestamp>,
}

/// What `FileMetadata::from_fs_metadata` makes of a report.
pub open spec fn metadata_of(stat: FileStat) -> Option<FileMetadata> {
    match (stat.modified, stat.accessed, stat.created) {
        (Some(modified), Some(accessed), Some(created)) => Some(
            FileMetadata {
                file_size: stat.len,
                file_modified: modified,
                file_accessed: accessed,
                file_created: created,
            },
        ),
        _ => None,
    }
}

impl FileMetadata {
    /// The metadata of a file, from what the platform reports of it: there
    /// is none unless all three times are kept.
    pub fn from_fs_metadata(metadata: FileStat) -> (made: Option<Self>)
        ensures
            made == metadata_of(metadata),
    {
        match (metadata.modified, metadata.accessed, metadata.created) {
            (Some(modified), Some(accessed), Some(created)) => Some(
                FileMetadata {
                    file_size: metadata.len,
                    file_modified: modified,
                    file_accessed: accessed,
                    file_created: created,
                },
            ),
            _ => None,
        }
    }
}

/// One entry of a directory, as it was found when the directory was listed.
#[derive(Debug)]
pub enum DirEntry {
    /// A regular file, with what the platform reports of it, if anything.
    File { path: String, stat: Option<FileStat> },
    /// A directory, with its own entries; `None` where it could not be
    /// listed.
    Directory { path: String, listing: Option<Vec<DirEntry>> },
    /// Anything else: a dangling link, a device, an entry that vanished.
    Other { path: String },
}

/// The node that an entry becomes in the tree, if it becomes one. A file
/// becomes a file, with metadata where the platform reported all of it. A
/// directory that could be listed becomes a closed folder of what its entries
/// become. Everything else is left out.
pub open spec fn snapshot_entry(entry: DirEntry) -> Option<TreeNode>
    decreases entry,
{
    match entry {
        DirEntry::File { path, stat } => Some(
            TreeNode::File {
                path: path@,
                metadata: match stat {
                    Some(stat) => metadata_of(stat),
                    None => None,
                },
            },
        ),
        DirEntry::Directory { path, listing: Some(listing) } => Some(
            TreeNode::Folder { path: path@, opened: false, entries: snapshot_entries(listing@) },
        ),
        DirEntry::Directory { path, listing: None } => None,
        DirEntry::Other { path } => None,
    }
}

/// The nodes that the entries of a listing become, in the order of the
/// listing, without those that are left out.
pub open spec fn snapshot_entries(listing: Seq<DirEntry>) -> Seq<TreeNode>
    decreases listing,
{
    if listing.len() == 0 {
        Seq::empty()
    } else {
        let before = snapshot_entries(listing.drop_last());
        match snapshot_entry(listing.last()) {
            Some(node) => before.push(node),
            None => before,
        }
    }
}

impl FolderItem {
    /// The folder at `path` whose directory listing is `listing`: closed, and
    /// holding what the entries of the listing become.
    pub fn new(path: String, listing: &Vec<DirEntry>) -> (folder: Self)
        ensures
            folder@ == (TreeNode::Folder {
                path: path@,
                opened: false,
                entries: snapshot_entries(listing@),
            }),
        decreases listing, 1nat,
    {
        FolderItem { path, opened: false, entries: iter_folder(listing) }
    }
}

/// The trees of a directory listing: one node for each file and each
/// directory that could be listed, in the order of the listing.
pub fn iter_folder(listing: &Vec<DirEntry>) -> (paths: Vec<PathItem>)
    ensures
        forest_view(paths@) == snapshot_entries(listing@),
    decreases listing, 0nat,
{
    let mut paths: Vec<PathItem> = Vec::new();
    let mut i: usize = 0;
    assert(listing@.subrange(0, 0) =~= Seq::empty());
    while i < listing.len()
        invariant
            i <= listing.len(),
            forest_view(paths@) == snapshot_entries(listing@.subrange(0, i as int)),
        decreases listing.len() - i,
    {
        let ghost before = paths@;
        let ghost prefix = listing@.subrange(0, i as int + 1);
        let ghost node = snapshot_entry(listing@[i as int]);
        proof {
            assert(prefix.drop_last() =~= listing@.subrange(0, i as int));
            assert(prefix.last() == listing@[i as int]);
            assert(snapshot_entries(prefix) == match node {
                Some(node) => forest_view(before).push(node),
                None => forest_view(before),
            });
        }
        match &listing[i] {
            DirEntry::File { path, stat } => {
                let metadata = match stat {
                    Some(stat) => FileMetadata::from_fs_metadata(*stat),
                    None => None,
                };
                paths.push(PathItem::File(FileStruct { path: path.clone(), metadata }));
                assert(node == Some(paths@.last()@));
                assert(forest_view(paths@) =~= forest_view(before).push(paths@.last()@));
            },
            DirEntry::Directory { path, listing: Some(inner) } => {
                paths.push(PathItem::Folder(FolderItem::new(path.clone(), inner)));
                assert(node == Some(paths@.last()@));
                assert(forest_view(paths@) =~= forest_view(before).push(paths@.last()@));
            },
            DirEntry::Directory { path, listing: None } => {},
            DirEntry::Other { path } => {},
        }
        i += 1;
    }
    assert(listing@.subrange(0, listing.len() as int) =~= listing@);
    paths
}

/// Why no snapshot could be taken.
#[derive(Clone, Copy, Debug, PartialEq, Eq, Structural)]
pub enum SnapshotError {
    /// The root itself could not be listed.
    UnreadableRoot,
}

/// The snapshot of the tree under `root`, given the listing of the root, or
/// `None` where the root could not be listed. Only an unreadable root fails:
/// an entry further down that could not be read is left out, and the rest of
/// the tree is still there.
pub fn snapshot(root: String, listing: Option<Vec<DirEntry>>) -> (taken: Result<
    PathItem,
    SnapshotError,
>)
    ensures
        match listing {
            Some(entries) => taken matches Ok(tree) && tree@ == (TreeNode::Folder {
                path: root@,
                opened: false,
                entries: snapshot_entries(entries@),
            }),
            None => taken == Err::<PathItem, SnapshotError>(SnapshotError::UnreadableRoot),
        },
{
    match listing {
        Some(entries) => Ok(PathItem::Folder(FolderItem::new(root, &entries))),
        None => Err(SnapshotError::UnreadableRoot),
    }
}

} // verus!
