use crate::error::StorageError;
use crate::ftp::metadata::{MetaView, Timestamp};
use crate::path::{parent_of, root};
use vstd::prelude::*;

verus! {

/// A path as a sequence of characters.
pub type PathView = Seq<char>;

/// `s` with every occurrence of `p` taken out, the rest in order.
pub open spec fn without(s: Seq<PathView>, p: PathView) -> Seq<PathView>
    decreases s.len(),
{
    if s.len() == 0 {
        s
    } else if s.last() == p {
        without(s.drop_last(), p)
    } else {
        without(s.drop_last(), p).push(s.last())
    }
}

/// How often `p` occurs in `s`.
pub open spec fn occurrences(s: Seq<PathView>, p: PathView) -> nat
    decreases s.len(),
{
    if s.len() == 0 {
        0
    } else if s.last() == p {
        occurrences(s.drop_last(), p) + 1
    } else {
        occurrences(s.drop_last(), p)
    }
}

/// One change of the index.
pub enum Operation {
    /// Make a directory at `path`, made at `now`.
    Mkd { path: PathView, now: Timestamp },
    /// Store a file with attributes `meta` at `path`.
    Put { path: PathView, meta: MetaView },
    /// Delete the entry at `path`.
    Del { path: PathView },
    /// Remove the directory at `path`.
    Rmd { path: PathView },
    /// Move the file at `from` to `to`.
    Rename { from: PathView, to: PathView },
}

impl Operation {
    /// Whether what `op` stores is a valid entry that is no directory.
    pub open spec fn sound(self) -> bool {
        match self {
            Operation::Put { path, meta } => meta.valid() && !meta.is_dir,
            _ => true,
        }
    }
}

/// What the index stands for: the attributes of every entry, and for every
/// directory the paths of its direct children in the order they came in.
pub struct FilesView {
    pub files: Map<PathView, MetaView>,
    pub folders: Map<PathView, Seq<PathView>>,
}

impl FilesView {
    /// An index that holds the root directory and nothing else.
    pub open spec fn fresh(now: Timestamp) -> FilesView {
        FilesView {
            files: Map::empty().insert(root(), MetaView::directory(now)),
            folders: Map::empty().insert(root(), Seq::empty()),
        }
    }

    /// The directory that is to list `path`, if the index holds one.
    pub open spec fn home_of(self, path: PathView) -> Option<PathView> {
        match parent_of(path) {
            Some(d) => if self.folders.contains_key(d) {
                Some(d)
            } else {
                None
            },
            None => None,
        }
    }

    /// The index with `child` added at the end of the children of `dir`.
    pub open spec fn listing(self, dir: PathView, child: PathView) -> FilesView {
        FilesView { folders: self.folders.insert(dir, self.folders[dir].push(child)), ..self }
    }

    /// The index with `child` taken out of the children of `dir`.
    pub open spec fn unlisting(self, dir: PathView, child: PathView) -> FilesView {
        FilesView { folders: self.folders.insert(dir, without(self.folders[dir], child)), ..self }
    }

    /// Every listed child has an entry and lies directly under the
    /// directory that lists it.
    pub open spec fn wf(self) -> bool {
        forall|d: PathView, i: int|
            self.folders.contains_key(d) && 0 <= i < self.folders[d].len() ==> {
                &&& self.files.contains_key(#[trigger] self.folders[d][i])
                &&& parent_of(self.folders[d][i]) == Some(d)
            }
    }

    /// Every directory has a list of children.
    pub open spec fn directories_listed(self) -> bool {
        forall|p: PathView|
            (#[trigger] self.files.contains_key(p)) && self.files[p].is_dir
                ==> self.folders.contains_key(p)
    }

    /// Only directories have a list of children.
    pub open spec fn lists_owned(self) -> bool {
        forall|d: PathView|
            (#[trigger] self.folders.contains_key(d)) ==> self.files.contains_key(d)
                && self.files[d].is_dir
    }

    /// Every entry but the root is listed exactly once by the directory
    /// above it.
    pub open spec fn entries_listed_once(self) -> bool {
        forall|p: PathView|
            (#[trigger] self.files.contains_key(p)) && p != root() ==> {
                &&& self.home_of(p) is Some
                &&& occurrences(self.folders[self.home_of(p)->0], p) == 1
            }
    }

    /// The attributes of every entry agree with each other.
    pub open spec fn entries_valid(self) -> bool {
        forall|p: PathView| (#[trigger] self.files.contains_key(p)) ==> self.files[p].valid()
    }

    /// The index is closed: every listed child has an entry, every list of
    /// children belongs to a directory, and every entry but the root is
    /// listed exactly once by the directory above it.
    pub open spec fn closed(self) -> bool {
        &&& self.wf()
        &&& self.lists_owned()
        &&& self.entries_listed_once()
    }

    /// The index describes a tree of valid entries: it is closed, every
    /// directory has a list of children, and the attributes of every entry
    /// agree with each other.
    pub open spec fn consistent(self) -> bool {
        &&& self.closed()
        &&& self.directories_listed()
        &&& self.entries_valid()
    }

    /// What `op` makes of the index, or why it is refused.
    pub open spec fn attempt(self, op: Operation) -> Result<FilesView, StorageError> {
        match op {
            Operation::Mkd { path, now } => self.mkd(path, now),
            Operation::Put { path, meta } => self.put(path, meta),
            Operation::Del { path } => self.del(path),
            Operation::Rmd { path } => self.rmd(path),
            Operation::Rename { from, to } => self.rename(from, to),
        }
    }

    /// The index after `op`: changed where `op` succeeds, as it was where
    /// `op` is refused.
    pub open spec fn apply(self, op: Operation) -> FilesView {
        match self.attempt(op) {
            Ok(v) => v,
            Err(_) => self,
        }
    }

    /// The index after each of `ops` in turn.
    pub open spec fn run(self, ops: Seq<Operation>) -> FilesView
        decreases ops.len(),
    {
        if ops.len() == 0 {
            self
        } else {
            self.run(ops.drop_last()).apply(ops.last())
        }
    }

    /// Whether `op` leaves every entry listed once: it stores a file only
    /// where nothing stands, deletes no directory, and moves a file only
    /// to where nothing stands or to where it is.
    pub open spec fn admits(self, op: Operation) -> bool {
        match op {
            Operation::Put { path, meta } => !self.files.contains_key(path),
            Operation::Del { path } => self.files.contains_key(path) ==> !self.files[path].is_dir,
            Operation::Rename { from, to } => !self.files.contains_key(to) || to == from,
            _ => true,
        }
    }

    /// Whether the index admits each of `ops` at its turn.
    pub open spec fn admits_all(self, ops: Seq<Operation>) -> bool {
        forall|k: int| 0 <= k < ops.len() ==> self.run(#[trigger] ops.take(k)).admits(ops[k])
    }

    /// The attributes of `path`.
    pub open spec fn metadata(self, path: PathView) -> Result<MetaView, StorageError> {
        if self.files.contains_key(path) {
            Ok(self.files[path])
        } else {
            Err(StorageError::NotFound)
        }
    }

    /// The children of `path` with their attributes, in the order they are
    /// listed; nothing where `path` has no list of children.
    pub open spec fn children(self, path: PathView) -> Seq<(PathView, MetaView)> {
        if self.folders.contains_key(path) {
            self.folders[path].map_values(|c: PathView| (c, self.files[c]))
        } else {
            Seq::empty()
        }
    }

    /// The listing of the directory at `path`, refused where `path` is no
    /// directory.
    pub open spec fn list(self, path: PathView) -> Result<Seq<(PathView, MetaView)>, StorageError> {
        if self.files.contains_key(path) && self.files[path].is_dir {
            Ok(self.children(path))
        } else {
            Err(StorageError::NotFound)
        }
    }

    /// The index after a file with attributes `meta` was stored at `path`:
    /// listed at the end of its parent's children, also where it is listed
    /// already.
    pub open spec fn put(self, path: PathView, meta: MetaView) -> Result<FilesView, StorageError> {
        match self.home_of(path) {
            None => Err(StorageError::NotFound),
            Some(d) => Ok(
                FilesView { files: self.files.insert(path, meta), ..self.listing(d, path) },
            ),
        }
    }

    /// The index after the entry at `path` was deleted. A list of children
    /// that is kept for `path` stays.
    pub open spec fn del(self, path: PathView) -> Result<FilesView, StorageError> {
        if !self.files.contains_key(path) {
            Err(StorageError::NotFound)
        } else {
            match self.home_of(path) {
                None => Err(StorageError::NotFound),
                Some(d) => Ok(
                    FilesView { files: self.files.remove(path), ..self.unlisting(d, path) },
                ),
            }
        }
    }

    /// The index after a directory was made at `path`.
    pub open spec fn mkd(self, path: PathView, now: Timestamp) -> Result<FilesView, StorageError> {
        if self.files.contains_key(path) {
            Err(StorageError::AlreadyExists)
        } else {
            match self.home_of(path) {
                None => Err(StorageError::NotFound),
                Some(d) => {
                    let opened = FilesView {
                        files: self.files.insert(path, MetaView::directory(now)),
                        folders: self.folders.insert(path, Seq::empty()),
                    };
                    Ok(opened.listing(d, path))
                },
            }
        }
    }

    /// The index after the directory at `path` was removed. A directory
    /// that lists children stays.
    pub open spec fn rmd(self, path: PathView) -> Result<FilesView, StorageError> {
        if !self.files.contains_key(path) {
            Err(StorageError::NotFound)
        } else if self.folders.contains_key(path) && self.folders[path].len() > 0 {
            Err(StorageError::DirectoryNotEmpty)
        } else {
            match self.home_of(path) {
                None => Err(StorageError::NotFound),
                Some(d) => {
                    let unlisted = self.unlisting(d, path);
                    Ok(
                        FilesView {
                            files: self.files.remove(path),
                            folders: unlisted.folders.remove(path),
                        },
                    )
                },
            }
        }
    }

    /// The index after the file at `from` was moved to `to`.
    pub open spec fn rename(self, from: PathView, to: PathView) -> Result<
        FilesView,
        StorageError,
    > {
        if !self.files.contains_key(from) {
            Err(StorageError::NotFound)
        } else if self.files[from].is_dir {
            Err(StorageError::NotImplemented)
        } else if self.home_of(from) is None || self.home_of(to) is None {
            Err(StorageError::NotFound)
        } else {
            let moved = self.unlisting(self.home_of(from)->0, from).listing(
                self.home_of(to)->0,
                to,
            );
            Ok(
                FilesView {
                    files: self.files.remove(from).insert(to, self.files[from]),
                    ..moved
                },
            )
        }
    }
}

} // verus!
