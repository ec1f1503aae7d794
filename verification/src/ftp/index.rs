use crate::error::StorageError;
use crate::ftp::laws::{
    lemma_del_keeps, lemma_fresh_consistent, lemma_mkd_keeps, lemma_put_keeps, lemma_rename_keeps,
    lemma_rmd_keeps,
};
use crate::ftp::metadata::{Meta, MetaView, Timestamp};
use crate::ftp::model::{without, FilesView, PathView};
use crate::ftp::table::{table_of, Table};
use crate::path::{parent, parent_of, root_path};
use vstd::prelude::*;

verus! {

/// One line of a directory listing: a child and its attributes.
#[derive(Debug)]
pub struct Fileinfo {
    pub path: String,
    pub metadata: Meta,
}

/// The lines in `s`, each as the characters of its path and the view of its
/// attributes.
pub open spec fn fileinfo_views(s: Seq<Fileinfo>) -> Seq<(PathView, MetaView)> {
    s.map_values(|f: Fileinfo| (f.path@, f.metadata@))
}

/// An owned copy of a list of paths.
pub fn clone_paths(paths: &Vec<String>) -> (r: Vec<String>)
    ensures
        r.deep_view() == paths.deep_view(),
{
    let mut out: Vec<String> = Vec::new();
    let mut i: usize = 0;
    while i < paths.len()
        invariant
            i <= paths.len(),
            out.len() == i,
            forall|j: int| 0 <= j < i ==> out@[j]@ == paths@[j]@,
        decreases paths.len() - i,
    {
        out.push(paths[i].clone());
        i = i + 1;
    }
    out
}

/// The paths of `list` that differ from `path`, in order.
pub fn paths_without(list: &Vec<String>, path: &String) -> (r: Vec<String>)
    ensures
        r.deep_view() == without(list.deep_view(), path@),
{
    let mut out: Vec<String> = Vec::new();
    let mut i: usize = 0;
    while i < list.len()
        invariant
            i <= list.len(),
            out.deep_view() == without(list.deep_view().take(i as int), path@),
        decreases list.len() - i,
    {
        assert(list.deep_view().take(i + 1).drop_last() =~= list.deep_view().take(i as int));
        if list[i] != *path {
            out.push(list[i].clone());
        }
        i = i + 1;
    }
    assert(list.deep_view().take(list.len() as int) =~= list.deep_view());
    out
}

/// What an index made of these four lists stands for: `paths` and `metas`
/// give the entries, `dirs` and `lists` the children of each directory.
pub open spec fn parts_view(
    paths: Seq<PathView>,
    metas: Seq<MetaView>,
    dirs: Seq<PathView>,
    lists: Seq<Seq<PathView>>,
) -> FilesView {
    FilesView { files: table_of(paths, metas), folders: table_of(dirs, lists) }
}

/// Whether four lists make an index: each path has its value, none occurs
/// twice, and every listed child has an entry and lies directly under the
/// directory that lists it.
pub open spec fn parts_wf(
    paths: Seq<PathView>,
    metas: Seq<MetaView>,
    dirs: Seq<PathView>,
    lists: Seq<Seq<PathView>>,
) -> bool {
    &&& paths.len() == metas.len()
    &&& paths.no_duplicates()
    &&& dirs.len() == lists.len()
    &&& dirs.no_duplicates()
    &&& parts_view(paths, metas, dirs, lists).wf()
}

/// The index of the virtual file system: the attributes of every entry, and
/// for every directory the paths of its direct children.
pub struct Files {
    files: Table<Meta>,
    folders: Table<Vec<String>>,
}

impl View for Files {
    type V = FilesView;

    closed spec fn view(&self) -> FilesView {
        FilesView { files: self.files@, folders: self.folders@ }
    }
}

impl Files {
    /// The four lists that the index is kept in: the paths of the entries
    /// and their attributes, the paths of the directories and their
    /// children, position by position.
    pub closed spec fn parts(&self) -> (
        Seq<PathView>,
        Seq<MetaView>,
        Seq<PathView>,
        Seq<Seq<PathView>>,
    ) {
        (self.files.paths(), self.files.entries(), self.folders.paths(), self.folders.entries())
    }

    /// Both maps are kept without a path that occurs twice.
    pub closed spec fn inv(&self) -> bool {
        self.files.wf() && self.folders.wf()
    }

    /// The index is well kept, and every child that it lists has an entry
    /// and lies directly under the directory that lists it.
    pub open spec fn wf(&self) -> bool {
        self.inv() && self@.wf()
    }

    /// An index that holds the root directory, made at `now`, and nothing else.
    pub fn new(now: Timestamp) -> (r: Files)
        ensures
            r.wf(),
            r@ == FilesView::fresh(now),
            r@.consistent(),
    {
        let mut files: Table<Meta> = Table::new();
        let mut folders: Table<Vec<String>> = Table::new();
        files.insert(root_path(), Meta::directory(now));
        let none: Vec<String> = Vec::new();
        assert(none.deep_view() =~= Seq::empty());
        folders.insert(root_path(), none);
        let r = Files { files, folders };
        proof {
            lemma_fresh_consistent(now);
        }
        r
    }

    /// The index that holds the entries `paths` with the attributes `metas`
    /// and the directories `dirs` with the children `lists`, position by
    /// position and in that order. `DecodingFailure` where the four do not
    /// make an index.
    pub fn from_parts(
        paths: Vec<String>,
        metas: Vec<Meta>,
        dirs: Vec<String>,
        lists: Vec<Vec<String>>,
    ) -> (r: Result<Files, StorageError>)
        ensures
            r is Ok <==> parts_wf(
                paths.deep_view(),
                metas.deep_view(),
                dirs.deep_view(),
                lists.deep_view(),
            ),
            r matches Ok(f) ==> f.wf() && f@ == parts_view(
                paths.deep_view(),
                metas.deep_view(),
                dirs.deep_view(),
                lists.deep_view(),
            ) && f.parts() == (
                paths.deep_view(),
                metas.deep_view(),
                dirs.deep_view(),
                lists.deep_view(),
            ),
            r matches Err(e) ==> e == StorageError::DecodingFailure,
    {
        let files = match Table::from_parts(paths, metas) {
            Some(t) => t,
            None => {
                return Err(StorageError::DecodingFailure);
            },
        };
        let folders = match Table::from_parts(dirs, lists) {
            Some(t) => t,
            None => {
                return Err(StorageError::DecodingFailure);
            },
        };
        proof {
            files.lemma_view();
            folders.lemma_view();
        }
        let index = Files { files, folders };
        if index.children_in_place() {
            Ok(index)
        } else {
            Err(StorageError::DecodingFailure)
        }
    }

    /// Whether every listed child has an entry and lies directly under the
    /// directory that lists it.
    fn children_in_place(&self) -> (r: bool)
        requires
            self.inv(),
        ensures
            r == self@.wf(),
    {
        proof {
            self.folders.lemma_view();
        }
        let n = self.folders.len();
        let mut i: usize = 0;
        while i < n
            invariant
                self.inv(),
                n == self.folders.paths().len(),
                n == self.folders.entries().len(),
                i <= n,
                forall|a: int, b: int|
                    0 <= a < i && 0 <= b < self.folders.entries()[a].len() ==> {
                        &&& self@.files.contains_key(#[trigger] self.folders.entries()[a][b])
                        &&& parent_of(self.folders.entries()[a][b]) == Some(
                            self.folders.paths()[a],
                        )
                    },
            decreases n - i,
        {
            let dir = self.folders.path_at(i);
            let list = self.folders.value_at(i);
            let mut j: usize = 0;
            while j < list.len()
                invariant
                    self.inv(),
                    i < self.folders.paths().len(),
                    i < self.folders.entries().len(),
                    dir@ == self.folders.paths()[i as int],
                    list.deep_view() == self.folders.entries()[i as int],
                    j <= list.len(),
                    forall|b: int|
                        0 <= b < j ==> {
                            &&& self@.files.contains_key(
                                #[trigger] self.folders.entries()[i as int][b],
                            )
                            &&& parent_of(self.folders.entries()[i as int][b]) == Some(dir@)
                        },
                decreases list.len() - j,
            {
                let listed = self.files.contains_key(&list[j]);
                let under = match parent(list[j].as_str()) {
                    Some(d) => d == *dir,
                    None => false,
                };
                if !listed || !under {
                    proof {
                        self.folders.lemma_view();
                        assert(self@.folders[dir@][j as int] == list@[j as int]@);
                    }
                    return false;
                }
                j = j + 1;
            }
            i = i + 1;
        }
        proof {
            self.folders.lemma_view();
            assert forall|d: PathView, b: int|
                self@.folders.contains_key(d) && 0 <= b < self@.folders[d].len() implies {
                &&& self@.files.contains_key(#[trigger] self@.folders[d][b])
                &&& parent_of(self@.folders[d][b]) == Some(d)
            } by {
                assert(self.folders.paths()[self.folders.paths().index_of(d)] == d);
            }
        }
        true
    }

    /// The paths of all entries and, position by position, their
    /// attributes, in the order in which the paths came in.
    pub fn entries(&self) -> (r: (&Vec<String>, &Vec<Meta>))
        requires
            self.wf(),
        ensures
            r.0.deep_view() == self.parts().0,
            r.1.deep_view() == self.parts().1,
            r.0.deep_view().no_duplicates(),
            r.0.len() == r.1.len(),
            self@.files == table_of(r.0.deep_view(), r.1.deep_view()),
    {
        proof {
            self.files.lemma_view();
        }
        (self.files.keys(), self.files.values())
    }

    /// The paths of all directories that list children and, position by
    /// position, those children, in the order in which the paths came in.
    pub fn directories(&self) -> (r: (&Vec<String>, &Vec<Vec<String>>))
        requires
            self.wf(),
        ensures
            r.0.deep_view() == self.parts().2,
            r.1.deep_view() == self.parts().3,
            r.0.deep_view().no_duplicates(),
            r.0.len() == r.1.len(),
            self@.folders == table_of(r.0.deep_view(), r.1.deep_view()),
    {
        proof {
            self.folders.lemma_view();
        }
        (self.folders.keys(), self.folders.values())
    }

    /// Whether the index holds an entry at `path`.
    pub fn contains(&self, path: &str) -> (r: bool)
        requires
            self.wf(),
        ensures
            r == self@.files.contains_key(path@),
    {
        let key = String::from_str(path);
        self.files.contains_key(&key)
    }

    /// The attributes of the entry at `path`; `NotFound` where there is none.
    pub fn metadata(&self, path: &str) -> (r: Result<Meta, StorageError>)
        requires
            self.wf(),
        ensures
            match r {
                Ok(m) => self@.metadata(path@) == Ok::<MetaView, StorageError>(m@),
                Err(e) => self@.metadata(path@) == Err::<MetaView, StorageError>(e),
            },
    {
        let key = String::from_str(path);
        match self.files.get(&key) {
            Some(m) => Ok(m.clone()),
            None => Err(StorageError::NotFound),
        }
    }

    /// The children of `path` with their attributes, in the order in which
    /// they were added; nothing where `path` has no list of children.
    pub fn to_vec_fileinfo(&self, path: &str) -> (r: Vec<Fileinfo>)
        requires
            self.wf(),
        ensures
            fileinfo_views(r@) == self@.children(path@),
    {
        let key = String::from_str(path);
        let mut out: Vec<Fileinfo> = Vec::new();
        match self.folders.get(&key) {
            None => {},
            Some(list) => {
                let mut i: usize = 0;
                while i < list.len()
                    invariant
                        self.wf(),
                        self@.folders.contains_key(path@),
                        self@.folders[path@] == list.deep_view(),
                        i <= list.len(),
                        out.len() == i,
                        forall|j: int|
                            0 <= j < i ==> (#[trigger] out@[j]).path@ == list@[j]@
                                && out@[j].metadata@ == self@.files[list@[j]@],
                    decreases list.len() - i,
                {
                    assert(self@.folders[path@][i as int] == list@[i as int]@);
                    let child = list[i].clone();
                    // every listed child has an entry
                    if let Some(m) = self.files.get(&child) {
                        out.push(Fileinfo { path: child, metadata: m.clone() });
                    }
                    i = i + 1;
                }
            },
        }
        out
    }

    /// The listing of the directory at `path`: its children with their
    /// attributes, in the order in which they were added. `NotFound` where
    /// `path` is no directory.
    pub fn list(&self, path: &str) -> (r: Result<Vec<Fileinfo>, StorageError>)
        requires
            self.wf(),
        ensures
            match r {
                Ok(l) => self@.list(path@) == Ok::<Seq<(PathView, MetaView)>, StorageError>(
                    fileinfo_views(l@),
                ),
                Err(e) => self@.list(path@) == Err::<Seq<(PathView, MetaView)>, StorageError>(e),
            },
    {
        let key = String::from_str(path);
        match self.files.get(&key) {
            Some(m) => {
                if m.is_dir() {
                    Ok(self.to_vec_fileinfo(path))
                } else {
                    Err(StorageError::NotFound)
                }
            },
            None => Err(StorageError::NotFound),
        }
    }

    /// The directory that is to list `path`: its parent, where the index
    /// holds a list of children for it.
    pub fn home_of(&self, path: &str) -> (r: Option<String>)
        requires
            self.wf(),
        ensures
            match r {
                Some(d) => self@.home_of(path@) == Some(d@),
                None => self@.home_of(path@) is None,
            },
    {
        match parent(path) {
            Some(d) => {
                if self.folders.contains_key(&d) {
                    Some(d)
                } else {
                    None
                }
            },
            None => None,
        }
    }

    /// Adds `child` at the end of the children of `dir`.
    fn list_child(&mut self, dir: &String, child: String)
        requires
            old(self).inv(),
            old(self)@.folders.contains_key(dir@),
        ensures
            final(self).inv(),
            final(self)@ == old(self)@.listing(dir@, child@),
    {
        let mut list: Vec<String> = match self.folders.get(dir) {
            Some(l) => clone_paths(l),
            None => Vec::new(),
        };
        let ghost before = list.deep_view();
        list.push(child);
        assert(list.deep_view() =~= before.push(child@));
        self.folders.insert(dir.clone(), list);
    }

    /// Takes `child` out of the children of `dir`.
    fn unlist_child(&mut self, dir: &String, child: &String)
        requires
            old(self).inv(),
            old(self)@.folders.contains_key(dir@),
        ensures
            final(self).inv(),
            final(self)@ == old(self)@.unlisting(dir@, child@),
    {
        let list: Vec<String> = match self.folders.get(dir) {
            Some(l) => paths_without(l, child),
            None => Vec::new(),
        };
        self.folders.insert(dir.clone(), list);
    }

    /// Stores a file with attributes `meta` at `path`: the path is added at
    /// the end of its parent's children and the attributes become those of
    /// the entry. A path that is listed already is listed once more.
    /// `NotFound` where the parent directory is missing.
    pub fn put(&mut self, path: &str, meta: Meta) -> (r: Result<(), StorageError>)
        requires
            old(self).wf(),
        ensures
            final(self).wf(),
            match old(self)@.put(path@, meta@) {
                Ok(v) => r is Ok && final(self)@ == v,
                Err(e) => r == Err::<(), StorageError>(e) && final(self)@ == old(self)@,
            },
            old(self)@.closed() && !old(self)@.files.contains_key(path@) ==> final(self)@.closed(),
            old(self)@.consistent() && !old(self)@.files.contains_key(path@) && meta@.valid()
                && !meta@.is_dir ==> final(self)@.consistent(),
    {
        let dir = match self.home_of(path) {
            Some(d) => d,
            None => {
                return Err(StorageError::NotFound);
            },
        };
        proof {
            lemma_put_keeps(self@, path@, meta@);
        }
        self.list_child(&dir, String::from_str(path));
        self.files.insert(String::from_str(path), meta);
        Ok(())
    }

    /// Deletes the entry at `path` and takes it out of its parent's
    /// children. A directory loses its entry and keeps its list of
    /// children. `NotFound` where the entry or its parent directory is
    /// missing.
    pub fn del(&mut self, path: &str) -> (r: Result<(), StorageError>)
        requires
            old(self).wf(),
        ensures
            final(self).wf(),
            match old(self)@.del(path@) {
                Ok(v) => r is Ok && final(self)@ == v,
                Err(e) => r == Err::<(), StorageError>(e) && final(self)@ == old(self)@,
            },
            old(self)@.closed() && !old(self)@.files[path@].is_dir ==> final(self)@.closed(),
            old(self)@.consistent() && !old(self)@.files[path@].is_dir ==> final(self)@.consistent(),
    {
        let key = String::from_str(path);
        if !self.files.contains_key(&key) {
            return Err(StorageError::NotFound);
        }
        let dir = match self.home_of(path) {
            Some(d) => d,
            None => {
                return Err(StorageError::NotFound);
            },
        };
        proof {
            lemma_del_keeps(self@, path@);
        }
        self.unlist_child(&dir, &key);
        self.files.remove(&key);
        Ok(())
    }

    /// Makes a directory at `path`, made at `now`, with no children, and
    /// adds it at the end of its parent's children. `AlreadyExists` where
    /// an entry stands at `path`, `NotFound` where the parent directory is
    /// missing.
    pub fn mkd(&mut self, path: &str, now: Timestamp) -> (r: Result<(), StorageError>)
        requires
            old(self).wf(),
        ensures
            final(self).wf(),
            match old(self)@.mkd(path@, now) {
                Ok(v) => r is Ok && final(self)@ == v,
                Err(e) => r == Err::<(), StorageError>(e) && final(self)@ == old(self)@,
            },
            old(self)@.closed() ==> final(self)@.closed(),
            old(self)@.consistent() ==> final(self)@.consistent(),
    {
        let key = String::from_str(path);
        if self.files.contains_key(&key) {
            return Err(StorageError::AlreadyExists);
        }
        let dir = match self.home_of(path) {
            Some(d) => d,
            None => {
                return Err(StorageError::NotFound);
            },
        };
        proof {
            lemma_mkd_keeps(self@, path@, now);
        }
        let none: Vec<String> = Vec::new();
        assert(none.deep_view() =~= Seq::empty());
        self.folders.insert(String::from_str(path), none);
        self.list_child(&dir, String::from_str(path));
        self.files.insert(key, Meta::directory(now));
        Ok(())
    }

    /// Removes the entry at `path`, its list of children, and its place
    /// among its parent's children. A directory that still lists children
    /// is not removed: `DirectoryNotEmpty`. `NotFound` where the entry or
    /// its parent directory is missing.
    pub fn rmd(&mut self, path: &str) -> (r: Result<(), StorageError>)
        requires
            old(self).wf(),
        ensures
            final(self).wf(),
            match old(self)@.rmd(path@) {
                Ok(v) => r is Ok && final(self)@ == v,
                Err(e) => r == Err::<(), StorageError>(e) && final(self)@ == old(self)@,
            },
            old(self)@.closed() ==> final(self)@.closed(),
            old(self)@.consistent() ==> final(self)@.consistent(),
    {
        let key = String::from_str(path);
        if !self.files.contains_key(&key) {
            return Err(StorageError::NotFound);
        }
        match self.folders.get(&key) {
            Some(list) => {
                if list.len() > 0 {
                    return Err(StorageError::DirectoryNotEmpty);
                }
            },
            None => {},
        }
        let dir = match self.home_of(path) {
            Some(d) => d,
            None => {
                return Err(StorageError::NotFound);
            },
        };
        proof {
            lemma_rmd_keeps(self@, path@);
        }
        self.unlist_child(&dir, &key);
        self.folders.remove(&key);
        self.files.remove(&key);
        Ok(())
    }

    /// Moves the file at `from` to `to`: `from` leaves its parent's
    /// children, `to` is added at the end of its own parent's, and the
    /// attributes go with it, in place of what stood at `to`. `NotFound`
    /// where the entry or one of the two parent directories is missing,
    /// `NotImplemented` for a directory.
    pub fn rename(&mut self, from: &str, to: &str) -> (r: Result<(), StorageError>)
        requires
            old(self).wf(),
        ensures
            final(self).wf(),
            match old(self)@.rename(from@, to@) {
                Ok(v) => r is Ok && final(self)@ == v,
                Err(e) => r == Err::<(), StorageError>(e) && final(self)@ == old(self)@,
            },
            old(self)@.closed() && (!old(self)@.files.contains_key(to@) || to@ == from@)
                ==> final(self)@.closed(),
            old(self)@.consistent() && (!old(self)@.files.contains_key(to@) || to@ == from@)
                ==> final(self)@.consistent(),
    {
        let from_key = String::from_str(from);
        let meta = match self.files.get(&from_key) {
            Some(m) => m.clone(),
            None => {
                return Err(StorageError::NotFound);
            },
        };
        if meta.is_dir() {
            return Err(StorageError::NotImplemented);
        }
        let from_dir = match self.home_of(from) {
            Some(d) => d,
            None => {
                return Err(StorageError::NotFound);
            },
        };
        let to_dir = match self.home_of(to) {
            Some(d) => d,
            None => {
                return Err(StorageError::NotFound);
            },
        };
        proof {
            lemma_rename_keeps(self@, from@, to@);
        }
        self.unlist_child(&from_dir, &from_key);
        self.list_child(&to_dir, String::from_str(to));
        self.files.remove(&from_key);
        self.files.insert(String::from_str(to), meta);
        Ok(())
    }
}

} // verus!
