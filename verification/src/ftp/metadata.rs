use vstd::prelude::*;

verus! {

/// An instant, counted from the start of 1970 (UTC).
#[derive(Clone, Copy, Debug, PartialEq, Eq, Structural)]
pub struct Timestamp {
    /// Whole seconds.
    pub secs: u64,
    /// The rest, in nanoseconds.
    pub nanos: u32,
}

/// Where one chunk of a file is kept: the message that carries it and the
/// address of its attachment, each as a sequence of characters.
pub type ChunkView = (Seq<char>, Seq<char>);

/// What [`Meta`] stands for.
pub struct MetaView {
    pub len: u64,
    pub is_dir: bool,
    pub is_file: bool,
    pub is_symlink: bool,
    pub modified: Timestamp,
    pub gid: u32,
    pub uid: u32,
    /// Message and attachment address of each chunk, in the order of the
    /// file's bytes.
    pub chunks: Seq<ChunkView>,
}

impl MetaView {
    /// The attributes of a directory made at `modified`.
    pub open spec fn directory(modified: Timestamp) -> MetaView {
        MetaView {
            len: 0,
            is_dir: true,
            is_file: false,
            is_symlink: false,
            modified,
            gid: 0,
            uid: 0,
            chunks: Seq::empty(),
        }
    }

    /// The attributes of a file of `len` bytes kept in `chunks`.
    pub open spec fn file(len: u64, chunks: Seq<ChunkView>, modified: Timestamp) -> MetaView {
        MetaView {
            len,
            is_dir: false,
            is_file: true,
            is_symlink: false,
            modified,
            gid: 0,
            uid: 0,
            chunks,
        }
    }

    /// At most one kind is set, a directory has neither length nor chunks,
    /// and bytes are never without a chunk that holds them.
    pub open spec fn valid(self) -> bool {
        &&& !(self.is_dir && self.is_file)
        &&& !(self.is_dir && self.is_symlink)
        &&& !(self.is_file && self.is_symlink)
        &&& self.is_dir ==> self.len == 0 && self.chunks.len() == 0
        &&& self.len > 0 ==> self.chunks.len() > 0
    }
}

/// The chunk references in `s`, each string taken as its characters.
pub open spec fn chunk_views(s: Seq<(String, String)>) -> Seq<ChunkView> {
    s.map_values(|c: (String, String)| (c.0@, c.1@))
}

/// An owned copy of a list of chunk references.
pub fn clone_chunks(chunks: &Vec<(String, String)>) -> (r: Vec<(String, String)>)
    ensures
        chunk_views(r@) == chunk_views(chunks@),
{
    let mut out: Vec<(String, String)> = Vec::new();
    let mut i: usize = 0;
    while i < chunks.len()
        invariant
            i <= chunks.len(),
            out.len() == i,
            forall|j: int| 0 <= j < i ==> out@[j].0@ == chunks@[j].0@ && out@[j].1@ == chunks@[j].1@,
        decreases chunks.len() - i,
    {
        let id = chunks[i].0.clone();
        let url = chunks[i].1.clone();
        out.push((id, url));
        i = i + 1;
    }
    out
}

/// The attributes of one entry of the virtual file system.
#[derive(Debug)]
pub struct Meta {
    len: u64,
    is_dir: bool,
    is_file: bool,
    is_symlink: bool,
    modified: Timestamp,
    gid: u32,
    uid: u32,
    ids_and_urls: Vec<(String, String)>,
}

impl View for Meta {
    type V = MetaView;

    closed spec fn view(&self) -> MetaView {
        MetaView {
            len: self.len,
            is_dir: self.is_dir,
            is_file: self.is_file,
            is_symlink: self.is_symlink,
            modified: self.modified,
            gid: self.gid,
            uid: self.uid,
            chunks: chunk_views(self.ids_and_urls@),
        }
    }
}

impl DeepView for Meta {
    type V = MetaView;

    open spec fn deep_view(&self) -> MetaView {
        self@
    }
}

impl Clone for Meta {
    fn clone(&self) -> (r: Self)
        ensures
            r@ == self@,
    {
        Meta {
            len: self.len,
            is_dir: self.is_dir,
            is_file: self.is_file,
            is_symlink: self.is_symlink,
            modified: self.modified,
            gid: self.gid,
            uid: self.uid,
            ids_and_urls: clone_chunks(&self.ids_and_urls),
        }
    }
}

impl Meta {
    /// A directory made at `modified`: no length, no chunks, owner 0.
    pub fn directory(modified: Timestamp) -> (r: Meta)
        ensures
            r@ == MetaView::directory(modified),
            r@.valid(),
    {
        let r = Meta {
            len: 0,
            is_dir: true,
            is_file: false,
            is_symlink: false,
            modified,
            gid: 0,
            uid: 0,
            ids_and_urls: Vec::new(),
        };
        assert(r@.chunks =~= Seq::empty());
        r
    }

    /// A file of `len` bytes whose content is kept in `ids_and_urls`, in
    /// that order; owner 0.
    pub fn file(len: u64, ids_and_urls: Vec<(String, String)>, modified: Timestamp) -> (r: Meta)
        ensures
            r@ == MetaView::file(len, chunk_views(ids_and_urls@), modified),
    {
        Meta {
            len,
            is_dir: false,
            is_file: true,
            is_symlink: false,
            modified,
            gid: 0,
            uid: 0,
            ids_and_urls,
        }
    }

    /// An entry with exactly the given attributes, valid or not.
    pub fn from_parts(
        len: u64,
        is_dir: bool,
        is_file: bool,
        is_symlink: bool,
        modified: Timestamp,
        gid: u32,
        uid: u32,
        ids_and_urls: Vec<(String, String)>,
    ) -> (r: Meta)
        ensures
            r@ == (MetaView {
                len,
                is_dir,
                is_file,
                is_symlink,
                modified,
                gid,
                uid,
                chunks: chunk_views(ids_and_urls@),
            }),
    {
        Meta { len, is_dir, is_file, is_symlink, modified, gid, uid, ids_and_urls }
    }

    /// Whether the attributes agree with each other.
    pub fn is_valid(&self) -> (r: bool)
        ensures
            r == self@.valid(),
    {
        !(self.is_dir && self.is_file) && !(self.is_dir && self.is_symlink) && !(self.is_file
            && self.is_symlink) && (!self.is_dir || (self.len == 0 && self.ids_and_urls.len() == 0))
            && (self.len == 0 || self.ids_and_urls.len() > 0)
    }

    /// Length of the content in bytes.
    pub fn len(&self) -> (r: u64)
        ensures
            r == self@.len,
    {
        self.len
    }

    pub fn is_dir(&self) -> (r: bool)
        ensures
            r == self@.is_dir,
    {
        self.is_dir
    }

    pub fn is_file(&self) -> (r: bool)
        ensures
            r == self@.is_file,
    {
        self.is_file
    }

    pub fn is_symlink(&self) -> (r: bool)
        ensures
            r == self@.is_symlink,
    {
        self.is_symlink
    }

    /// When the entry was last written.
    pub fn modified(&self) -> (r: Timestamp)
        ensures
            r == self@.modified,
    {
        self.modified
    }

    pub fn gid(&self) -> (r: u32)
        ensures
            r == self@.gid,
    {
        self.gid
    }

    pub fn uid(&self) -> (r: u32)
        ensures
            r == self@.uid,
    {
        self.uid
    }

    /// Message and attachment address of each chunk, in the order of the
    /// file's bytes.
    pub fn ids_and_urls(&self) -> (r: &Vec<(String, String)>)
        ensures
            chunk_views(r@) == self@.chunks,
    {
        &self.ids_and_urls
    }
}

} // verus!
