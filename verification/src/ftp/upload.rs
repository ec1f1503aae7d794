use crate::error::StorageError;
use crate::ftp::index::Files;
use crate::ftp::limited_reader::{granted, LimitedAsyncReader};
use crate::ftp::metadata::{chunk_views, ChunkView, Meta, MetaView, Timestamp};
use crate::ftp::model::PathView;
use vstd::prelude::*;

verus! {

/// The slices of `ceiling` bytes that `stream` falls into, in order; the
/// last one is shorter where the length of `stream` is no multiple of
/// `ceiling`.
pub open spec fn chunks_of(stream: Seq<u8>, ceiling: nat) -> Seq<Seq<u8>>
    decreases stream.len(),
{
    if ceiling == 0 || stream.len() == 0 {
        Seq::empty()
    } else if stream.len() <= ceiling {
        seq![stream]
    } else {
        seq![stream.take(ceiling as int)] + chunks_of(stream.skip(ceiling as int), ceiling)
    }
}

/// Pieces of which none is empty and all but the last are `ceiling` bytes
/// long are the slices that their concatenation falls into.
pub proof fn lemma_chunks_of_pieces(pieces: Seq<Seq<u8>>, ceiling: nat)
    requires
        forall|i: int| 0 <= i < pieces.len() ==> 1 <= (#[trigger] pieces[i]).len() <= ceiling,
        forall|i: int| 0 <= i < pieces.len() - 1 ==> (#[trigger] pieces[i]).len() == ceiling,
    ensures
        chunks_of(pieces.flatten(), ceiling) == pieces,
    decreases pieces.len(),
{
    if pieces.len() > 0 {
        let rest = pieces.drop_first();
        lemma_chunks_of_pieces(rest, ceiling);
        let whole = pieces.flatten();
        if rest.len() > 0 {
            assert(whole.take(ceiling as int) =~= pieces[0]);
            assert(whole.skip(ceiling as int) =~= rest.flatten());
        }
    }
}

/// How far the storing of one file has come.
pub struct UploadView {
    /// Where the file is to stand.
    pub path: PathView,
    /// The instant recorded as its last change.
    pub modified: Timestamp,
    /// The most bytes that one chunk may hold.
    pub ceiling: nat,
    /// The most bytes that one read asks for.
    pub capacity: nat,
    /// Message and attachment address of each chunk that the remote
    /// service has confirmed, in order.
    pub chunks: Seq<ChunkView>,
    /// The content of each chunk handed out for sending, in order.
    pub payloads: Seq<Seq<u8>>,
    /// The bytes taken for the chunk that is being filled.
    pub buffered: Seq<u8>,
    /// Whether the last read for the chunk that is being filled brought
    /// nothing.
    pub ended: bool,
    /// Whether some read has brought nothing.
    pub over: bool,
    /// Whether bytes have come after a read that brought nothing.
    pub late: bool,
}

impl UploadView {
    /// Nothing taken, nothing sent.
    pub open spec fn start(
        path: PathView,
        modified: Timestamp,
        ceiling: nat,
        capacity: nat,
    ) -> UploadView {
        UploadView {
            path,
            modified,
            ceiling,
            capacity,
            chunks: Seq::empty(),
            payloads: Seq::empty(),
            buffered: Seq::empty(),
            ended: false,
            over: false,
            late: false,
        }
    }

    /// All bytes taken from the stream so far, in order.
    pub open spec fn stream(self) -> Seq<u8> {
        self.payloads.flatten() + self.buffered
    }

    /// How many bytes the next read may bring.
    pub open spec fn want(self) -> nat {
        granted(self.buffered.len(), self.ceiling, self.capacity)
    }

    /// The state after a read that brought `bytes`.
    pub open spec fn take(self, bytes: Seq<u8>) -> UploadView {
        UploadView {
            buffered: self.buffered + bytes,
            ended: bytes.len() == 0,
            over: self.over || bytes.len() == 0,
            late: self.late || (self.over && bytes.len() > 0),
            ..self
        }
    }

    /// Whether the chunk that is being filled is complete: the stream has
    /// ended or the chunk has reached the ceiling.
    pub open spec fn drained(self) -> bool {
        self.ended || self.buffered.len() >= self.ceiling
    }

    /// The state after the filled chunk was handed out for sending.
    pub open spec fn seal(self) -> UploadView {
        UploadView {
            payloads: self.payloads.push(self.buffered),
            buffered: Seq::empty(),
            ..self
        }
    }

    /// The state after the remote service confirmed the chunk last handed
    /// out, as message `id` with its attachment at `url`: a new chunk
    /// begins, and whether the stream has more is asked anew.
    pub open spec fn acknowledge(self, id: Seq<char>, url: Seq<char>) -> UploadView {
        UploadView { chunks: self.chunks.push((id, url)), ended: false, ..self }
    }

    /// Whether every chunk but the last is full.
    pub open spec fn full_but_last(self) -> bool {
        forall|i: int|
            0 <= i < self.payloads.len() - 1 ==> (#[trigger] self.payloads[i]).len()
                == self.ceiling
    }

    /// No chunk is empty, none exceeds the ceiling, and the count of bytes
    /// fits the length of a file. As long as no bytes have come after a
    /// read that brought nothing, every chunk but the last is full, and the
    /// last is short only where such a read has closed it.
    pub open spec fn valid(self) -> bool {
        &&& forall|i: int|
            0 <= i < self.payloads.len() ==> 1 <= (#[trigger] self.payloads[i]).len()
                <= self.ceiling
        &&& self.buffered.len() <= self.ceiling
        &&& self.stream().len() <= u64::MAX
        &&& self.ended ==> self.over
        &&& !self.late ==> self.full_but_last()
        &&& !self.late && self.payloads.len() > 0 && self.payloads.last().len() < self.ceiling
            ==> self.over && self.buffered.len() == 0
    }

    /// The attributes of the stored file: as long as the stream, kept in the
    /// confirmed chunks.
    pub open spec fn meta(self) -> MetaView {
        MetaView::file(self.stream().len() as u64, self.chunks, self.modified)
    }
}

/// The common record of an upload, whatever its state.
struct Progress {
    path: String,
    modified: Timestamp,
    ceiling: usize,
    capacity: usize,
    chunks: Vec<(String, String)>,
    received: u64,
    payloads: Ghost<Seq<Seq<u8>>>,
    ended: Ghost<bool>,
    over: Ghost<bool>,
    late: Ghost<bool>,
}

impl Progress {
    spec fn view_with(&self, buffered: Seq<u8>) -> UploadView {
        UploadView {
            path: self.path@,
            modified: self.modified,
            ceiling: self.ceiling as nat,
            capacity: self.capacity as nat,
            chunks: chunk_views(self.chunks@),
            payloads: self.payloads@,
            buffered,
            ended: self.ended@,
            over: self.over@,
            late: self.late@,
        }
    }
}

/// An upload that is waiting for bytes of the stream.
pub struct Upload {
    progress: Progress,
    limiter: LimitedAsyncReader,
    buffer: Vec<u8>,
}

/// An upload that is waiting for the remote service to confirm a chunk.
pub struct Pending {
    progress: Progress,
    payload: Vec<u8>,
}

/// An upload whose stream has been taken to its end: what is to be entered
/// in the index.
pub struct Stored {
    progress: Progress,
}

/// What is to be done next for an upload.
pub enum PutStep {
    /// Read from the stream, at most as many bytes as the upload wants, and
    /// hand them in.
    Read(Upload),
    /// Send the chunk as one attachment, pause, and hand in the reply.
    Send(Pending),
    /// Enter the file in the index.
    Done(Stored),
}

impl View for Upload {
    type V = UploadView;

    closed spec fn view(&self) -> UploadView {
        self.progress.view_with(self.buffer@)
    }
}

impl View for Pending {
    type V = UploadView;

    closed spec fn view(&self) -> UploadView {
        self.progress.view_with(Seq::empty())
    }
}

impl View for Stored {
    type V = UploadView;

    closed spec fn view(&self) -> UploadView {
        self.progress.view_with(Seq::empty())
    }
}

impl View for PutStep {
    type V = UploadView;

    open spec fn view(&self) -> UploadView {
        match self {
            PutStep::Read(u) => u@,
            PutStep::Send(p) => p@,
            PutStep::Done(s) => s@,
        }
    }
}

impl PutStep {
    /// The state that the step holds is in order.
    pub open spec fn inv(&self) -> bool {
        match self {
            PutStep::Read(u) => u.inv(),
            PutStep::Send(p) => p.inv(),
            PutStep::Done(s) => s.inv(),
        }
    }

    /// What follows once `v` holds all bytes of a read: the file is
    /// complete where the chunk is drained and empty, the chunk goes out
    /// where it is drained and holds bytes, and reading goes on otherwise.
    pub open spec fn follows(&self, v: UploadView) -> bool {
        if v.want() == 0 || v.drained() {
            if v.buffered.len() == 0 {
                self is Done && self@ == v
            } else {
                self is Send && self@ == v.seal()
            }
        } else {
            self is Read && self@ == v
        }
    }
}

impl Upload {
    /// Every chunk is confirmed, and the chunk that is being filled has
    /// room left.
    pub closed spec fn inv(&self) -> bool {
        &&& self@.valid()
        &&& self@.chunks.len() == self@.payloads.len()
        &&& self@.want() >= 1
        &&& self.limiter.limit() == self.progress.ceiling
        &&& self.limiter.consumed() == self.buffer@.len()
        &&& self.progress.received == self@.stream().len()
    }

    /// Begins to store a file at `path`, in chunks of at most `ceiling`
    /// bytes, reading at most `capacity` bytes at a time.
    pub fn begin(path: &str, modified: Timestamp, ceiling: usize, capacity: usize) -> (step:
        PutStep)
        ensures
            step.inv(),
            step.follows(UploadView::start(path@, modified, ceiling as nat, capacity as nat)),
    {
        let progress = Progress {
            path: String::from_str(path),
            modified,
            ceiling,
            capacity,
            chunks: Vec::new(),
            received: 0,
            payloads: Ghost(Seq::empty()),
            ended: Ghost(false),
            over: Ghost(false),
            late: Ghost(false),
        };
        assert(chunk_views(progress.chunks@) =~= Seq::empty());
        Self::next_chunk(progress)
    }

    /// Starts the next chunk over a record whose chunks are all confirmed.
    fn next_chunk(progress: Progress) -> (step: PutStep)
        requires
            progress.view_with(Seq::empty()).valid(),
            progress.chunks@.len() == progress.payloads@.len(),
            progress.received == progress.payloads@.flatten().len(),
            !progress.ended@,
        ensures
            step.inv(),
            step.follows(progress.view_with(Seq::empty())),
    {
        let limiter = LimitedAsyncReader::new(progress.ceiling);
        if limiter.window(progress.capacity) == 0 {
            PutStep::Done(Stored { progress })
        } else {
            PutStep::Read(Upload { progress, limiter, buffer: Vec::new() })
        }
    }

    /// How many bytes the next read may bring, at most.
    pub fn want(&self) -> (n: usize)
        requires
            self.inv(),
        ensures
            n == self@.want(),
            1 <= n <= self@.capacity,
            self@.buffered.len() + n <= self@.ceiling,
    {
        self.limiter.window(self.progress.capacity)
    }

    /// How many bytes have been taken from the stream so far.
    pub fn received(&self) -> (n: u64)
        requires
            self.inv(),
        ensures
            n == self@.stream().len(),
    {
        self.progress.received
    }

    /// Takes the bytes that a read brought; none means that the stream has
    /// ended.
    pub fn on_read(self, bytes: &[u8]) -> (step: PutStep)
        requires
            self.inv(),
            bytes@.len() <= self@.want(),
            self@.stream().len() + bytes@.len() <= u64::MAX,
        ensures
            step.inv(),
            step.follows(self@.take(bytes@)),
    {
        let Upload { mut progress, mut limiter, mut buffer } = self;
        let ghost before = buffer@;
        let ghost target = self@.take(bytes@);
        let count = bytes.len();
        buffer.extend_from_slice(bytes);
        assert(buffer@ =~= before + bytes@);
        limiter.record(count);
        progress.received = progress.received + count as u64;
        progress.ended = Ghost(target.ended);
        progress.over = Ghost(target.over);
        progress.late = Ghost(target.late);
        if count == 0 || limiter.window(progress.capacity) == 0 {
            if buffer.len() == 0 {
                assert(buffer@ =~= Seq::empty());
                PutStep::Done(Stored { progress })
            } else {
                proof {
                    progress.payloads@.lemma_flatten_push(buffer@);
                    assert(progress.payloads@.push(buffer@).flatten() + Seq::<u8>::empty()
                        =~= target.stream());
                }
                progress.payloads = Ghost(progress.payloads@.push(buffer@));
                PutStep::Send(Pending { progress, payload: buffer })
            }
        } else {
            PutStep::Read(Upload { progress, limiter, buffer })
        }
    }
}

impl Pending {
    /// All chunks but the one that is out are confirmed.
    pub closed spec fn inv(&self) -> bool {
        &&& self@.valid()
        &&& self@.chunks.len() + 1 == self@.payloads.len()
        &&& self@.buffered.len() == 0
        &&& self@.ceiling >= 1
        &&& self@.capacity >= 1
        &&& self.payload@ == self@.payloads.last()
        &&& self.progress.received == self@.stream().len()
    }

    /// The chunk that is to be sent.
    pub fn payload(&self) -> (r: &Vec<u8>)
        requires
            self.inv(),
        ensures
            self@.payloads.len() == self@.chunks.len() + 1,
            r@ == self@.payloads.last(),
            1 <= r@.len() <= self@.ceiling,
    {
        &self.payload
    }

    /// Records that the remote service keeps the chunk as message `id` with
    /// its attachment at `url`, and goes on to the next chunk.
    pub fn on_uploaded(self, id: String, url: String) -> (step: PutStep)
        requires
            self.inv(),
        ensures
            step.inv(),
            step.follows(self@.acknowledge(id@, url@)),
            step is Read,
    {
        let Pending { mut progress, payload } = self;
        let ghost before = chunk_views(progress.chunks@);
        progress.chunks.push((id, url));
        assert(chunk_views(progress.chunks@) =~= before.push((id@, url@)));
        progress.ended = Ghost(false);
        Upload::next_chunk(progress)
    }
}

impl Stored {
    /// Every chunk is confirmed and nothing is left over. Where chunks and
    /// reads have room for a byte, the stream has ended.
    pub closed spec fn inv(&self) -> bool {
        &&& self@.valid()
        &&& self@.chunks.len() == self@.payloads.len()
        &&& self@.buffered.len() == 0
        &&& self@.ceiling >= 1 && self@.capacity >= 1 ==> self@.ended
        &&& self.progress.received == self@.stream().len()
    }

    /// What a complete upload has sent: one chunk for every entry of the
    /// file's chunk list, none of them empty and none above the ceiling,
    /// which together are the stream and as long as the file. Where chunks
    /// and reads have room for a byte, the stream was taken to its end.
    /// Where the stream, once it had brought nothing, brought nothing
    /// more, the chunks are the slices of `ceiling` bytes that the stream
    /// falls into.
    pub proof fn lemma_chunks(&self)
        requires
            self.inv(),
        ensures
            self@.meta().chunks.len() == self@.payloads.len(),
            forall|i: int|
                0 <= i < self@.payloads.len() ==> 1 <= (#[trigger] self@.payloads[i]).len()
                    <= self@.ceiling,
            self@.payloads.flatten() == self@.stream(),
            self@.meta().len == self@.payloads.flatten().len(),
            self@.meta().valid(),
            self@.ceiling >= 1 && self@.capacity >= 1 ==> self@.ended,
            !self@.late ==> self@.payloads == chunks_of(self@.stream(), self@.ceiling),
    {
        if !self@.late {
            lemma_chunks_of_pieces(self@.payloads, self@.ceiling);
        }
    }

    /// The length of the stored file in bytes.
    pub fn len(&self) -> (n: u64)
        requires
            self.inv(),
        ensures
            n == self@.stream().len(),
    {
        self.progress.received
    }

    /// Enters the file in `index` and returns its length in bytes: the path
    /// is added at the end of its parent's children, and its attributes
    /// become those of the stored file. `NotFound`, and the index as it
    /// was, where the parent directory is missing.
    pub fn commit(self, index: &mut Files) -> (r: Result<u64, StorageError>)
        requires
            self.inv(),
            old(index).wf(),
        ensures
            final(index).wf(),
            match old(index)@.put(self@.path, self@.meta()) {
                Ok(v) => r == Ok::<u64, StorageError>(self@.stream().len() as u64)
                    && final(index)@ == v,
                Err(e) => r == Err::<u64, StorageError>(e) && final(index)@ == old(index)@,
            },
            self@.meta().valid(),
            old(index)@.closed() && !old(index)@.files.contains_key(self@.path) ==> final(index)@.closed(),
            old(index)@.consistent() && !old(index)@.files.contains_key(self@.path) ==> final(index)@.consistent(),
    {
        proof {
            self.lemma_chunks();
        }
        let Stored { progress } = self;
        let total = progress.received;
        let meta = Meta::file(total, progress.chunks, progress.modified);
        match index.put(progress.path.as_str(), meta) {
            Ok(()) => Ok(total),
            Err(e) => Err(e),
        }
    }
}

} // verus!
