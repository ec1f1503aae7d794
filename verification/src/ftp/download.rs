use crate::ftp::metadata::{chunk_views, clone_chunks, ChunkView, Meta};
use crate::ftp::upload::Stored;
use vstd::prelude::*;

verus! {

/// How far the fetching of one file has come.
pub struct DownloadView {
    /// Message and attachment address of each chunk of the file, in order.
    pub chunks: Seq<ChunkView>,
    /// What was fetched for each chunk so far, in order.
    pub fetched: Seq<Seq<u8>>,
}

impl DownloadView {
    /// Nothing fetched yet.
    pub open spec fn start(chunks: Seq<ChunkView>) -> DownloadView {
        DownloadView { chunks, fetched: Seq::empty() }
    }

    /// The bytes assembled so far: what was fetched, in the order of the
    /// chunks.
    pub open spec fn data(self) -> Seq<u8> {
        self.fetched.flatten()
    }

    /// The state after the next chunk came in as `bytes`.
    pub open spec fn take(self, bytes: Seq<u8>) -> DownloadView {
        DownloadView { fetched: self.fetched.push(bytes), ..self }
    }

    /// Whether every chunk has been fetched.
    pub open spec fn complete(self) -> bool {
        self.fetched.len() == self.chunks.len()
    }
}

/// What was stored comes back: where a download of the stored file is
/// complete and every chunk, fetched, is the payload that was sent for it,
/// the bytes that come out are the stream that went in, whatever the
/// ceiling.
pub proof fn lemma_round_trip(stored: &Stored, fetched: &Fetched)
    requires
        stored.inv(),
        fetched.inv(),
        fetched@.chunks == stored@.meta().chunks,
        fetched@.fetched == stored@.payloads,
    ensures
        fetched@.complete(),
        fetched@.data() == stored@.stream(),
{
    stored.lemma_chunks();
}

/// A download that is waiting for the bytes of its next chunk.
pub struct Download {
    chunks: Vec<(String, String)>,
    position: usize,
    data: Vec<u8>,
    fetched: Ghost<Seq<Seq<u8>>>,
}

/// The bytes of a file, fetched to the end.
pub struct Fetched {
    data: Vec<u8>,
    chunks: Ghost<Seq<ChunkView>>,
    fetched: Ghost<Seq<Seq<u8>>>,
}

/// What is to be done next for a download.
pub enum GetStep {
    /// Fetch the chunk that the download names, and hand in its bytes.
    Fetch(Download),
    /// Hand the bytes to the reader.
    Done(Fetched),
}

impl View for Download {
    type V = DownloadView;

    closed spec fn view(&self) -> DownloadView {
        DownloadView { chunks: chunk_views(self.chunks@), fetched: self.fetched@ }
    }
}

impl View for Fetched {
    type V = DownloadView;

    closed spec fn view(&self) -> DownloadView {
        DownloadView { chunks: self.chunks@, fetched: self.fetched@ }
    }
}

impl View for GetStep {
    type V = DownloadView;

    open spec fn view(&self) -> DownloadView {
        match self {
            GetStep::Fetch(d) => d@,
            GetStep::Done(f) => f@,
        }
    }
}

impl GetStep {
    /// The state that the step holds is in order.
    pub open spec fn inv(&self) -> bool {
        match self {
            GetStep::Fetch(d) => d.inv(),
            GetStep::Done(f) => f.inv(),
        }
    }

    /// What follows in state `v`: the download is done once every chunk
    /// has been fetched, and goes on to the next chunk otherwise.
    pub open spec fn follows(&self, v: DownloadView) -> bool {
        &&& self@ == v
        &&& self is Done <==> v.complete()
    }
}

impl Download {
    /// A chunk is left to fetch, and the bytes held are those fetched.
    pub closed spec fn inv(&self) -> bool {
        &&& self.position == self.fetched@.len()
        &&& self.position < self.chunks.len()
        &&& self.data@ == self.fetched@.flatten()
    }

    /// Begins to fetch the content of the entry `meta`. A file without
    /// chunks is done at once, with no bytes.
    pub fn begin(meta: &Meta) -> (step: GetStep)
        ensures
            step.inv(),
            step.follows(DownloadView::start(meta@.chunks)),
    {
        let chunks = clone_chunks(meta.ids_and_urls());
        Self::next_chunk(chunks, 0, Vec::new(), Ghost(Seq::empty()))
    }

    /// Goes on to the chunk at `position`, or ends where there is none.
    fn next_chunk(
        chunks: Vec<(String, String)>,
        position: usize,
        data: Vec<u8>,
        fetched: Ghost<Seq<Seq<u8>>>,
    ) -> (step: GetStep)
        requires
            position == fetched@.len(),
            position <= chunks@.len(),
            data@ == fetched@.flatten(),
        ensures
            step.inv(),
            step.follows(DownloadView { chunks: chunk_views(chunks@), fetched: fetched@ }),
    {
        if position == chunks.len() {
            GetStep::Done(Fetched { data, chunks: Ghost(chunk_views(chunks@)), fetched })
        } else {
            GetStep::Fetch(Download { chunks, position, data, fetched })
        }
    }

    /// The message that carries the next chunk.
    pub fn message_id(&self) -> (id: &String)
        requires
            self.inv(),
        ensures
            self@.fetched.len() < self@.chunks.len(),
            id@ == self@.chunks[self@.fetched.len() as int].0,
    {
        &self.chunks[self.position].0
    }

    /// The address of the attachment that holds the next chunk.
    pub fn url(&self) -> (url: &String)
        requires
            self.inv(),
        ensures
            self@.fetched.len() < self@.chunks.len(),
            url@ == self@.chunks[self@.fetched.len() as int].1,
    {
        &self.chunks[self.position].1
    }

    /// Takes the bytes of the chunk that was fetched and puts them after
    /// those of the chunks before it.
    pub fn on_fetched(self, bytes: Vec<u8>) -> (step: GetStep)
        requires
            self.inv(),
        ensures
            step.inv(),
            step.follows(self@.take(bytes@)),
    {
        let Download { chunks, position, mut data, fetched } = self;
        let ghost got = bytes@;
        let mut bytes = bytes;
        proof {
            fetched@.lemma_flatten_push(got);
        }
        data.append(&mut bytes);
        Self::next_chunk(chunks, position + 1, data, Ghost(fetched@.push(got)))
    }
}

impl Fetched {
    /// Every chunk was fetched, and the bytes held are those fetched.
    pub closed spec fn inv(&self) -> bool {
        &&& self.fetched@.len() == self.chunks@.len()
        &&& self.data@ == self.fetched@.flatten()
    }

    /// The content of the file: what was fetched for its chunks, in their
    /// order.
    pub fn into_bytes(self) -> (r: Vec<u8>)
        requires
            self.inv(),
        ensures
            r@ == self@.data(),
            self@.complete(),
    {
        self.data
    }
}

} // verus!
