use crate::error::StorageError;
use crate::ftp::index::Files;
use crate::ftp::metadata::{chunk_views, clone_chunks, ChunkView, Meta};
use crate::ftp::model::PathView;
use vstd::prelude::*;

verus! {

/// How far the deleting of one entry has come.
pub struct RemovalView {
    /// The entry that is to go.
    pub path: PathView,
    /// Message and attachment address of each of its chunks, in order.
    pub chunks: Seq<ChunkView>,
    /// How many of the messages, from the first on, are deleted.
    pub deleted: nat,
}

impl RemovalView {
    /// No message deleted yet.
    pub open spec fn start(path: PathView, chunks: Seq<ChunkView>) -> RemovalView {
        RemovalView { path, chunks, deleted: 0 }
    }

    /// The state after one more message was deleted.
    pub open spec fn advance(self) -> RemovalView {
        RemovalView { deleted: self.deleted + 1, ..self }
    }

    /// Whether every message has been deleted.
    pub open spec fn complete(self) -> bool {
        self.deleted == self.chunks.len()
    }
}

/// A removal that is waiting for the remote service to delete a message.
pub struct Removal {
    path: String,
    chunks: Vec<(String, String)>,
    position: usize,
}

/// An entry whose messages are all deleted: what is to be taken out of the
/// index.
pub struct Removed {
    path: String,
    chunks: Ghost<Seq<ChunkView>>,
}

/// What is to be done next for a removal.
pub enum DelStep {
    /// Delete the message that the removal names, and report back.
    Delete(Removal),
    /// Take the entry out of the index.
    Done(Removed),
}

impl View for Removal {
    type V = RemovalView;

    closed spec fn view(&self) -> RemovalView {
        RemovalView {
            path: self.path@,
            chunks: chunk_views(self.chunks@),
            deleted: self.position as nat,
        }
    }
}

impl View for Removed {
    type V = RemovalView;

    closed spec fn view(&self) -> RemovalView {
        RemovalView { path: self.path@, chunks: self.chunks@, deleted: self.chunks@.len() }
    }
}

impl View for DelStep {
    type V = RemovalView;

    open spec fn view(&self) -> RemovalView {
        match self {
            DelStep::Delete(r) => r@,
            DelStep::Done(r) => r@,
        }
    }
}

impl DelStep {
    /// The state that the step holds is in order.
    pub open spec fn inv(&self) -> bool {
        match self {
            DelStep::Delete(r) => r.inv(),
            DelStep::Done(_) => true,
        }
    }

    /// What follows in state `v`: the removal is done once every message
    /// has been deleted, and goes on to the next message otherwise.
    pub open spec fn follows(&self, v: RemovalView) -> bool {
        &&& self@ == v
        &&& self is Done <==> v.complete()
    }
}

impl Removal {
    /// A message is left to delete.
    pub closed spec fn inv(&self) -> bool {
        self.position < self.chunks.len()
    }

    /// Begins to delete the entry at `path` whose attributes are `meta`.
    /// An entry without chunks is done at once.
    pub fn begin(path: &str, meta: &Meta) -> (step: DelStep)
        ensures
            step.inv(),
            step.follows(RemovalView::start(path@, meta@.chunks)),
    {
        let chunks = clone_chunks(meta.ids_and_urls());
        Self::next_message(String::from_str(path), chunks, 0)
    }

    /// Goes on to the message at `position`, or ends where there is none.
    fn next_message(path: String, chunks: Vec<(String, String)>, position: usize) -> (step:
        DelStep)
        requires
            position <= chunks@.len(),
        ensures
            step.inv(),
            step.follows(
                RemovalView {
                    path: path@,
                    chunks: chunk_views(chunks@),
                    deleted: position as nat,
                },
            ),
    {
        if position == chunks.len() {
            DelStep::Done(Removed { path, chunks: Ghost(chunk_views(chunks@)) })
        } else {
            DelStep::Delete(Removal { path, chunks, position })
        }
    }

    /// The message that is to be deleted next.
    pub fn message_id(&self) -> (id: &String)
        requires
            self.inv(),
        ensures
            self@.deleted < self@.chunks.len(),
            id@ == self@.chunks[self@.deleted as int].0,
    {
        &self.chunks[self.position].0
    }

    /// Records that the remote service has deleted the message.
    pub fn on_deleted(self) -> (step: DelStep)
        requires
            self.inv(),
        ensures
            step.inv(),
            step.follows(self@.advance()),
    {
        let Removal { path, chunks, position } = self;
        Self::next_message(path, chunks, position + 1)
    }
}

impl Removed {
    /// Takes the entry out of `index` and out of its parent's children.
    /// `NotFound`, and the index as it was, where the entry or its parent
    /// directory is missing.
    pub fn commit(self, index: &mut Files) -> (r: Result<(), StorageError>)
        requires
            old(index).wf(),
        ensures
            final(index).wf(),
            self@.complete(),
            match old(index)@.del(self@.path) {
                Ok(v) => r is Ok && final(index)@ == v,
                Err(e) => r == Err::<(), StorageError>(e) && final(index)@ == old(index)@,
            },
            old(index)@.closed() && !old(index)@.files[self@.path].is_dir ==> final(index)@.closed(),
            old(index)@.consistent() && !old(index)@.files[self@.path].is_dir
                ==> final(index)@.consistent(),
    {
        index.del(self.path.as_str())
    }
}

} // verus!
