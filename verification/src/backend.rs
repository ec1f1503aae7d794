use crate::discord::bot::Bot;
use crate::discord::datatypes::message::Message;
use crate::discord::fetch::AttachmentFetch;
use crate::discord::request::{removal_of, Request, RequestView, Response};
use crate::error::StorageError;
use crate::ftp::download::{Download, DownloadView, GetStep};
use crate::ftp::index::{fileinfo_views, Fileinfo, Files};
use crate::ftp::metadata::{Meta, MetaView, Timestamp};
use crate::ftp::model::PathView;
use crate::ftp::removal::{DelStep, Removal, RemovalView};
use crate::ftp::upload::{Pending, PutStep, Upload, UploadView};
use crate::{BUFFER_CAPACITY, CHUNK_CEILING};
use vstd::prelude::*;

verus! {

/// The storage that a file server sees: a virtual file system whose files
/// are kept as attachments on one channel of the remote service.
#[derive(Debug)]
pub struct DiscordBackend {
    client: Bot,
    ceiling: usize,
    capacity: usize,
}

impl DiscordBackend {
    /// The account that the storage works with.
    pub closed spec fn bot(&self) -> Bot {
        self.client
    }

    /// The most bytes that one chunk of a stored file holds.
    pub closed spec fn ceiling(&self) -> nat {
        self.ceiling as nat
    }

    /// The most bytes that one read of a stream asks for.
    pub closed spec fn capacity(&self) -> nat {
        self.capacity as nat
    }

    /// A storage that works with the account `client`, keeps files in
    /// chunks of at most [`CHUNK_CEILING`] bytes and reads streams
    /// [`BUFFER_CAPACITY`] bytes at a time.
    pub fn new(client: Bot) -> (r: DiscordBackend)
        ensures
            r.bot() == client,
            r.ceiling() == CHUNK_CEILING,
            r.capacity() == BUFFER_CAPACITY,
    {
        DiscordBackend { client, ceiling: CHUNK_CEILING, capacity: BUFFER_CAPACITY }
    }

    /// A storage that works with the account `client`, keeps files in
    /// chunks of at most `ceiling` bytes and reads streams `capacity`
    /// bytes at a time.
    pub fn with_limits(client: Bot, ceiling: usize, capacity: usize) -> (r: DiscordBackend)
        ensures
            r.bot() == client,
            r.ceiling() == ceiling,
            r.capacity() == capacity,
    {
        DiscordBackend { client, ceiling, capacity }
    }

    /// The account that the storage works with.
    pub fn client(&self) -> (r: &Bot)
        ensures
            *r == self.bot(),
    {
        &self.client
    }

    /// The request that stores the chunk of `pending`: a message without
    /// text that carries the chunk as its file and answers no other
    /// message.
    pub fn handle_file(&self, pending: &Pending) -> (r: Request)
        requires
            pending.inv(),
        ensures
            r@ == self.bot().send_message_of(Seq::empty(), Some(pending@.payloads.last()), None),
    {
        proof {
            reveal_strlit("");
        }
        assert(""@ =~= Seq::<char>::empty());
        let data = pending.payload().clone();
        self.client.send_message("", Some(data), None)
    }

    /// Takes the answer to the request that stored the chunk of `pending`.
    /// Where the message that came back has an identifier and an
    /// attachment, the chunk is confirmed under these and the upload goes
    /// on. A message without them is a `DecodingFailure`; a failure is
    /// passed on.
    pub fn handle_reply(&self, pending: Pending, reply: Result<Message, StorageError>) -> (r:
        Result<PutStep, StorageError>)
        requires
            pending.inv(),
        ensures
            match reply {
                Ok(message) => match message@.receipt() {
                    Some(pair) => r matches Ok(step) && step.inv() && step is Read && step.follows(
                        pending@.acknowledge(pair.0, pair.1),
                    ),
                    None => r matches Err(e) && e == StorageError::DecodingFailure,
                },
                Err(e) => r matches Err(f) && f == e,
            },
    {
        match reply {
            Ok(message) => match message.receipt() {
                Some(pair) => Ok(pending.on_uploaded(pair.0, pair.1)),
                None => Err(StorageError::DecodingFailure),
            },
            Err(e) => Err(e),
        }
    }

    /// Begins to fetch the chunk that `download` is waiting for.
    pub fn fetch_chunk(&self, download: &Download) -> (r: (AttachmentFetch, Request))
        requires
            download.inv(),
        ensures
            r.0.message_id() == download@.chunks[download@.fetched.len() as int].0,
            r.1@ == RequestView::plain(download@.chunks[download@.fetched.len() as int].1),
    {
        self.client.download_attachment(download.url(), download.message_id())
    }

    /// The request that deletes the message that `removal` is waiting for.
    pub fn delete_chunk(&self, removal: &Removal) -> (r: Request)
        requires
            removal.inv(),
        ensures
            r@ == self.bot().delete_message_of(removal@.chunks[removal@.deleted as int].0),
    {
        self.client.delete_message(removal.message_id().as_str())
    }

    /// Takes the outcome of the request that was to delete the message
    /// that `removal` is waiting for. Where the message is deleted, or was
    /// gone before, the removal goes on; a failure ends it.
    pub fn handle_deleted(&self, removal: Removal, outcome: Result<Response, StorageError>) -> (r:
        Result<DelStep, StorageError>)
        requires
            removal.inv(),
        ensures
            match removal_of(outcome) {
                Ok(_) => r matches Ok(step) && step.inv() && step.follows(removal@.advance()),
                Err(e) => r matches Err(f) && f == e,
            },
    {
        match Response::removed(outcome) {
            Ok(()) => Ok(removal.on_deleted()),
            Err(e) => Err(e),
        }
    }

    /// The attributes of the entry at `path`; `NotFound` where there is none.
    pub fn metadata(&self, index: &Files, path: &str) -> (r: Result<Meta, StorageError>)
        requires
            index.wf(),
        ensures
            match r {
                Ok(m) => index@.metadata(path@) == Ok::<MetaView, StorageError>(m@),
                Err(e) => index@.metadata(path@) == Err::<MetaView, StorageError>(e),
            },
    {
        index.metadata(path)
    }

    /// The children of the directory at `path` with their attributes, in
    /// the order in which they were added. `NotFound` where `path` is no
    /// directory.
    pub fn list(&self, index: &Files, path: &str) -> (r: Result<Vec<Fileinfo>, StorageError>)
        requires
            index.wf(),
        ensures
            match r {
                Ok(l) => index@.list(path@) == Ok::<Seq<(PathView, MetaView)>, StorageError>(
                    fileinfo_views(l@),
                ),
                Err(e) => index@.list(path@) == Err::<Seq<(PathView, MetaView)>, StorageError>(e),
            },
    {
        index.list(path)
    }

    /// Begins to fetch the content of the file at `path` from its first
    /// byte. `NotImplemented` for any other `start_pos`, `NotFound` where
    /// there is no entry. A file without chunks is done at once.
    pub fn get(&self, index: &Files, path: &str, start_pos: u64) -> (r: Result<
        GetStep,
        StorageError,
    >)
        requires
            index.wf(),
        ensures
            if start_pos != 0 {
                r matches Err(e) && e == StorageError::NotImplemented
            } else {
                match index@.metadata(path@) {
                    Ok(m) => r matches Ok(step) && step.inv() && step.follows(
                        DownloadView::start(m.chunks),
                    ),
                    Err(e) => r matches Err(f) && f == e,
                }
            },
    {
        if start_pos != 0 {
            return Err(StorageError::NotImplemented);
        }
        match index.metadata(path) {
            Ok(meta) => Ok(Download::begin(&meta)),
            Err(e) => Err(e),
        }
    }

    /// Begins to store a file at `path` from its first byte, to be changed
    /// last at `now`. `NotImplemented` for any other `start_pos`,
    /// `NotFound` where the parent directory is missing.
    pub fn put(&self, index: &Files, path: &str, start_pos: u64, now: Timestamp) -> (r: Result<
        PutStep,
        StorageError,
    >)
        requires
            index.wf(),
        ensures
            if start_pos != 0 {
                r matches Err(e) && e == StorageError::NotImplemented
            } else if index@.home_of(path@) is None {
                r matches Err(e) && e == StorageError::NotFound
            } else {
                r matches Ok(step) && step.inv() && step.follows(
                    UploadView::start(path@, now, self.ceiling(), self.capacity()),
                )
            },
    {
        if start_pos != 0 {
            return Err(StorageError::NotImplemented);
        }
        match index.home_of(path) {
            Some(_) => Ok(Upload::begin(path, now, self.ceiling, self.capacity)),
            None => Err(StorageError::NotFound),
        }
    }

    /// Begins to delete the entry at `path`: the messages of its chunks go
    /// first, in the order of the chunks. `NotFound` where the entry or its
    /// parent directory is missing.
    pub fn del(&self, index: &Files, path: &str) -> (r: Result<DelStep, StorageError>)
        requires
            index.wf(),
        ensures
            match index@.del(path@) {
                Ok(_) => r matches Ok(step) && step.inv() && step.follows(
                    RemovalView::start(path@, index@.files[path@].chunks),
                ),
                Err(e) => r matches Err(f) && f == e,
            },
    {
        let meta = match index.metadata(path) {
            Ok(meta) => meta,
            Err(e) => {
                return Err(e);
            },
        };
        match index.home_of(path) {
            Some(_) => Ok(Removal::begin(path, &meta)),
            None => Err(StorageError::NotFound),
        }
    }

    /// Makes a directory at `path`, made at `now`. `AlreadyExists` where an
    /// entry stands at `path`, `NotFound` where the parent directory is
    /// missing; the index is then as it was.
    pub fn mkd(&self, index: &mut Files, path: &str, now: Timestamp) -> (r: Result<
        (),
        StorageError,
    >)
        requires
            old(index).wf(),
        ensures
            final(index).wf(),
            match old(index)@.mkd(path@, now) {
                Ok(v) => r is Ok && final(index)@ == v,
                Err(e) => r == Err::<(), StorageError>(e) && final(index)@ == old(index)@,
            },
            old(index)@.closed() ==> final(index)@.closed(),
            old(index)@.consistent() ==> final(index)@.consistent(),
    {
        index.mkd(path, now)
    }

    /// Moves the file at `from` to `to`. `NotImplemented` for a directory,
    /// `NotFound` where the entry or one of the two parent directories is
    /// missing; the index is then as it was.
    pub fn rename(&self, index: &mut Files, from: &str, to: &str) -> (r: Result<(), StorageError>)
        requires
            old(index).wf(),
        ensures
            final(index).wf(),
            match old(index)@.rename(from@, to@) {
                Ok(v) => r is Ok && final(index)@ == v,
                Err(e) => r == Err::<(), StorageError>(e) && final(index)@ == old(index)@,
            },
            old(index)@.closed() && (!old(index)@.files.contains_key(to@) || to@ == from@)
                ==> final(index)@.closed(),
            old(index)@.consistent() && (!old(index)@.files.contains_key(to@) || to@ == from@)
                ==> final(index)@.consistent(),
    {
        index.rename(from, to)
    }

    /// Removes the directory at `path`. `DirectoryNotEmpty` where it still
    /// lists children, `NotFound` where the entry or its parent directory
    /// is missing; the index is then as it was.
    pub fn rmd(&self, index: &mut Files, path: &str) -> (r: Result<(), StorageError>)
        requires
            old(index).wf(),
        ensures
            final(index).wf(),
            match old(index)@.rmd(path@) {
                Ok(v) => r is Ok && final(index)@ == v,
                Err(e) => r == Err::<(), StorageError>(e) && final(index)@ == old(index)@,
            },
            old(index)@.closed() ==> final(index)@.closed(),
            old(index)@.consistent() ==> final(index)@.consistent(),
    {
        index.rmd(path)
    }

    /// Changes the working directory: nothing to do, whatever `path` is.
    pub fn cwd(&self, path: &str) -> (r: Result<(), StorageError>)
        ensures
            r is Ok,
    {
        Ok(())
    }
}

} // verus!
