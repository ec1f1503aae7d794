use crate::discord::bot::Bot;
use crate::discord::datatypes::message::Message;
use crate::discord::request::{body_of, Request, RequestView, Response};
use crate::error::StorageError;
use vstd::prelude::*;
use vstd::string::StringSliceAdditionalSpecFns;

verus! {

/// What the remote service answers in place of an attachment whose
/// address has expired.
pub const EXPIRED_NOTICE: &'static str = "This content is no longer available.";

/// The bytes of [`EXPIRED_NOTICE`].
pub open spec fn expired_body() -> Seq<u8> {
    EXPIRED_NOTICE.spec_bytes()
}

/// Whether `body` is the notice that stands in for an expired attachment.
pub fn is_expired(body: &[u8]) -> (r: bool)
    ensures
        r == (body@ == expired_body()),
{
    let notice = EXPIRED_NOTICE.as_bytes();
    if body.len() != notice.len() {
        return false;
    }
    let mut i: usize = 0;
    while i < body.len()
        invariant
            i <= body.len(),
            body.len() == notice.len(),
            notice@ == expired_body(),
            forall|j: int| 0 <= j < i ==> body@[j] == notice@[j],
        decreases body.len() - i,
    {
        if body[i] != notice[i] {
            return false;
        }
        i = i + 1;
    }
    assert(body@ =~= notice@);
    true
}

/// A fetch that is waiting for the answer to its first request.
pub struct AttachmentFetch {
    message_id: String,
}

/// A fetch that is waiting for the message that owns the attachment.
pub struct Refresh {}

/// What is to be done next for a fetch whose first request was answered.
pub enum FirstStep {
    /// The bytes are those of the attachment.
    Done(Vec<u8>),
    /// The address has expired or failed: send the request, which asks for
    /// the message that owns the attachment, and hand in what comes back.
    Resolve(Refresh, Request),
}

impl AttachmentFetch {
    /// The message that owns the attachment.
    pub closed spec fn message_id(&self) -> Seq<char> {
        self.message_id@
    }

    /// A fetch of an attachment of the message `message_id`.
    pub fn new(message_id: &str) -> (r: AttachmentFetch)
        ensures
            r.message_id() == message_id@,
    {
        AttachmentFetch { message_id: String::from_str(message_id) }
    }

    /// Takes the outcome of the first request. Bytes that are not the
    /// notice of an expired address are the attachment. Otherwise, and
    /// where the request failed, the address is asked anew from the
    /// message that owns the attachment.
    pub fn on_body(self, bot: &Bot, outcome: Result<Response, StorageError>) -> (step: FirstStep)
        ensures
            match body_of(outcome) {
                Ok(body) if body != expired_body() => step matches FirstStep::Done(bytes)
                    && bytes@ == body,
                _ => step matches FirstStep::Resolve(_, request) && request@
                    == bot.fetch_message_of(self.message_id()),
            },
    {
        match Response::received(outcome) {
            Ok(body) => {
                if is_expired(body.as_slice()) {
                    FirstStep::Resolve(Refresh {  }, bot.fetch_message(self.message_id.as_str()))
                } else {
                    FirstStep::Done(body)
                }
            },
            Err(_) => FirstStep::Resolve(Refresh {  }, bot.fetch_message(self.message_id.as_str())),
        }
    }
}

impl Refresh {
    /// Takes the message that owns the attachment, or the failure to get
    /// it, and returns the second request: a plain one for the address of
    /// the message's first attachment. What that request brings, as
    /// [`Response::received`] reads it, is the outcome of the fetch. A
    /// message without attachment is a `DecodingFailure`; a failure is
    /// passed on.
    pub fn on_message(self, outcome: Result<Message, StorageError>) -> (r: Result<
        Request,
        StorageError,
    >)
        ensures
            match outcome {
                Ok(message) => match message@.first_url() {
                    Some(url) => r matches Ok(request) && request@ == RequestView::plain(url),
                    None => r matches Err(e) && e == StorageError::DecodingFailure,
                },
                Err(e) => r matches Err(f) && f == e,
            },
    {
        match outcome {
            Ok(message) => match message.first_url() {
                Some(url) => Ok(Request::plain(url.as_str())),
                None => Err(StorageError::DecodingFailure),
            },
            Err(e) => Err(e),
        }
    }
}

} // verus!
