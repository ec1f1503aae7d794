use crate::discord::datatypes::message::{Message, MessageView};
use crate::error::StorageError;
use vstd::prelude::*;

verus! {

/// Name of the form part that carries the text of a message.
pub const CONTENT_PART: &'static str = "content";

/// Name of the form part that carries the attached bytes, and the file
/// name given to them.
pub const FILE_PART: &'static str = "file";

/// Name of the form part that carries the message as a JSON document.
pub const PAYLOAD_PART: &'static str = "payload_json";

/// Name of the header that carries the credential.
pub const AUTHORIZATION_HEADER: &'static str = "Authorization";

/// What an HTTP request asks for.
#[derive(Clone, Copy, Debug, PartialEq, Eq, Structural)]
pub enum Method {
    Get,
    Post,
    Delete,
}

/// The parts of a multipart form that creates a message.
#[derive(Debug)]
pub struct Form {
    /// The text part `content`.
    pub content: String,
    /// The binary part `file`, sent under the file name `file`.
    pub file: Option<Vec<u8>>,
    /// The message that the text part `payload_json` holds as JSON.
    pub payload: Message,
}

/// What [`Form`] stands for.
pub struct FormView {
    pub content: Seq<char>,
    pub file: Option<Seq<u8>>,
    pub payload: MessageView,
}

impl View for Form {
    type V = FormView;

    open spec fn view(&self) -> FormView {
        FormView {
            content: self.content@,
            file: match self.file {
                Some(bytes) => Some(bytes@),
                None => None,
            },
            payload: self.payload@,
        }
    }
}

/// One HTTP request to the remote service, ready to be sent.
#[derive(Debug)]
pub struct Request {
    pub method: Method,
    pub url: String,
    /// The value of the `Authorization` header; none for a request that
    /// goes out without a credential.
    pub authorization: Option<String>,
    /// The multipart body; none for a request without one.
    pub form: Option<Form>,
}

/// What [`Request`] stands for.
pub struct RequestView {
    pub method: Method,
    pub url: Seq<char>,
    pub authorization: Option<Seq<char>>,
    pub form: Option<FormView>,
}

impl View for Request {
    type V = RequestView;

    open spec fn view(&self) -> RequestView {
        RequestView {
            method: self.method,
            url: self.url@,
            authorization: match self.authorization {
                Some(value) => Some(value@),
                None => None,
            },
            form: match self.form {
                Some(form) => Some(form@),
                None => None,
            },
        }
    }
}

/// What the remote service answered to a request.
#[derive(Debug)]
pub struct Response {
    /// The status code of the answer.
    pub status: u16,
    pub body: Vec<u8>,
}

/// Whether `status` reports a failure: a client error or a server error.
pub open spec fn refused(status: u16) -> bool {
    400 <= status <= 599
}

/// Whether `status` reports that what was asked for does not exist, or
/// exists no longer.
pub open spec fn already_gone(status: u16) -> bool {
    status == 404 || status == 410
}

/// What a request brought: the body of an answer that reports no failure.
/// An answer that reports one is a `TransportFailure`; the failure to get
/// an answer is passed on.
pub open spec fn body_of(outcome: Result<Response, StorageError>) -> Result<Seq<u8>, StorageError> {
    match outcome {
        Ok(response) => if refused(response.status) {
            Err(StorageError::TransportFailure)
        } else {
            Ok(response.body@)
        },
        Err(e) => Err(e),
    }
}

/// Whether a request to delete has done its work: the answer reports no
/// failure, or reports that there was nothing left to delete. Any other
/// answer is a `TransportFailure`; the failure to get an answer is passed
/// on.
pub open spec fn removal_of(outcome: Result<Response, StorageError>) -> Result<(), StorageError> {
    match outcome {
        Ok(response) => if refused(response.status) && !already_gone(response.status) {
            Err(StorageError::TransportFailure)
        } else {
            Ok(())
        },
        Err(e) => Err(e),
    }
}

impl Response {
    /// Whether the answer reports a failure.
    pub fn is_refused(&self) -> (r: bool)
        ensures
            r == refused(self.status),
    {
        400 <= self.status && self.status <= 599
    }

    /// Whether the answer reports that what was asked for does not exist,
    /// or exists no longer.
    pub fn is_already_gone(&self) -> (r: bool)
        ensures
            r == already_gone(self.status),
    {
        self.status == 404 || self.status == 410
    }

    /// The bytes that a request brought.
    pub fn received(outcome: Result<Response, StorageError>) -> (r: Result<Vec<u8>, StorageError>)
        ensures
            match body_of(outcome) {
                Ok(body) => r matches Ok(bytes) && bytes@ == body,
                Err(e) => r matches Err(f) && f == e,
            },
    {
        match outcome {
            Ok(response) => {
                if response.is_refused() {
                    Err(StorageError::TransportFailure)
                } else {
                    Ok(response.body)
                }
            },
            Err(e) => Err(e),
        }
    }

    /// Whether a request to delete has done its work.
    pub fn removed(outcome: Result<Response, StorageError>) -> (r: Result<(), StorageError>)
        ensures
            r == removal_of(outcome),
    {
        match outcome {
            Ok(response) => {
                if response.is_refused() && !response.is_already_gone() {
                    Err(StorageError::TransportFailure)
                } else {
                    Ok(())
                }
            },
            Err(e) => Err(e),
        }
    }
}

impl RequestView {
    /// A request for `url` that carries neither credential nor body.
    pub open spec fn plain(url: Seq<char>) -> RequestView {
        RequestView { method: Method::Get, url, authorization: None, form: None }
    }
}

impl Request {
    /// A request for `url` that carries neither credential nor body.
    pub fn plain(url: &str) -> (r: Request)
        ensures
            r@ == RequestView::plain(url@),
    {
        Request { method: Method::Get, url: String::from_str(url), authorization: None, form: None }
    }
}

} // verus!
