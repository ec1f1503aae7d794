use crate::discord::request::{Request, RequestView};
use vstd::prelude::*;

verus! {

/// A file attached to a message of the remote service.
#[derive(Debug)]
pub struct Attachment {
    pub id: String,
    pub filename: String,
    pub size: u64,
    /// Where the bytes can be fetched. The address may expire.
    pub url: String,
}

/// What [`Attachment`] stands for.
pub struct AttachmentView {
    pub id: Seq<char>,
    pub filename: Seq<char>,
    pub size: u64,
    pub url: Seq<char>,
}

impl View for Attachment {
    type V = AttachmentView;

    open spec fn view(&self) -> AttachmentView {
        AttachmentView {
            id: self.id@,
            filename: self.filename@,
            size: self.size,
            url: self.url@,
        }
    }
}

impl DeepView for Attachment {
    type V = AttachmentView;

    open spec fn deep_view(&self) -> AttachmentView {
        self@
    }
}

impl Attachment {
    /// The request that fetches the attached bytes: a plain one for the
    /// attachment's address.
    pub fn download(&self) -> (r: Request)
        ensures
            r@ == RequestView::plain(self@.url),
    {
        Request::plain(self.url.as_str())
    }
}

} // verus!
