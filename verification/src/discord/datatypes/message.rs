use crate::discord::datatypes::attachment::{Attachment, AttachmentView};
use vstd::prelude::*;

verus! {

/// The message that another message answers.
#[derive(Debug)]
pub struct MessageReference {
    pub message_id: String,
}

/// A message of the remote service, as it is sent and as it comes back.
#[derive(Debug)]
pub struct Message {
    /// The identifier that the service gave the message; none before it
    /// is sent.
    pub id: Option<String>,
    pub content: String,
    pub channel_id: String,
    pub attachments: Vec<Attachment>,
    pub message_reference: Option<MessageReference>,
}

/// What [`Message`] stands for.
pub struct MessageView {
    pub id: Option<Seq<char>>,
    pub content: Seq<char>,
    pub channel_id: Seq<char>,
    pub attachments: Seq<AttachmentView>,
    /// The identifier of the message that this one answers.
    pub message_reference: Option<Seq<char>>,
}

impl View for Message {
    type V = MessageView;

    open spec fn view(&self) -> MessageView {
        MessageView {
            id: match self.id {
                Some(id) => Some(id@),
                None => None,
            },
            content: self.content@,
            channel_id: self.channel_id@,
            attachments: self.attachments.deep_view(),
            message_reference: match self.message_reference {
                Some(reference) => Some(reference.message_id@),
                None => None,
            },
        }
    }
}

impl MessageView {
    /// A message that is yet to be sent: no identifier, no attachments.
    pub open spec fn outgoing(
        content: Seq<char>,
        channel_id: Seq<char>,
        reply: Option<Seq<char>>,
    ) -> MessageView {
        MessageView {
            id: None,
            content,
            channel_id,
            attachments: Seq::empty(),
            message_reference: reply,
        }
    }

    /// The identifier of the message and the address of its first
    /// attachment, where it has both.
    pub open spec fn receipt(self) -> Option<(Seq<char>, Seq<char>)> {
        if self.id is Some && self.attachments.len() > 0 {
            Some((self.id->0, self.attachments[0].url))
        } else {
            None
        }
    }

    /// The address of the first attachment, where there is one.
    pub open spec fn first_url(self) -> Option<Seq<char>> {
        if self.attachments.len() > 0 {
            Some(self.attachments[0].url)
        } else {
            None
        }
    }
}

impl Message {
    /// A message for the channel `channel_id` that is yet to be sent, in
    /// answer to `reply` where that is given.
    pub fn outgoing(content: &str, channel_id: String, reply: Option<String>) -> (r: Message)
        ensures
            r@ == MessageView::outgoing(
                content@,
                channel_id@,
                match reply {
                    Some(id) => Some(id@),
                    None => None,
                },
            ),
    {
        let r = Message {
            id: None,
            content: String::from_str(content),
            channel_id,
            attachments: Vec::new(),
            message_reference: match reply {
                Some(id) => Some(MessageReference { message_id: id }),
                None => None,
            },
        };
        assert(r.attachments.deep_view() =~= Seq::empty());
        r
    }

    /// The address of the first attachment, where there is one.
    pub fn first_url(&self) -> (r: Option<String>)
        ensures
            match r {
                Some(url) => self@.first_url() == Some(url@),
                None => self@.first_url() is None,
            },
    {
        if self.attachments.len() > 0 {
            Some(self.attachments[0].url.clone())
        } else {
            None
        }
    }

    /// The identifier of the message and the address of its first
    /// attachment, where it has both.
    pub fn receipt(&self) -> (r: Option<(String, String)>)
        ensures
            match r {
                Some(pair) => self@.receipt() == Some((pair.0@, pair.1@)),
                None => self@.receipt() is None,
            },
    {
        match &self.id {
            Some(id) => {
                if self.attachments.len() > 0 {
                    Some((id.clone(), self.attachments[0].url.clone()))
                } else {
                    None
                }
            },
            None => None,
        }
    }
}

} // verus!
