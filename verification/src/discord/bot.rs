use crate::discord::datatypes::message::{Message, MessageView};
use crate::discord::fetch::AttachmentFetch;
use crate::discord::request::{Form, FormView, Method, Request, RequestView};
use vstd::prelude::*;

verus! {

/// The decimal digit for `d`.
pub open spec fn digit_of(d: nat) -> char {
    if d == 0 {
        '0'
    } else if d == 1 {
        '1'
    } else if d == 2 {
        '2'
    } else if d == 3 {
        '3'
    } else if d == 4 {
        '4'
    } else if d == 5 {
        '5'
    } else if d == 6 {
        '6'
    } else if d == 7 {
        '7'
    } else if d == 8 {
        '8'
    } else {
        '9'
    }
}

/// `n` written in decimal digits, without leading zeros.
pub open spec fn decimal_of(n: nat) -> Seq<char>
    decreases n,
{
    if n < 10 {
        seq![digit_of(n)]
    } else {
        decimal_of(n / 10).push(digit_of(n % 10))
    }
}

/// The address under which the messages of channel `channel_id` are
/// created.
pub open spec fn messages_url_of(channel_id: u64) -> Seq<char> {
    "https://discord.com/api/v10/channels/"@ + decimal_of(channel_id as nat) + "/messages"@
}

/// The address of the message `message_id` of channel `channel_id`.
pub open spec fn message_url_of(channel_id: u64, message_id: Seq<char>) -> Seq<char> {
    messages_url_of(channel_id) + "/"@ + message_id
}

/// The value of the `Authorization` header for the credential `token`.
pub open spec fn authorization_of(token: Seq<char>) -> Seq<char> {
    "Bot "@ + token
}

/// The digit `d` as a string of one character.
fn digit(d: u64) -> (r: &'static str)
    requires
        d < 10,
    ensures
        r@ == seq![digit_of(d as nat)],
{
    proof {
        reveal_strlit("0");
        reveal_strlit("1");
        reveal_strlit("2");
        reveal_strlit("3");
        reveal_strlit("4");
        reveal_strlit("5");
        reveal_strlit("6");
        reveal_strlit("7");
        reveal_strlit("8");
        reveal_strlit("9");
    }
    let r = if d == 0 {
        "0"
    } else if d == 1 {
        "1"
    } else if d == 2 {
        "2"
    } else if d == 3 {
        "3"
    } else if d == 4 {
        "4"
    } else if d == 5 {
        "5"
    } else if d == 6 {
        "6"
    } else if d == 7 {
        "7"
    } else if d == 8 {
        "8"
    } else {
        "9"
    };
    r
}

/// `n` written in decimal digits, without leading zeros.
pub fn decimal(n: u64) -> (r: String)
    ensures
        r@ == decimal_of(n as nat),
    decreases n,
{
    if n < 10 {
        String::from_str(digit(n))
    } else {
        let mut r = decimal(n / 10);
        r.append(digit(n % 10));
        r
    }
}

/// The account that speaks to the remote service for one channel.
#[derive(Debug)]
pub struct Bot {
    token: String,
    channel_id: u64,
}

impl Bot {
    /// The credential of the account.
    pub closed spec fn token(&self) -> Seq<char> {
        self.token@
    }

    /// The channel that holds the messages.
    pub closed spec fn channel(&self) -> u64 {
        self.channel_id
    }

    /// An account with the credential `token` that works on the channel
    /// `channel_id`.
    pub fn new(token: String, channel_id: u64) -> (r: Bot)
        ensures
            r.token() == token@,
            r.channel() == channel_id,
    {
        Bot { token, channel_id }
    }

    /// The channel that holds the messages.
    pub fn channel_id(&self) -> (r: u64)
        ensures
            r == self.channel(),
    {
        self.channel_id
    }

    /// The address under which messages are created.
    pub fn messages_url(&self) -> (r: String)
        ensures
            r@ == messages_url_of(self.channel()),
    {
        let mut r = String::from_str("https://discord.com/api/v10/channels/");
        r.append(decimal(self.channel_id).as_str());
        r.append("/messages");
        r
    }

    /// The address of the message `message_id`.
    pub fn message_url(&self, message_id: &str) -> (r: String)
        ensures
            r@ == message_url_of(self.channel(), message_id@),
    {
        let mut r = self.messages_url();
        r.append("/");
        r.append(message_id);
        r
    }

    /// The value of the `Authorization` header.
    pub fn authorization(&self) -> (r: String)
        ensures
            r@ == authorization_of(self.token()),
    {
        let mut r = String::from_str("Bot ");
        r.append(self.token.as_str());
        r
    }

    /// What [`Bot::send_message`] returns.
    pub open spec fn send_message_of(
        &self,
        content: Seq<char>,
        attachment: Option<Seq<u8>>,
        reply: Option<Seq<char>>,
    ) -> RequestView {
        RequestView {
            method: Method::Post,
            url: messages_url_of(self.channel()),
            authorization: Some(authorization_of(self.token())),
            form: Some(
                FormView {
                    content,
                    file: attachment,
                    payload: MessageView::outgoing(
                        content,
                        decimal_of(self.channel() as nat),
                        reply,
                    ),
                },
            ),
        }
    }

    /// The request that creates a message with the text `content`, the
    /// bytes `attachment` as its file, in answer to `reply` where that is
    /// given.
    pub fn send_message(&self, content: &str, attachment: Option<Vec<u8>>, reply: Option<String>) -> (r:
        Request)
        ensures
            r@ == self.send_message_of(
                content@,
                match attachment {
                    Some(bytes) => Some(bytes@),
                    None => None,
                },
                match reply {
                    Some(id) => Some(id@),
                    None => None,
                },
            ),
    {
        let payload = Message::outgoing(content, decimal(self.channel_id), reply);
        Request {
            method: Method::Post,
            url: self.messages_url(),
            authorization: Some(self.authorization()),
            form: Some(Form { content: String::from_str(content), file: attachment, payload }),
        }
    }

    /// What [`Bot::delete_message`] returns.
    pub open spec fn delete_message_of(&self, message_id: Seq<char>) -> RequestView {
        RequestView {
            method: Method::Delete,
            url: message_url_of(self.channel(), message_id),
            authorization: Some(authorization_of(self.token())),
            form: None,
        }
    }

    /// The request that deletes the message `message_id`.
    pub fn delete_message(&self, message_id: &str) -> (r: Request)
        ensures
            r@ == self.delete_message_of(message_id@),
    {
        Request {
            method: Method::Delete,
            url: self.message_url(message_id),
            authorization: Some(self.authorization()),
            form: None,
        }
    }

    /// What [`Bot::fetch_message`] returns.
    pub open spec fn fetch_message_of(&self, message_id: Seq<char>) -> RequestView {
        RequestView {
            method: Method::Get,
            url: message_url_of(self.channel(), message_id),
            authorization: Some(authorization_of(self.token())),
            form: None,
        }
    }

    /// The request that fetches the message `message_id`.
    pub fn fetch_message(&self, message_id: &str) -> (r: Request)
        ensures
            r@ == self.fetch_message_of(message_id@),
    {
        Request {
            method: Method::Get,
            url: self.message_url(message_id),
            authorization: Some(self.authorization()),
            form: None,
        }
    }

    /// Begins to fetch the attachment at `url` of the message
    /// `message_id`: the first request is a plain one for `url`.
    pub fn download_attachment(&self, url: &String, message_id: &String) -> (r: (
        AttachmentFetch,
        Request,
    ))
        ensures
            r.0.message_id() == message_id@,
            r.1@ == RequestView::plain(url@),
    {
        (AttachmentFetch::new(message_id.as_str()), Request::plain(url.as_str()))
    }
}

} // verus!
