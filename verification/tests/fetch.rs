use discord_ftp::discord::bot::Bot;
use discord_ftp::discord::datatypes::attachment::Attachment;
use discord_ftp::discord::datatypes::message::Message;
use discord_ftp::discord::fetch::{is_expired, AttachmentFetch, FirstStep, EXPIRED_NOTICE};
use discord_ftp::discord::request::{Method, Response};
use discord_ftp::error::StorageError;

fn bot() -> Bot {
    Bot::new(String::from("secret"), 42)
}

fn ok(body: &[u8]) -> Result<Response, StorageError> {
    Ok(Response { status: 200, body: body.to_vec() })
}

fn message(urls: &[&str]) -> Message {
    Message {
        id: Some(String::from("5")),
        content: String::new(),
        channel_id: String::from("42"),
        attachments: urls
            .iter()
            .map(|u| Attachment {
                id: String::from("1"),
                filename: String::from("file"),
                size: 1,
                url: String::from(*u),
            })
            .collect(),
        message_reference: None,
    }
}

#[test]
fn the_notice_is_recognised_byte_for_byte() {
    assert_eq!(EXPIRED_NOTICE, "This content is no longer available.");
    assert!(is_expired(b"This content is no longer available."));
    assert!(!is_expired(b"This content is no longer available"));
    assert!(!is_expired(b"This content is no longer available.\n"));
    assert!(!is_expired(b"this content is no longer available."));
    assert!(!is_expired(b""));
    assert!(!is_expired(b"hi\n"));
}

#[test]
fn bytes_that_are_not_the_notice_are_the_attachment() {
    let fetch = AttachmentFetch::new("5");
    match fetch.on_body(&bot(), ok(&[1, 2, 3])) {
        FirstStep::Done(bytes) => assert_eq!(bytes, vec![1, 2, 3]),
        FirstStep::Resolve(_, _) => panic!("asked for the message"),
    }
    let fetch = AttachmentFetch::new("5");
    match fetch.on_body(&bot(), ok(&[])) {
        FirstStep::Done(bytes) => assert!(bytes.is_empty()),
        FirstStep::Resolve(_, _) => panic!("asked for the message"),
    }
}

#[test]
fn expired_url_recovery() {
    let fetch = AttachmentFetch::new("5");
    let step = fetch.on_body(&bot(), ok(EXPIRED_NOTICE.as_bytes()));
    let (refresh, request) = match step {
        FirstStep::Resolve(refresh, request) => (refresh, request),
        FirstStep::Done(_) => panic!("took the notice for the attachment"),
    };
    assert_eq!(request.method, Method::Get);
    assert_eq!(request.url, "https://discord.com/api/v10/channels/42/messages/5");
    assert_eq!(request.authorization.as_deref(), Some("Bot secret"));
    assert!(request.form.is_none());
    let second = refresh
        .on_message(Ok(message(&["https://cdn.example/new", "https://cdn.example/other"])))
        .unwrap();
    assert_eq!(second.method, Method::Get);
    assert_eq!(second.url, "https://cdn.example/new");
    assert_eq!(second.authorization, None);
    assert!(second.form.is_none());
}

#[test]
fn a_failed_first_request_asks_for_the_message_too() {
    let outcomes = [
        Err(StorageError::TransportFailure),
        Ok(Response { status: 404, body: b"gone".to_vec() }),
        Ok(Response { status: 404, body: EXPIRED_NOTICE.as_bytes().to_vec() }),
        Ok(Response { status: 400, body: Vec::new() }),
        Ok(Response { status: 500, body: b"data".to_vec() }),
        Ok(Response { status: 599, body: b"data".to_vec() }),
    ];
    for outcome in outcomes {
        let fetch = AttachmentFetch::new("8");
        match fetch.on_body(&bot(), outcome) {
            FirstStep::Resolve(_, request) => {
                assert_eq!(request.method, Method::Get);
                assert_eq!(request.url, "https://discord.com/api/v10/channels/42/messages/8");
                assert_eq!(request.authorization.as_deref(), Some("Bot secret"));
            }
            FirstStep::Done(_) => panic!("a failure is no attachment"),
        }
    }
}

#[test]
fn an_answer_below_the_client_errors_is_no_failure() {
    for status in [200u16, 204, 206, 304, 399, 600] {
        let fetch = AttachmentFetch::new("8");
        match fetch.on_body(&bot(), Ok(Response { status, body: vec![5] })) {
            FirstStep::Done(bytes) => assert_eq!(bytes, vec![5]),
            FirstStep::Resolve(_, _) => panic!("asked for the message"),
        }
    }
}

#[test]
fn received_is_the_body_of_an_answer_that_is_no_failure() {
    assert_eq!(Response::received(ok(&[1, 2])), Ok(vec![1, 2]));
    assert_eq!(Response::received(ok(EXPIRED_NOTICE.as_bytes())), Ok(EXPIRED_NOTICE.as_bytes().to_vec()));
    assert_eq!(
        Response::received(Ok(Response { status: 399, body: vec![1] })),
        Ok(vec![1])
    );
    for status in [400u16, 401, 403, 404, 410, 429, 499, 500, 503, 599] {
        assert_eq!(
            Response::received(Ok(Response { status, body: vec![1] })),
            Err(StorageError::TransportFailure)
        );
        assert!(Response { status, body: Vec::new() }.is_refused());
    }
    assert!(!Response { status: 200, body: Vec::new() }.is_refused());
    assert!(!Response { status: 600, body: Vec::new() }.is_refused());
    assert_eq!(Response::received(Err(StorageError::TransportFailure)), Err(StorageError::TransportFailure));
    assert_eq!(Response::received(Err(StorageError::IndexFailure)), Err(StorageError::IndexFailure));
}

#[test]
fn removed_takes_a_message_that_is_gone_for_deleted() {
    for status in [200u16, 204, 404, 410] {
        assert_eq!(Response::removed(Ok(Response { status, body: Vec::new() })), Ok(()));
    }
    for status in [400u16, 401, 403, 405, 409, 429, 500, 502, 599] {
        assert_eq!(
            Response::removed(Ok(Response { status, body: Vec::new() })),
            Err(StorageError::TransportFailure)
        );
    }
    assert!(Response { status: 404, body: Vec::new() }.is_already_gone());
    assert!(Response { status: 410, body: Vec::new() }.is_already_gone());
    assert!(!Response { status: 400, body: Vec::new() }.is_already_gone());
    assert!(!Response { status: 204, body: Vec::new() }.is_already_gone());
    assert_eq!(Response::removed(Err(StorageError::TransportFailure)), Err(StorageError::TransportFailure));
}

#[test]
fn a_message_without_attachment_is_a_decoding_failure() {
    let fetch = AttachmentFetch::new("5");
    match fetch.on_body(&bot(), ok(EXPIRED_NOTICE.as_bytes())) {
        FirstStep::Resolve(refresh, _) => {
            assert_eq!(refresh.on_message(Ok(message(&[]))).err(), Some(StorageError::DecodingFailure));
        }
        FirstStep::Done(_) => panic!("took the notice for the attachment"),
    }
}

#[test]
fn a_failure_to_get_the_message_is_passed_on() {
    for failure in [StorageError::TransportFailure, StorageError::DecodingFailure] {
        let fetch = AttachmentFetch::new("5");
        match fetch.on_body(&bot(), ok(EXPIRED_NOTICE.as_bytes())) {
            FirstStep::Resolve(refresh, _) => {
                assert_eq!(refresh.on_message(Err(failure)).err(), Some(failure));
            }
            FirstStep::Done(_) => panic!("took the notice for the attachment"),
        }
    }
}
