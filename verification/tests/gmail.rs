use mail_fetch::batch::BatchError;
use mail_fetch::gmail::{
    convert_label, convert_messages, decode_body, get_messages_batched, messages_list, BodyFault,
    ListError, Message, MessageListMessage, MessagePayload, MessagePayloadBody,
    MessagePayloadHeaderPair, MessagePayloadPart, MessagePayloadPartBody, MessagesList,
};
use mail_fetch::request::{Method, RequestBody};
use mail_fetch::search::{MailError, Searchable};

fn header(name: &str, value: &str) -> MessagePayloadHeaderPair {
    MessagePayloadHeaderPair { name: name.to_string(), value: value.to_string() }
}

fn part(mime_type: &str, data: &str) -> MessagePayloadPart {
    MessagePayloadPart {
        part_id: "0".to_string(),
        mime_type: mime_type.to_string(),
        filename: String::new(),
        body: MessagePayloadPartBody { size: data.len() as u64, data: data.to_string() },
    }
}

fn message(
    headers: Vec<MessagePayloadHeaderPair>,
    parts: Option<Vec<MessagePayloadPart>>,
    label_ids: &[&str],
) -> Message {
    Message {
        id: "m1".to_string(),
        thread_id: "t1".to_string(),
        label_ids: label_ids.iter().map(|label| label.to_string()).collect(),
        payload: MessagePayload {
            filename: String::new(),
            headers,
            body: MessagePayloadBody { size: 0, data: None },
            parts,
        },
    }
}

fn full_headers() -> Vec<MessagePayloadHeaderPair> {
    vec![
        header("Subject", "Greetings"),
        header("From", "ann@example.org"),
        header("To", "bob@example.org"),
        header("Date", "Tue, 1 Jul 2003 10:52:37 +0200"),
    ]
}

fn full_parts() -> Vec<MessagePayloadPart> {
    vec![part("text/html", "PHA-SGVsbG8_Pj48L3A-"), part("text/plain", "SGVsbG8_Pj4gcGxhaW4=")]
}

#[test]
fn message_becomes_searchable_mail() {
    let mail = message(full_headers(), Some(full_parts()), &["INBOX", "CATEGORY_UPDATES", "SENT"])
        .to_searchable_mail()
        .unwrap();
    assert_eq!(mail.id, "m1");
    assert_eq!(mail.thread_id, "t1");
    assert_eq!(mail.subject, "Greetings");
    assert_eq!(mail.from, "ann@example.org");
    assert_eq!(mail.to, "bob@example.org");
    assert_eq!(mail.time, 1057049557);
    assert_eq!(mail.raw_body, "<p>Hello?>></p>");
    assert_eq!(mail.searchable_body, "Hello?>> plain");
    assert_eq!(mail.labels, vec!["inbox".to_string(), "sent".to_string()]);
}

#[test]
fn last_header_and_last_part_count() {
    let mut headers = full_headers();
    headers.push(header("Subject", "Second"));
    headers.push(header("Date", "Wed, 18 Feb 2015 23:16:09 GMT"));
    headers.push(header("X-Other", "ignored"));
    let mut parts = full_parts();
    parts.push(part("image/png", "not base64 at all!"));
    parts.push(part("text/html", "PGI-aGk8L2I-"));
    let mail = message(headers, Some(parts), &[]).to_searchable_mail().unwrap();
    assert_eq!(mail.subject, "Second");
    assert_eq!(mail.time, 1424301369);
    assert_eq!(mail.raw_body, "<b>hi</b>");
    assert_eq!(mail.searchable_body, "Hello?>> plain");
    assert_eq!(mail.labels.len(), 0);
}

#[test]
fn unreadable_date_is_reported_first() {
    let headers = vec![
        header("Date", "yesterday"),
        header("Date", "Tue, 1 Jul 2003 10:52:37 +0200"),
    ];
    let parts = vec![part("text/html", "%%%")];
    let error = message(headers, Some(parts), &[]).to_searchable_mail().unwrap_err();
    assert!(matches!(&error, MailError::InvalidDate(value) if value == "yesterday"));
    assert_eq!(error.message(), "could not parse yesterday to datetime");
}

#[test]
fn unreadable_bodies_are_told_apart() {
    let cases: Vec<(&str, &str, MailError)> = vec![
        ("text/html", "%%%", MailError::RawBodyEncoding),
        ("text/html", "__4=", MailError::RawBodyText),
        ("text/plain", "aGk", MailError::SearchableBodyEncoding),
        ("text/plain", "__4=", MailError::SearchableBodyText),
    ];
    for (mime_type, data, expected) in cases {
        let error = message(full_headers(), Some(vec![part(mime_type, data)]), &[])
            .to_searchable_mail()
            .unwrap_err();
        assert_eq!(format!("{:?}", error), format!("{:?}", expected));
    }
}

#[test]
fn first_unreadable_part_is_reported() {
    let parts = vec![
        part("text/plain", "SGVsbG8_Pj4gcGxhaW4="),
        part("text/plain", "__4="),
        part("text/html", "%%%"),
    ];
    let error = message(full_headers(), Some(parts), &[]).to_searchable_mail().unwrap_err();
    assert!(matches!(error, MailError::SearchableBodyText));
}

#[test]
fn missing_pieces_are_reported_in_order() {
    let without = |name: &str| -> Vec<MessagePayloadHeaderPair> {
        full_headers().into_iter().filter(|header| header.name != name).collect()
    };
    let convert = |headers: Vec<MessagePayloadHeaderPair>,
                   parts: Option<Vec<MessagePayloadPart>>|
     -> String {
        message(headers, parts, &[]).to_searchable_mail().unwrap_err().message()
    };
    assert_eq!(convert(Vec::new(), None), "missing subject");
    assert_eq!(convert(without("Subject"), Some(full_parts())), "missing subject");
    assert_eq!(convert(without("From"), Some(full_parts())), "missing from");
    assert_eq!(convert(without("To"), Some(full_parts())), "missing to");
    assert_eq!(convert(without("Date"), Some(full_parts())), "missing time");
    assert_eq!(convert(full_headers(), None), "missing raw body");
    assert_eq!(convert(full_headers(), Some(Vec::new())), "missing raw body");
    assert_eq!(
        convert(full_headers(), Some(vec![part("text/plain", "aGk=")])),
        "missing raw body"
    );
    assert_eq!(
        convert(full_headers(), Some(vec![part("text/html", "aGk=")])),
        "missing searchable body"
    );
}

#[test]
fn header_names_are_matched_exactly() {
    let mut headers = without_subject();
    headers.push(header("subject", "lower case"));
    let error = message(headers, Some(full_parts()), &[]).to_searchable_mail().unwrap_err();
    assert!(matches!(error, MailError::MissingSubject));
}

fn without_subject() -> Vec<MessagePayloadHeaderPair> {
    full_headers().into_iter().filter(|header| header.name != "Subject").collect()
}

#[test]
fn mailbox_labels_are_converted() {
    assert_eq!(convert_label("INBOX"), Some("inbox"));
    assert_eq!(convert_label("STARRED"), Some("starred"));
    assert_eq!(convert_label("IMPORTANT"), Some("important"));
    assert_eq!(convert_label("SENT"), Some("sent"));
    assert_eq!(convert_label("SCHEDULED"), Some("scheduled"));
    assert_eq!(convert_label("SPAM"), Some("spam"));
    assert_eq!(convert_label("BIN"), Some("bin"));
    assert_eq!(convert_label("inbox"), None);
    assert_eq!(convert_label("UNREAD"), None);
    let mail = message(full_headers(), Some(full_parts()), &["BIN", "UNREAD", "SPAM", "BIN"])
        .to_searchable_mail()
        .unwrap();
    assert_eq!(mail.labels, vec!["bin".to_string(), "spam".to_string(), "bin".to_string()]);
}

#[test]
fn bodies_are_url_safe_base64_of_utf8() {
    assert_eq!(decode_body("aGk=").ok(), Some("hi".to_string()));
    assert_eq!(decode_body("").ok(), Some(String::new()));
    assert_eq!(decode_body("ZMOpasOgIHZ1IOKckw==").ok(), Some("déjà vu ✓".to_string()));
    assert_eq!(decode_body("Pz8_").ok(), Some("???".to_string()));
    assert!(matches!(decode_body("Pz8/"), Err(BodyFault::Encoding)));
    assert!(matches!(decode_body("aGk"), Err(BodyFault::Encoding)));
    assert!(matches!(decode_body("__4="), Err(BodyFault::Text)));
}

#[test]
fn listing_asks_for_three_messages_unless_told_otherwise() {
    let request = messages_list(None).unwrap();
    assert_eq!(request.method, Method::Get);
    assert_eq!(
        request.url,
        "https://gmail.googleapis.com/gmail/v1/users/me/messages?maxResults=3"
    );
    assert!(request.headers.is_empty());
    assert!(matches!(request.body, RequestBody::Empty));
    let request = messages_list(Some(0)).unwrap();
    assert_eq!(
        request.url,
        "https://gmail.googleapis.com/gmail/v1/users/me/messages?maxResults=0"
    );
    let request = messages_list(Some(500)).unwrap();
    assert_eq!(
        request.url,
        "https://gmail.googleapis.com/gmail/v1/users/me/messages?maxResults=500"
    );
}

#[test]
fn listing_above_the_cap_is_turned_down() {
    let error = messages_list(Some(600)).unwrap_err();
    assert_eq!(error, ListError::TooManyResults { requested: 600, maximum: 500 });
    assert_eq!(error.message(), "maximum number of messages results is 500");
    assert!(messages_list(Some(501)).is_err());
    assert!(messages_list(Some(u32::MAX)).is_err());
}

#[test]
fn batch_request_carries_the_body_and_names_the_boundary() {
    let ids = vec!["a".to_string(), "b".to_string()];
    let request = get_messages_batched(&ids).unwrap();
    assert_eq!(request.method, Method::Post);
    assert_eq!(request.url, "https://gmail.googleapis.com/batch/gmail/v1");
    assert_eq!(request.headers.len(), 1);
    assert_eq!(request.headers[0].name, "Content-Type");
    assert_eq!(request.headers[0].value, "multipart/mixed; boundary=batch_boundary");
    match request.body {
        RequestBody::Text(body) => assert_eq!(
            body,
            "--batch_boundary\nContent-Type: application/http\n\nGET /gmail/v1/users/me/messages/a?full HTTP/1.1\n\
             --batch_boundary\nContent-Type: application/http\n\nGET /gmail/v1/users/me/messages/b?full HTTP/1.1\n\
             \n--batch_boundary--"
        ),
        _ => panic!("a batch request carries text"),
    }
}

#[test]
fn batch_errors_are_put_in_words() {
    assert_eq!(
        BatchError::MalformedInput { index: 12 }.message(),
        "could not get message_id with index 12"
    );
    assert_eq!(
        BatchError::MissingBoundary.message(),
        "could not get batch boundary from response"
    );
}

#[test]
fn messages_are_converted_one_by_one() {
    let mut second = message(full_headers(), Some(full_parts()), &["SENT"]);
    second.id = "m2".to_string();
    let messages = vec![
        message(full_headers(), Some(full_parts()), &["INBOX"]),
        message(full_headers(), None, &[]),
        message(vec![header("Date", "never")], Some(full_parts()), &[]),
        second,
    ];
    let conversion = convert_messages(&messages);
    let ids: Vec<&str> = conversion.mails.iter().map(|mail| mail.id.as_str()).collect();
    assert_eq!(ids, vec!["m1", "m2"]);
    assert_eq!(conversion.mails[0].labels, vec!["inbox".to_string()]);
    assert_eq!(conversion.mails[1].labels, vec!["sent".to_string()]);
    assert_eq!(
        conversion.failures,
        vec![MailError::MissingRawBody, MailError::InvalidDate("never".to_string())]
    );
    let nothing = convert_messages(&[]);
    assert!(nothing.mails.is_empty());
    assert!(nothing.failures.is_empty());
}

#[test]
fn listing_gives_the_identifiers_in_order() {
    let listing = MessagesList {
        messages: vec![
            MessageListMessage { id: "b".to_string(), thread_id: "t1".to_string() },
            MessageListMessage { id: "a".to_string(), thread_id: "t2".to_string() },
            MessageListMessage { id: "b".to_string(), thread_id: "t3".to_string() },
        ],
        next_page_token: "next".to_string(),
        result_size_estimate: 3,
    };
    assert_eq!(listing.message_ids(), vec!["b".to_string(), "a".to_string(), "b".to_string()]);
    let empty = MessagesList {
        messages: Vec::new(),
        next_page_token: String::new(),
        result_size_estimate: 0,
    };
    assert!(empty.message_ids().is_empty());
}
