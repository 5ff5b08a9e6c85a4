//! The messages of the mail service, the requests that fetch them, and their
//! conversion into searchable mail.

use crate::codecs::{
    decode_url_safe_base64, parse_rfc2822_timestamp, rfc2822_timestamp, string_from_utf8,
    url_safe_base64,
};
use crate::search::{
    Mail, MailError, MailFault, MailView, Searchable, LABEL_BIN, LABEL_IMPORTANT, LABEL_INBOX,
    LABEL_SCHEDULED, LABEL_SENT, LABEL_SPAM, LABEL_STARRED,
};
use crate::batch::{batch_body, build_batch_body, BatchError, BATCH_BOUNDARY};
use crate::constants::MAXIMUM_MESSAGE_LIST_RESULTS;
use crate::request::{BodyView, Header, Method, RequestBody, RequestDescriptor, RequestView};
use crate::text::{decimal, str_eq, to_decimal};
use vstd::prelude::*;
use vstd::string::*;
use vstd::utf8::{decode_utf8, valid_utf8};

verus! {

/// One page of a mailbox listing.
#[derive(Debug, PartialEq, Eq)]
pub struct MessagesList {
    pub messages: Vec<MessageListMessage>,
    pub next_page_token: String,
    pub result_size_estimate: u64,
}

/// An entry of a listing: it names a message, and no more.
#[derive(Debug, PartialEq, Eq)]
pub struct MessageListMessage {
    pub id: String,
    pub thread_id: String,
}

/// A message as the mail service hands it out.
#[derive(Debug, PartialEq, Eq)]
pub struct Message {
    pub id: String,
    pub thread_id: String,
    pub label_ids: Vec<String>,
    pub payload: MessagePayload,
}

/// What a message carries: its headers, and its content split into parts.
#[derive(Debug, PartialEq, Eq)]
pub struct MessagePayload {
    pub filename: String,
    pub headers: Vec<MessagePayloadHeaderPair>,
    pub body: MessagePayloadBody,
    pub parts: Option<Vec<MessagePayloadPart>>,
}

/// A header of a message.
#[derive(Debug, PartialEq, Eq)]
pub struct MessagePayloadHeaderPair {
    pub name: String,
    pub value: String,
}

/// The content of a message that is not split into parts.
#[derive(Debug, PartialEq, Eq)]
pub struct MessagePayloadBody {
    pub size: u64,
    pub data: Option<String>,
}

/// One part of the content of a message, with the type of what it holds.
#[derive(Debug, PartialEq, Eq)]
pub struct MessagePayloadPart {
    pub part_id: String,
    pub mime_type: String,
    pub filename: String,
    pub body: MessagePayloadPartBody,
}

/// The content of a part, in URL-safe base64.
#[derive(Debug, PartialEq, Eq)]
pub struct MessagePayloadPartBody {
    pub size: u64,
    pub data: String,
}

impl MessagesList {
    /// The identifiers of the messages listed, in order.
    pub open spec fn ids(&self) -> Seq<Seq<char>> {
        self.messages@.map_values(|message: MessageListMessage| message.id@)
    }

    /// The identifiers of the messages listed, in order.
    pub fn message_ids(&self) -> (ids: Vec<String>)
        ensures
            ids.deep_view() == self.ids(),
    {
        let mut ids: Vec<String> = Vec::new();
        let mut index: usize = 0;
        while index < self.messages.len()
            invariant
                index <= self.messages.len(),
                ids.deep_view() == self.ids().take(index as int),
            decreases self.messages.len() - index,
        {
            let ghost before = ids.deep_view();
            let id = self.messages[index].id.clone();
            ids.push(id);
            assert(ids.deep_view() == before.push(id@));
            index += 1;
        }
        ids
    }
}

/// What a `MessagePayloadHeaderPair` holds, as mathematical values.
pub struct HeaderPairView {
    pub name: Seq<char>,
    pub value: Seq<char>,
}

/// What a `MessagePayloadBody` holds, as mathematical values.
pub struct PayloadBodyView {
    pub size: u64,
    pub data: Option<Seq<char>>,
}

/// What a `MessagePayloadPartBody` holds, as mathematical values.
pub struct PartBodyView {
    pub size: u64,
    pub data: Seq<char>,
}

/// What a `MessagePayloadPart` holds, as mathematical values.
pub struct PartView {
    pub part_id: Seq<char>,
    pub mime_type: Seq<char>,
    pub filename: Seq<char>,
    pub body: PartBodyView,
}

/// What a `MessagePayload` holds, as mathematical values.
pub struct PayloadView {
    pub filename: Seq<char>,
    pub headers: Seq<HeaderPairView>,
    pub body: PayloadBodyView,
    pub parts: Option<Seq<PartView>>,
}

/// What a `Message` holds, as mathematical values.
pub struct MessageView {
    pub id: Seq<char>,
    pub thread_id: Seq<char>,
    pub label_ids: Seq<Seq<char>>,
    pub payload: PayloadView,
}

impl DeepView for MessagePayloadHeaderPair {
    type V = HeaderPairView;

    open spec fn deep_view(&self) -> HeaderPairView {
        HeaderPairView { name: self.name@, value: self.value@ }
    }
}

impl DeepView for MessagePayloadPart {
    type V = PartView;

    open spec fn deep_view(&self) -> PartView {
        PartView {
            part_id: self.part_id@,
            mime_type: self.mime_type@,
            filename: self.filename@,
            body: PartBodyView { size: self.body.size, data: self.body.data@ },
        }
    }
}

impl View for MessagePayload {
    type V = PayloadView;

    open spec fn view(&self) -> PayloadView {
        PayloadView {
            filename: self.filename@,
            headers: self.headers.deep_view(),
            body: PayloadBodyView { size: self.body.size, data: self.body.data.deep_view() },
            parts: self.parts.deep_view(),
        }
    }
}

impl DeepView for Message {
    type V = MessageView;

    open spec fn deep_view(&self) -> MessageView {
        self@
    }
}

impl View for Message {
    type V = MessageView;

    open spec fn view(&self) -> MessageView {
        MessageView {
            id: self.id@,
            thread_id: self.thread_id@,
            label_ids: self.label_ids.deep_view(),
            payload: self.payload@,
        }
    }
}

/// The search label that stands for a mailbox label; `None` for a label that is not indexed.
pub open spec fn searchable_label(label: Seq<char>) -> Option<Seq<char>> {
    if label == "INBOX"@ {
        Some(LABEL_INBOX@)
    } else if label == "STARRED"@ {
        Some(LABEL_STARRED@)
    } else if label == "IMPORTANT"@ {
        Some(LABEL_IMPORTANT@)
    } else if label == "SENT"@ {
        Some(LABEL_SENT@)
    } else if label == "SCHEDULED"@ {
        Some(LABEL_SCHEDULED@)
    } else if label == "SPAM"@ {
        Some(LABEL_SPAM@)
    } else if label == "BIN"@ {
        Some(LABEL_BIN@)
    } else {
        None
    }
}

/// The search labels of the mailbox labels that are indexed, in order.
pub open spec fn searchable_labels(label_ids: Seq<Seq<char>>) -> Seq<Seq<char>> {
    label_ids.filter_map(|label: Seq<char>| searchable_label(label))
}

/// The value of the last header called `name`.
pub open spec fn last_header(headers: Seq<HeaderPairView>, name: Seq<char>) -> Option<Seq<char>>
    decreases headers.len(),
{
    if headers.len() == 0 {
        None
    } else if headers.last().name == name {
        Some(headers.last().value)
    } else {
        last_header(headers.drop_last(), name)
    }
}

/// Whether `header` is a `Date` header that holds no RFC 2822 date.
pub open spec fn is_unreadable_date(header: HeaderPairView) -> bool {
    header.name == "Date"@ && rfc2822_timestamp(header.value) is None
}

/// The value of the first `Date` header that holds no RFC 2822 date.
pub open spec fn first_unreadable_date(headers: Seq<HeaderPairView>) -> Option<Seq<char>>
    decreases headers.len(),
{
    if headers.len() == 0 {
        None
    } else if is_unreadable_date(headers.first()) {
        Some(headers.first().value)
    } else {
        first_unreadable_date(headers.drop_first())
    }
}

/// The moment that the last `Date` header gives.
pub open spec fn sent_at(headers: Seq<HeaderPairView>) -> Option<i64> {
    match last_header(headers, "Date"@) {
        Some(value) => rfc2822_timestamp(value),
        None => None,
    }
}

/// What is wrong with the text of a body.
#[derive(Debug, Clone, Copy, PartialEq, Eq, Structural)]
pub enum BodyFault {
    /// It is not URL-safe base64.
    Encoding,
    /// What it encodes is not UTF-8.
    Text,
}

/// The text that `data` carries: URL-safe base64 of UTF-8.
pub open spec fn body_text(data: Seq<char>) -> Result<Seq<char>, BodyFault> {
    match url_safe_base64(data) {
        None => Err(BodyFault::Encoding),
        Some(bytes) => if valid_utf8(bytes) {
            Ok(decode_utf8(bytes))
        } else {
            Err(BodyFault::Text)
        },
    }
}

/// What keeps `part` from being read: only HTML and plain-text parts are read at all.
pub open spec fn part_fault(part: PartView) -> Option<MailFault> {
    if part.mime_type == "text/html"@ {
        match body_text(part.body.data) {
            Ok(_) => None,
            Err(BodyFault::Encoding) => Some(MailFault::RawBodyEncoding),
            Err(BodyFault::Text) => Some(MailFault::RawBodyText),
        }
    } else if part.mime_type == "text/plain"@ {
        match body_text(part.body.data) {
            Ok(_) => None,
            Err(BodyFault::Encoding) => Some(MailFault::SearchableBodyEncoding),
            Err(BodyFault::Text) => Some(MailFault::SearchableBodyText),
        }
    } else {
        None
    }
}

/// The fault of the first part that cannot be read.
pub open spec fn first_part_fault(parts: Seq<PartView>) -> Option<MailFault>
    decreases parts.len(),
{
    if parts.len() == 0 {
        None
    } else if part_fault(parts.first()) is Some {
        part_fault(parts.first())
    } else {
        first_part_fault(parts.drop_first())
    }
}

/// The text of the last part of type `mime_type`, where that text can be read.
pub open spec fn last_body(parts: Seq<PartView>, mime_type: Seq<char>) -> Option<Seq<char>>
    decreases parts.len(),
{
    if parts.len() == 0 {
        None
    } else if parts.last().mime_type == mime_type {
        match body_text(parts.last().body.data) {
            Ok(text) => Some(text),
            Err(_) => None,
        }
    } else {
        last_body(parts.drop_last(), mime_type)
    }
}

impl MessageView {
    /// The parts of the payload; none where the payload is not split into parts.
    pub open spec fn parts(self) -> Seq<PartView> {
        match self.payload.parts {
            Some(parts) => parts,
            None => Seq::empty(),
        }
    }
}

/// What `message` becomes when it is indexed. An unreadable `Date` header is reported
/// first, then an unreadable HTML or plain-text part, then whatever is missing; where a
/// header or a kind of part occurs more than once, the last one counts.
pub open spec fn searchable_mail(message: MessageView) -> Result<MailView, MailFault> {
    let headers = message.payload.headers;
    let parts = message.parts();
    if let Some(value) = first_unreadable_date(headers) {
        Err(MailFault::InvalidDate(value))
    } else if let Some(fault) = first_part_fault(parts) {
        Err(fault)
    } else if last_header(headers, "Subject"@) is None {
        Err(MailFault::MissingSubject)
    } else if last_header(headers, "From"@) is None {
        Err(MailFault::MissingFrom)
    } else if last_header(headers, "To"@) is None {
        Err(MailFault::MissingTo)
    } else if sent_at(headers) is None {
        Err(MailFault::MissingTime)
    } else if last_body(parts, "text/html"@) is None {
        Err(MailFault::MissingRawBody)
    } else if last_body(parts, "text/plain"@) is None {
        Err(MailFault::MissingSearchableBody)
    } else {
        Ok(
            MailView {
                id: message.id,
                thread_id: message.thread_id,
                subject: last_header(headers, "Subject"@).unwrap(),
                time: sent_at(headers).unwrap(),
                labels: searchable_labels(message.label_ids),
                raw_body: last_body(parts, "text/html"@).unwrap(),
                searchable_body: last_body(parts, "text/plain"@).unwrap(),
                from: last_header(headers, "From"@).unwrap(),
                to: last_header(headers, "To"@).unwrap(),
            },
        )
    }
}

/// The search label for a mailbox label.
pub fn convert_label(label: &str) -> (converted: Option<&'static str>)
    ensures
        match converted {
            Some(search_label) => searchable_label(label@) == Some(search_label@),
            None => searchable_label(label@) is None,
        },
{
    if str_eq(label, "INBOX") {
        Some(LABEL_INBOX)
    } else if str_eq(label, "STARRED") {
        Some(LABEL_STARRED)
    } else if str_eq(label, "IMPORTANT") {
        Some(LABEL_IMPORTANT)
    } else if str_eq(label, "SENT") {
        Some(LABEL_SENT)
    } else if str_eq(label, "SCHEDULED") {
        Some(LABEL_SCHEDULED)
    } else if str_eq(label, "SPAM") {
        Some(LABEL_SPAM)
    } else if str_eq(label, "BIN") {
        Some(LABEL_BIN)
    } else {
        None
    }
}

/// Reads the text of a body.
pub fn decode_body(data: &str) -> (text: Result<String, BodyFault>)
    ensures
        match text {
            Ok(string) => body_text(data@) == Ok::<Seq<char>, BodyFault>(string@),
            Err(fault) => body_text(data@) == Err::<Seq<char>, BodyFault>(fault),
        },
{
    match decode_url_safe_base64(data) {
        Err(_) => Err(BodyFault::Encoding),
        Ok(bytes) => match string_from_utf8(bytes) {
            Err(_) => Err(BodyFault::Text),
            Ok(string) => Ok(string),
        },
    }
}

/// The header names that are read differ from one another.
proof fn lemma_header_names_differ()
    ensures
        "Subject"@ != "From"@,
        "Subject"@ != "To"@,
        "Subject"@ != "Date"@,
        "From"@ != "To"@,
        "From"@ != "Date"@,
        "To"@ != "Date"@,
{
    reveal_strlit("Subject");
    reveal_strlit("From");
    reveal_strlit("To");
    reveal_strlit("Date");
    assert("Subject"@.len() == 7 && "From"@.len() == 4 && "To"@.len() == 2 && "Date"@.len() == 4);
    assert("From"@[0] != "Date"@[0]);
}

/// The two kinds of part that are read differ.
proof fn lemma_body_types_differ()
    ensures
        "text/html"@ != "text/plain"@,
{
    reveal_strlit("text/html");
    reveal_strlit("text/plain");
    assert("text/html"@.len() != "text/plain"@.len());
}

/// How one more header changes what `last_header` finds.
proof fn lemma_last_header_step(headers: Seq<HeaderPairView>, index: int, name: Seq<char>)
    requires
        0 <= index < headers.len(),
    ensures
        last_header(headers.take(index + 1), name) == if headers[index].name == name {
            Some(headers[index].value)
        } else {
            last_header(headers.take(index), name)
        },
{
    assert(headers.take(index + 1).drop_last() == headers.take(index));
}

/// How one more part changes what `last_body` finds.
proof fn lemma_last_body_step(parts: Seq<PartView>, index: int, mime_type: Seq<char>)
    requires
        0 <= index < parts.len(),
    ensures
        last_body(parts.take(index + 1), mime_type) == if parts[index].mime_type == mime_type {
            match body_text(parts[index].body.data) {
                Ok(text) => Some(text),
                Err(_) => None,
            }
        } else {
            last_body(parts.take(index), mime_type)
        },
{
    assert(parts.take(index + 1).drop_last() == parts.take(index));
}

impl Searchable for Message {
    open spec fn searchable(&self) -> Result<MailView, MailFault> {
        searchable_mail(self@)
    }

    #[verifier::loop_isolation(false)]
    fn to_searchable_mail(&self) -> (mail: Result<Mail, MailError>) {
        let mut subject: Option<String> = None;
        let mut from: Option<String> = None;
        let mut to: Option<String> = None;
        let mut time: Option<i64> = None;
        let mut raw_body: Option<String> = None;
        let mut searchable_body: Option<String> = None;
        let mut labels: Vec<String> = Vec::new();

        let headers = &self.payload.headers;
        let ghost all_headers = self@.payload.headers;
        let mut index: usize = 0;
        assert(all_headers.skip(0) == all_headers);
        while index < headers.len()
            invariant
                index <= headers.len(),
                first_unreadable_date(all_headers) == first_unreadable_date(
                    all_headers.skip(index as int),
                ),
                subject.deep_view() == last_header(all_headers.take(index as int), "Subject"@),
                from.deep_view() == last_header(all_headers.take(index as int), "From"@),
                to.deep_view() == last_header(all_headers.take(index as int), "To"@),
                time == sent_at(all_headers.take(index as int)),
            decreases headers.len() - index,
        {
            let header = &headers[index];
            proof {
                lemma_header_names_differ();
                lemma_last_header_step(all_headers, index as int, "Subject"@);
                lemma_last_header_step(all_headers, index as int, "From"@);
                lemma_last_header_step(all_headers, index as int, "To"@);
                lemma_last_header_step(all_headers, index as int, "Date"@);
                assert(all_headers.skip(index as int).drop_first() == all_headers.skip(index + 1));
            }
            if str_eq(header.name.as_str(), "Subject") {
                subject = Some(header.value.clone());
            } else if str_eq(header.name.as_str(), "From") {
                from = Some(header.value.clone());
            } else if str_eq(header.name.as_str(), "To") {
                to = Some(header.value.clone());
            } else if str_eq(header.name.as_str(), "Date") {
                match parse_rfc2822_timestamp(header.value.as_str()) {
                    Ok(seconds) => {
                        time = Some(seconds);
                    },
                    Err(_) => {
                        return Err(MailError::InvalidDate(header.value.clone()));
                    },
                }
            }
            index += 1;
        }

        let ghost all_parts = self@.parts();
        if let Some(parts) = &self.payload.parts {
            let mut index: usize = 0;
            assert(all_parts.skip(0) == all_parts);
            while index < parts.len()
                invariant
                    index <= parts.len(),
                    first_part_fault(all_parts) == first_part_fault(all_parts.skip(index as int)),
                    raw_body.deep_view() == last_body(all_parts.take(index as int), "text/html"@),
                    searchable_body.deep_view() == last_body(
                        all_parts.take(index as int),
                        "text/plain"@,
                    ),
                decreases parts.len() - index,
            {
                let part = &parts[index];
                proof {
                    lemma_body_types_differ();
                    lemma_last_body_step(all_parts, index as int, "text/html"@);
                    lemma_last_body_step(all_parts, index as int, "text/plain"@);
                    assert(all_parts.skip(index as int).drop_first() == all_parts.skip(index + 1));
                }
                if str_eq(part.mime_type.as_str(), "text/html") {
                    match decode_body(part.body.data.as_str()) {
                        Ok(text) => {
                            raw_body = Some(text);
                        },
                        Err(BodyFault::Encoding) => {
                            return Err(MailError::RawBodyEncoding);
                        },
                        Err(BodyFault::Text) => {
                            return Err(MailError::RawBodyText);
                        },
                    }
                } else if str_eq(part.mime_type.as_str(), "text/plain") {
                    match decode_body(part.body.data.as_str()) {
                        Ok(text) => {
                            searchable_body = Some(text);
                        },
                        Err(BodyFault::Encoding) => {
                            return Err(MailError::SearchableBodyEncoding);
                        },
                        Err(BodyFault::Text) => {
                            return Err(MailError::SearchableBodyText);
                        },
                    }
                }
                index += 1;
            }
        }

        let label_ids = &self.label_ids;
        let ghost all_labels = self@.label_ids;
        let mut index: usize = 0;
        while index < label_ids.len()
            invariant
                index <= label_ids.len(),
                labels.deep_view() == searchable_labels(all_labels.take(index as int)),
            decreases label_ids.len() - index,
        {
            proof {
                assert(all_labels.take(index + 1).drop_last() == all_labels.take(index as int));
            }
            if let Some(label) = convert_label(label_ids[index].as_str()) {
                labels.push(label.to_owned());
            }
            index += 1;
        }
        assert(all_labels.take(index as int) == all_labels);

        let subject = match subject {
            Some(subject) => subject,
            None => {
                return Err(MailError::MissingSubject);
            },
        };
        let from = match from {
            Some(from) => from,
            None => {
                return Err(MailError::MissingFrom);
            },
        };
        let to = match to {
            Some(to) => to,
            None => {
                return Err(MailError::MissingTo);
            },
        };
        let time = match time {
            Some(time) => time,
            None => {
                return Err(MailError::MissingTime);
            },
        };
        let raw_body = match raw_body {
            Some(raw_body) => raw_body,
            None => {
                return Err(MailError::MissingRawBody);
            },
        };
        let searchable_body = match searchable_body {
            Some(searchable_body) => searchable_body,
            None => {
                return Err(MailError::MissingSearchableBody);
            },
        };

        Ok(
            Mail {
                id: self.id.clone(),
                thread_id: self.thread_id.clone(),
                subject,
                from,
                to,
                labels,
                time,
                raw_body,
                searchable_body,
            },
        )
    }
}

/// What came of converting a list of messages.
#[derive(Debug, PartialEq, Eq)]
pub struct Conversion {
    /// The mail that the messages became, in the order of the messages.
    pub mails: Vec<Mail>,
    /// Why the other messages became none, in the order of the messages.
    pub failures: Vec<MailError>,
}

/// The mail that `messages` become, in order; a message that cannot be converted is
/// left out.
pub open spec fn converted(messages: Seq<MessageView>) -> Seq<MailView> {
    messages.filter_map(
        |message: MessageView|
            match searchable_mail(message) {
                Ok(mail) => Some(mail),
                Err(_) => None,
            },
    )
}

/// Why those of `messages` that cannot be converted cannot, in order.
pub open spec fn unconverted(messages: Seq<MessageView>) -> Seq<MailFault> {
    messages.filter_map(
        |message: MessageView|
            match searchable_mail(message) {
                Ok(_) => None,
                Err(fault) => Some(fault),
            },
    )
}

/// Converts each of `messages` into searchable mail. A message that cannot be converted
/// is set aside with the reason, and the others are converted all the same.
pub fn convert_messages(messages: &[Message]) -> (conversion: Conversion)
    ensures
        conversion.mails.deep_view() == converted(messages.deep_view()),
        conversion.failures.deep_view() == unconverted(messages.deep_view()),
{
    let ghost all = messages.deep_view();
    let mut mails: Vec<Mail> = Vec::new();
    let mut failures: Vec<MailError> = Vec::new();
    let mut index: usize = 0;
    while index < messages.len()
        invariant
            index <= messages.len(),
            all == messages.deep_view(),
            mails.deep_view() == converted(all.take(index as int)),
            failures.deep_view() == unconverted(all.take(index as int)),
        decreases messages.len() - index,
    {
        let ghost mails_before = mails.deep_view();
        let ghost failures_before = failures.deep_view();
        proof {
            assert(all.take(index + 1).drop_last() == all.take(index as int));
            assert(all[index as int] == messages[index as int]@);
        }
        match messages[index].to_searchable_mail() {
            Ok(mail) => {
                mails.push(mail);
                assert(mails.deep_view() == mails_before + seq![mail@]);
            },
            Err(error) => {
                failures.push(error);
                assert(failures.deep_view() == failures_before + seq![error@]);
            },
        }
        index += 1;
    }
    assert(all.take(index as int) == all);
    Conversion { mails, failures }
}

/// Why a listing cannot be asked for.
#[derive(Debug, Clone, Copy, PartialEq, Eq, Structural)]
pub enum ListError {
    /// More results were asked for than one listing may hold.
    TooManyResults { requested: u32, maximum: u32 },
}

impl ListError {
    /// What `message` says of the error.
    pub open spec fn text(self) -> Seq<char> {
        match self {
            ListError::TooManyResults { requested, maximum } =>
                "maximum number of messages results is "@ + decimal(maximum as nat),
        }
    }

    /// The error in words; it names the most that may be asked for.
    pub fn message(&self) -> (message: String)
        ensures
            message@ == self.text(),
    {
        match self {
            ListError::TooManyResults { requested, maximum } => {
                let mut message = "maximum number of messages results is ".to_owned();
                message.append(to_decimal(*maximum).as_str());
                message
            },
        }
    }
}

/// How many results a listing holds where none is asked for in particular.
pub const DEFAULT_MESSAGE_LIST_RESULTS: u32 = 3;

/// How many results are asked for.
pub open spec fn requested_results(results: Option<u32>) -> u32 {
    match results {
        Some(count) => count,
        None => DEFAULT_MESSAGE_LIST_RESULTS,
    }
}

/// The request for a listing of `count` messages.
pub open spec fn list_request(count: u32) -> RequestView {
    RequestView {
        method: Method::Get,
        url: "https://gmail.googleapis.com/gmail/v1/users/me/messages?maxResults="@ + decimal(
            count as nat,
        ),
        headers: Seq::empty(),
        body: BodyView::Empty,
    }
}

/// The request that fetches the messages `message_ids` in one batch.
pub open spec fn batch_request(message_ids: Seq<Seq<char>>) -> RequestView {
    RequestView {
        method: Method::Post,
        url: "https://gmail.googleapis.com/batch/gmail/v1"@,
        headers: seq![("Content-Type"@, "multipart/mixed; boundary="@ + BATCH_BOUNDARY@)],
        body: BodyView::Text(batch_body(message_ids)),
    }
}

/// The request for a listing of the mailbox. More results than a listing may hold are
/// turned down here, before anything is sent.
pub fn messages_list(results: Option<u32>) -> (request: Result<RequestDescriptor, ListError>)
    ensures
        match request {
            Ok(request) => {
                &&& requested_results(results) <= MAXIMUM_MESSAGE_LIST_RESULTS
                &&& request@ == list_request(requested_results(results))
            },
            Err(error) => {
                &&& requested_results(results) > MAXIMUM_MESSAGE_LIST_RESULTS
                &&& error == (ListError::TooManyResults {
                    requested: requested_results(results),
                    maximum: MAXIMUM_MESSAGE_LIST_RESULTS,
                })
            },
        },
{
    let count = match results {
        Some(count) => count,
        None => DEFAULT_MESSAGE_LIST_RESULTS,
    };
    if count > MAXIMUM_MESSAGE_LIST_RESULTS {
        return Err(
            ListError::TooManyResults { requested: count, maximum: MAXIMUM_MESSAGE_LIST_RESULTS },
        );
    }
    let mut url = "https://gmail.googleapis.com/gmail/v1/users/me/messages?maxResults=".to_owned();
    url.append(to_decimal(count).as_str());
    let request = RequestDescriptor {
        method: Method::Get,
        url,
        headers: Vec::new(),
        body: RequestBody::Empty,
    };
    assert(request@.headers =~= Seq::empty());
    Ok(request)
}

/// The request that fetches the messages `message_ids` in one batch. A batch is not
/// sent again part by part, so the access token should be fresh when it goes out.
pub fn get_messages_batched(message_ids: &[String]) -> (request: Result<
    RequestDescriptor,
    BatchError,
>)
    ensures
        request is Ok,
        request.unwrap()@ == batch_request(message_ids.deep_view()),
{
    let body = match build_batch_body(message_ids) {
        Ok(body) => body,
        Err(error) => {
            return Err(error);
        },
    };
    let mut content_type = "multipart/mixed; boundary=".to_owned();
    content_type.append(BATCH_BOUNDARY);
    let mut headers: Vec<Header> = Vec::new();
    headers.push(Header { name: "Content-Type".to_owned(), value: content_type });
    let request = RequestDescriptor {
        method: Method::Post,
        url: "https://gmail.googleapis.com/batch/gmail/v1".to_owned(),
        headers,
        body: RequestBody::Text(body),
    };
    assert(request@.headers =~= batch_request(message_ids.deep_view()).headers);
    Ok(request)
}

} // verus!
