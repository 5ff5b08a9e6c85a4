//! Batch requests: many messages are asked for in one request, and come back in one
//! response of many parts.

use crate::text::{
    chars_of, decimal, find, find_in, join, lemma_find_from_is_first, lemma_split_undoes_join,
    occurs_at, split, split_spans, spans_of, to_decimal_usize, Span,
};
use vstd::prelude::*;
use vstd::slice::slice_subrange;
use vstd::string::*;

verus! {

/// The boundary that separates the parts of a batch request.
pub const BATCH_BOUNDARY: &'static str = "batch_boundary";

/// What can go wrong in building a batch request or in reading its response.
#[derive(Debug, Clone, Copy, PartialEq, Eq, Structural)]
pub enum BatchError {
    /// The identifier at `index` could not be taken from the list handed in.
    MalformedInput { index: usize },
    /// The response holds no line from which its boundary could be taken.
    MissingBoundary,
}

impl BatchError {
    /// What `message` says of the error.
    pub open spec fn text(self) -> Seq<char> {
        match self {
            BatchError::MalformedInput { index } => "could not get message_id with index "@
                + decimal(index as nat),
            BatchError::MissingBoundary => "could not get batch boundary from response"@,
        }
    }

    /// The error in words.
    pub fn message(&self) -> (message: String)
        ensures
            message@ == self.text(),
    {
        match self {
            BatchError::MalformedInput { index } => {
                let mut message = "could not get message_id with index ".to_owned();
                message.append(to_decimal_usize(*index).as_str());
                message
            },
            BatchError::MissingBoundary => "could not get batch boundary from response".to_owned(),
        }
    }
}

/// The part of a batch request body that asks for the message `id`.
pub open spec fn batch_part(id: Seq<char>) -> Seq<char> {
    "--"@ + BATCH_BOUNDARY@
        + "\nContent-Type: application/http\n\nGET /gmail/v1/users/me/messages/"@ + id
        + "?full HTTP/1.1\n"@
}

/// The parts that ask for `ids`, one after the other.
pub open spec fn batch_parts(ids: Seq<Seq<char>>) -> Seq<char>
    decreases ids.len(),
{
    if ids.len() == 0 {
        Seq::empty()
    } else {
        batch_parts(ids.drop_last()) + batch_part(ids.last())
    }
}

/// The line that closes a batch request body.
pub open spec fn closing_delimiter() -> Seq<char> {
    "\n--"@ + BATCH_BOUNDARY@ + "--"@
}

/// The body of the batch request for `ids`: one part for each, in order, then the
/// closing delimiter.
pub open spec fn batch_body(ids: Seq<Seq<char>>) -> Seq<char> {
    batch_parts(ids) + closing_delimiter()
}

/// The parts that ask for two lists of messages, one list after the other, are the
/// parts for the first list followed by the parts for the second: each message has its
/// own part, and the parts stand in the order of the messages.
pub proof fn lemma_batch_parts_follow_the_ids(first: Seq<Seq<char>>, second: Seq<Seq<char>>)
    ensures
        batch_parts(first + second) == batch_parts(first) + batch_parts(second),
    decreases second.len(),
{
    if second.len() > 0 {
        lemma_batch_parts_follow_the_ids(first, second.drop_last());
        assert((first + second).drop_last() == first + second.drop_last());
    }
}

/// Builds the body of the batch request for `message_ids`.
pub fn build_batch_body(message_ids: &[String]) -> (body: Result<String, BatchError>)
    ensures
        body is Ok,
        body.unwrap()@ == batch_body(message_ids.deep_view()),
{
    let ghost ids = message_ids.deep_view();
    let mut body = String::new();
    let mut index: usize = 0;
    while index < message_ids.len()
        invariant
            index <= message_ids.len(),
            ids == message_ids.deep_view(),
            body@ == batch_parts(ids.take(index as int)),
        decreases message_ids.len() - index,
    {
        proof {
            vstd::slice::axiom_slice_get_usize(message_ids, index);
            assert(ids.take(index + 1).drop_last() == ids.take(index as int));
        }
        match message_ids.get(index) {
            Some(message_id) => {
                body.append("--");
                body.append(BATCH_BOUNDARY);
                body.append("\nContent-Type: application/http\n\nGET /gmail/v1/users/me/messages/");
                body.append(message_id.as_str());
                body.append("?full HTTP/1.1\n");
            },
            None => {
                return Err(BatchError::MalformedInput { index });
            },
        }
        index += 1;
    }
    assert(ids.take(index as int) == ids);
    body.append("\n--");
    body.append(BATCH_BOUNDARY);
    body.append("--");
    Ok(body)
}

/// The first of `lines` that is not empty.
pub open spec fn first_nonempty(lines: Seq<Seq<char>>) -> Option<Seq<char>>
    decreases lines.len(),
{
    if lines.len() == 0 {
        None
    } else if lines.first().len() > 0 {
        Some(lines.first())
    } else {
        first_nonempty(lines.drop_first())
    }
}

/// The boundary of a batch response: its first line that is not empty, where lines end
/// in a carriage return and a line feed.
pub open spec fn response_boundary(raw: Seq<char>) -> Option<Seq<char>> {
    first_nonempty(split(raw, "\r\n"@))
}

/// The document that a part of a batch response carries: what stands from the first
/// opening brace to the end of the part. What precedes the brace is not looked at, and
/// nothing is cut off after the document, so a part that goes on after its document
/// carries one that a strict decoder will refuse.
pub open spec fn embedded_document(part: Seq<char>) -> Option<Seq<char>> {
    match find(part, seq!['{']) {
        Some(at) => Some(part.skip(at)),
        None => None,
    }
}

/// The documents that `parts` carry, in order; a part without an opening brace carries
/// none.
pub open spec fn embedded_documents(parts: Seq<Seq<char>>) -> Seq<Seq<char>> {
    parts.filter_map(|part: Seq<char>| embedded_document(part))
}

/// The documents in a batch response, in order; `None` where it has no boundary.
pub open spec fn documents_of(raw: Seq<char>) -> Option<Seq<Seq<char>>> {
    match response_boundary(raw) {
        Some(boundary) => Some(embedded_documents(split(raw, boundary))),
        None => None,
    }
}

/// A response made up as the mail service makes it up yields the documents embedded in
/// its pieces: the pieces are put together around a marker, the response opens with the
/// marker on a line of its own, and the marker turns up nowhere but between the pieces.
pub proof fn lemma_joined_pieces_yield_their_documents(marker: Seq<char>, pieces: Seq<Seq<char>>)
    requires
        marker.len() > 0,
        find(marker, "\r\n"@) is None,
        pieces.len() >= 2,
        pieces[0].len() == 0,
        "\r\n"@.is_prefix_of(pieces[1]),
        forall|i: int|
            0 <= i < pieces.len() - 1 ==> find(#[trigger] pieces[i] + marker, marker) == Some(
                pieces[i].len() as int,
            ),
        find(pieces.last(), marker) is None,
    ensures
        response_boundary(join(pieces, marker)) == Some(marker),
        documents_of(join(pieces, marker)) == Some(embedded_documents(pieces)),
{
    reveal_strlit("\r\n");
    let line_end = "\r\n"@;
    let response = join(pieces, marker);
    let tail = pieces.drop_first();
    let rest = join(tail, marker);
    let length = marker.len() as int;
    assert(line_end.len() == 2 && line_end[0] == '\r' && line_end[1] == '\n');
    assert(tail.first() == pieces[1]);
    assert(line_end.is_prefix_of(rest)) by {
        if tail.len() > 1 {
            assert(rest == tail.first() + marker + join(tail.drop_first(), marker));
        }
    }
    assert(response == pieces.first() + marker + rest);
    assert(response == marker + rest);
    assert(response.subrange(0, length) == marker);
    assert(response.subrange(length, length + 2) == line_end);
    assert(response[length] == response.subrange(length, length + 2)[0]);
    lemma_find_from_is_first(marker, line_end, 0);
    lemma_find_from_is_first(response, line_end, 0);
    assert forall|earlier: int| 0 <= earlier < length implies !occurs_at(
        response,
        line_end,
        earlier,
    ) by {
        if earlier + 2 <= length {
            assert(!occurs_at(marker, line_end, earlier));
            assert(marker.subrange(earlier, earlier + 2) == response.subrange(
                earlier,
                earlier + 2,
            ));
        } else {
            assert(response.subrange(earlier, earlier + 2)[1] == response[length]);
        }
    }
    assert(occurs_at(response, line_end, length));
    assert(find(response, line_end) == Some(length));
    assert(split(response, line_end).first() == marker);
    lemma_split_undoes_join(pieces, marker);
}

/// The first of `lines` that is not empty.
fn first_nonempty_span(text: &[char], lines: &Vec<Span>) -> (found: Option<Span>)
    requires
        forall|i: int| 0 <= i < lines.len() ==> (#[trigger] lines[i]).within(text@),
    ensures
        match found {
            Some(span) => span.within(text@) && span.start < span.end && first_nonempty(
                spans_of(text@, lines@),
            ) == Some(span.of(text@)),
            None => first_nonempty(spans_of(text@, lines@)) is None,
        },
{
    let mut index: usize = 0;
    assert(lines@.skip(0) == lines@);
    while index < lines.len()
        invariant
            index <= lines.len(),
            forall|i: int| 0 <= i < lines.len() ==> (#[trigger] lines[i]).within(text@),
            first_nonempty(spans_of(text@, lines@)) == first_nonempty(
                spans_of(text@, lines@.skip(index as int)),
            ),
        decreases lines.len() - index,
    {
        let span = lines[index];
        proof {
            let rest = spans_of(text@, lines@.skip(index as int));
            assert(rest.drop_first() == spans_of(text@, lines@.skip(index + 1)));
        }
        if span.start < span.end {
            return Some(span);
        }
        index += 1;
    }
    None
}

/// Takes the documents out of a batch response.
pub fn batch_documents(raw: &str) -> (documents: Result<Vec<String>, BatchError>)
    ensures
        match documents {
            Ok(found) => documents_of(raw@) == Some(found.deep_view()),
            Err(error) => error == BatchError::MissingBoundary && documents_of(raw@) is None,
        },
{
    let chars = chars_of(raw);
    let text = chars.as_slice();
    let line_end = chars_of("\r\n");
    let lines = split_spans(text, line_end.as_slice());
    let boundary = match first_nonempty_span(text, &lines) {
        Some(span) => slice_subrange(text, span.start, span.end),
        None => {
            return Err(BatchError::MissingBoundary);
        },
    };
    let mut brace: Vec<char> = Vec::new();
    brace.push('{');
    let parts = split_spans(text, boundary);
    let mut documents: Vec<String> = Vec::new();
    let mut index: usize = 0;
    while index < parts.len()
        invariant
            index <= parts.len(),
            text@ == raw@,
            brace@ == seq!['{'],
            forall|i: int| 0 <= i < parts.len() ==> (#[trigger] parts[i]).within(text@),
            documents.deep_view() == embedded_documents(
                spans_of(text@, parts@.take(index as int)),
            ),
        decreases parts.len() - index,
    {
        let span = parts[index];
        let part = slice_subrange(text, span.start, span.end);
        proof {
            let seen = spans_of(text@, parts@.take(index + 1));
            assert(seen.drop_last() == spans_of(text@, parts@.take(index as int)));
        }
        if let Some(at) = find_in(part, brace.as_slice(), 0) {
            proof {
                lemma_find_from_is_first(part@, brace@, 0);
            }
            let document = raw.substring_char(span.start + at, span.end).to_owned();
            assert(document@ == part@.skip(at as int));
            documents.push(document);
        }
        index += 1;
    }
    assert(parts@.take(index as int) == parts@);
    Ok(documents)
}

/// One document of a batch response and what came of decoding it.
#[derive(Debug, PartialEq, Eq)]
pub struct DecodeAttempt<T> {
    pub document: String,
    /// The decoded value; `None` where the document was refused.
    pub outcome: Option<T>,
}

/// What a batch response yielded.
#[derive(Debug, PartialEq, Eq)]
pub struct BatchDecoded<T> {
    /// The values that were decoded, in the order of their parts.
    pub values: Vec<T>,
    /// The documents that were refused, in the order of their parts.
    pub malformed: Vec<String>,
}

/// The values that were decoded, in order.
pub open spec fn accepted<T>(attempts: Seq<DecodeAttempt<T>>) -> Seq<T> {
    attempts.filter_map(|attempt: DecodeAttempt<T>| attempt.outcome)
}

/// The documents that were refused, in order.
pub open spec fn refused<T>(attempts: Seq<DecodeAttempt<T>>) -> Seq<Seq<char>> {
    attempts.filter_map(
        |attempt: DecodeAttempt<T>|
            if attempt.outcome is None {
                Some(attempt.document@)
            } else {
                None
            },
    )
}

/// The documents that were tried, in order.
pub open spec fn attempted<T>(attempts: Seq<DecodeAttempt<T>>) -> Seq<Seq<char>> {
    attempts.map_values(|attempt: DecodeAttempt<T>| attempt.document@)
}

/// Every document that was tried was either decoded or refused: none goes missing, and
/// there are as many values fewer than documents as documents were refused.
pub proof fn lemma_every_attempt_is_accounted_for<T>(attempts: Seq<DecodeAttempt<T>>)
    ensures
        accepted(attempts).len() + refused(attempts).len() == attempts.len(),
    decreases attempts.len(),
{
    if attempts.len() > 0 {
        lemma_every_attempt_is_accounted_for(attempts.drop_last());
    }
}

/// Every document taken out of a batch response opens with a brace.
pub proof fn lemma_documents_open_with_a_brace(parts: Seq<Seq<char>>, index: int)
    requires
        0 <= index < embedded_documents(parts).len(),
    ensures
        embedded_documents(parts)[index].len() > 0,
        embedded_documents(parts)[index].first() == '{',
    decreases parts.len(),
{
    let rest = embedded_documents(parts.drop_last());
    match embedded_document(parts.last()) {
        Some(document) => {
            if index < rest.len() {
                lemma_documents_open_with_a_brace(parts.drop_last(), index);
            } else {
                lemma_find_from_is_first(parts.last(), seq!['{'], 0);
                let at = find(parts.last(), seq!['{']).unwrap();
                assert(parts.last().subrange(at, at + 1)[0] == '{');
            }
        },
        None => {
            lemma_documents_open_with_a_brace(parts.drop_last(), index);
        },
    }
}

/// Sorts the attempts into the values decoded and the documents refused. A refused
/// document is set aside and never fails the batch.
pub fn collect_decoded<T>(attempts: Vec<DecodeAttempt<T>>) -> (decoded: BatchDecoded<T>)
    ensures
        decoded.values@ == accepted(attempts@),
        decoded.malformed.deep_view() == refused(attempts@),
{
    let mut values: Vec<T> = Vec::new();
    let mut malformed: Vec<String> = Vec::new();
    let ghost all = attempts@;
    for attempt in it: attempts.into_iter()
        invariant
            it.seq() == all,
            values@ == accepted(all.take(it.index() as int)),
            malformed.deep_view() == refused(all.take(it.index() as int)),
    {
        proof {
            assert(all.take(it.index() + 1).drop_last() == all.take(it.index() as int));
        }
        match attempt.outcome {
            Some(value) => {
                values.push(value);
            },
            None => {
                malformed.push(attempt.document);
            },
        }
    }
    assert(all.take(all.len() as int) == all);
    BatchDecoded { values, malformed }
}

/// Reads a batch response: takes its documents out and hands each to `decode`. The
/// values come back in the order of their parts; a document that `decode` refuses is
/// set aside, so there may be fewer values than messages were asked for.
pub fn deserialize_batch_response<T, F>(raw: &str, decode: F) -> (decoded: Result<
    BatchDecoded<T>,
    BatchError,
>) where F: Fn(&String) -> Option<T>
    requires
        forall|document: &String| call_requires(decode, (document,)),
    ensures
        match decoded {
            Ok(decoded) => exists|attempts: Seq<DecodeAttempt<T>>|
                {
                    &&& documents_of(raw@) == Some(#[trigger] attempted(attempts))
                    &&& forall|i: int|
                        0 <= i < attempts.len() ==> call_ensures(
                            decode,
                            (&attempts[i].document,),
                            #[trigger] attempts[i].outcome,
                        )
                    &&& decoded.values@ == accepted(attempts)
                    &&& decoded.malformed.deep_view() == refused(attempts)
                },
            Err(error) => error == BatchError::MissingBoundary && documents_of(raw@) is None,
        },
{
    let documents = match batch_documents(raw) {
        Ok(documents) => documents,
        Err(error) => {
            return Err(error);
        },
    };
    let mut attempts: Vec<DecodeAttempt<T>> = Vec::new();
    let ghost all = documents@;
    for document in it: documents.into_iter()
        invariant
            it.seq() == all,
            forall|document: &String| call_requires(decode, (document,)),
            attempts.len() == it.index(),
            forall|i: int|
                0 <= i < attempts.len() ==> (#[trigger] attempts[i]).document == all[i],
            forall|i: int|
                0 <= i < attempts.len() ==> call_ensures(
                    decode,
                    (&attempts[i].document,),
                    #[trigger] attempts[i].outcome,
                ),
    {
        let outcome = decode(&document);
        attempts.push(DecodeAttempt { document, outcome });
    }
    assert(attempted(attempts@) == documents.deep_view());
    Ok(collect_decoded(attempts))
}

} // verus!
