//! Answering a query.
//!
//! A query alternates with outside work. Each call of [`AbciApp::query`] takes
//! what happened and says what to do next, until it says what to respond.

use crate::abci::{RequestQuery, ResponseQuery, ResponseQueryView};
use crate::bridge::AbciApp;
use crate::outcome::{bytes_or_text, value_or_text};
use vstd::prelude::*;

verus! {

/// What happened in the course of a query. `E` is the type of signed envelopes.
#[derive(Debug, PartialEq, Eq)]
pub enum QueryEvent<E> {
    /// The query came in.
    Received(RequestQuery),
    /// Its bytes were read as an envelope.
    EnvelopeDecoded(Result<E, String>),
    /// The server replied with an envelope.
    Replied(Result<E, String>),
    /// The reply was written out.
    ReplyEncoded(Result<Vec<u8>, String>),
}

/// What to do next in the course of a query.
#[derive(Debug, PartialEq, Eq)]
pub enum QueryAction<E> {
    /// Read these bytes as an envelope.
    DecodeEnvelope(Vec<u8>),
    /// Send the envelope to the server at this address.
    Send { omni_url: String, envelope: E },
    /// Write this reply out.
    EncodeReply(E),
    /// The query is over: answer this.
    Respond(ResponseQuery),
}

/// View of [`QueryEvent`].
pub ghost enum QueryEventView<E> {
    Received(Seq<u8>),
    EnvelopeDecoded(Result<E, Seq<char>>),
    Replied(Result<E, Seq<char>>),
    ReplyEncoded(Result<Seq<u8>, Seq<char>>),
}

/// View of [`QueryAction`].
pub ghost enum QueryActionView<E> {
    DecodeEnvelope(Seq<u8>),
    Send { omni_url: Seq<char>, envelope: E },
    EncodeReply(E),
    Respond(ResponseQueryView),
}

impl<E> View for QueryEvent<E> {
    type V = QueryEventView<E>;

    open spec fn view(&self) -> QueryEventView<E> {
        match *self {
            QueryEvent::Received(request) => QueryEventView::Received(request.data@),
            QueryEvent::EnvelopeDecoded(outcome) => QueryEventView::EnvelopeDecoded(
                value_or_text(outcome),
            ),
            QueryEvent::Replied(outcome) => QueryEventView::Replied(value_or_text(outcome)),
            QueryEvent::ReplyEncoded(outcome) => QueryEventView::ReplyEncoded(
                bytes_or_text(outcome),
            ),
        }
    }
}

impl<E> View for QueryAction<E> {
    type V = QueryActionView<E>;

    open spec fn view(&self) -> QueryActionView<E> {
        match *self {
            QueryAction::DecodeEnvelope(bytes) => QueryActionView::DecodeEnvelope(bytes@),
            QueryAction::Send { omni_url, envelope } => QueryActionView::Send {
                omni_url: omni_url@,
                envelope,
            },
            QueryAction::EncodeReply(reply) => QueryActionView::EncodeReply(reply),
            QueryAction::Respond(response) => QueryActionView::Respond(response@),
        }
    }
}

/// A response with this code and this log.
pub open spec fn query_refused(code: u32, log: Seq<char>) -> ResponseQueryView {
    ResponseQueryView { code, log, ..ResponseQueryView::empty() }
}

/// A response of success with this value.
pub open spec fn query_answered(value: Seq<u8>) -> ResponseQueryView {
    ResponseQueryView { value, ..ResponseQueryView::empty() }
}

/// What follows an event, with the application server at `omni_url`.
pub open spec fn query_step<E>(omni_url: Seq<char>, event: QueryEventView<E>) -> QueryActionView<
    E,
> {
    match event {
        QueryEventView::Received(data) => QueryActionView::DecodeEnvelope(data),
        QueryEventView::EnvelopeDecoded(Ok(envelope)) => QueryActionView::Send {
            omni_url,
            envelope,
        },
        QueryEventView::EnvelopeDecoded(Err(text)) => QueryActionView::Respond(
            query_refused(2, text),
        ),
        QueryEventView::Replied(Ok(reply)) => QueryActionView::EncodeReply(reply),
        QueryEventView::Replied(Err(text)) => QueryActionView::Respond(query_refused(3, text)),
        QueryEventView::ReplyEncoded(Ok(value)) => QueryActionView::Respond(query_answered(value)),
        QueryEventView::ReplyEncoded(Err(text)) => QueryActionView::Respond(query_refused(1, text)),
    }
}

impl AbciApp {
    /// Says what follows an event in the course of a query.
    ///
    /// The response's code is zero where the server's reply could be handed on,
    /// two where the query is no envelope, three where the server could not be
    /// asked and one where its reply could not be written out.
    pub fn query<E>(&self, event: QueryEvent<E>) -> (action: QueryAction<E>)
        ensures
            action@ == query_step(self@.omni_url, event@),
    {
        match event {
            QueryEvent::Received(request) => QueryAction::DecodeEnvelope(request.data),
            QueryEvent::EnvelopeDecoded(Ok(envelope)) => QueryAction::Send {
                omni_url: self.omni_url().to_owned(),
                envelope,
            },
            QueryEvent::EnvelopeDecoded(Err(text)) => QueryAction::Respond(
                ResponseQuery { code: 2, log: text, ..Default::default() },
            ),
            QueryEvent::Replied(Ok(reply)) => QueryAction::EncodeReply(reply),
            QueryEvent::Replied(Err(text)) => QueryAction::Respond(
                ResponseQuery { code: 3, log: text, ..Default::default() },
            ),
            QueryEvent::ReplyEncoded(Ok(value)) => QueryAction::Respond(
                ResponseQuery { code: 0, value, ..Default::default() },
            ),
            QueryEvent::ReplyEncoded(Err(text)) => QueryAction::Respond(
                ResponseQuery { code: 1, log: text, ..Default::default() },
            ),
        }
    }
}

/// How outside work turns out in the course of one query.
#[verifier::reject_recursive_types(E)]
pub ghost struct QueryWork<E> {
    /// Reading bytes as an envelope.
    pub decode_envelope: spec_fn(Seq<u8>) -> Result<E, Seq<char>>,
    /// Sending an envelope to an address, and the reply.
    pub send: spec_fn(Seq<char>, E) -> Result<E, Seq<char>>,
    /// Writing an envelope out.
    pub encode_reply: spec_fn(E) -> Result<Seq<u8>, Seq<char>>,
}

impl<E> QueryEventView<E> {
    /// How many rounds of outside work may still follow the event.
    pub open spec fn rounds_left(self) -> nat {
        match self {
            QueryEventView::Received(_) => 3,
            QueryEventView::EnvelopeDecoded(_) => 2,
            QueryEventView::Replied(_) => 1,
            QueryEventView::ReplyEncoded(_) => 0,
        }
    }
}

/// The response that a query comes to from an event on, where each action is
/// performed and its outcome handed back as the next event.
pub open spec fn query_run<E>(
    omni_url: Seq<char>,
    work: QueryWork<E>,
    event: QueryEventView<E>,
) -> ResponseQueryView
    decreases event.rounds_left(),
{
    match query_step(omni_url, event) {
        QueryActionView::DecodeEnvelope(bytes) => query_run(
            omni_url,
            work,
            QueryEventView::EnvelopeDecoded((work.decode_envelope)(bytes)),
        ),
        QueryActionView::Send { omni_url: address, envelope } => query_run(
            omni_url,
            work,
            QueryEventView::Replied((work.send)(address, envelope)),
        ),
        QueryActionView::EncodeReply(reply) => query_run(
            omni_url,
            work,
            QueryEventView::ReplyEncoded((work.encode_reply)(reply)),
        ),
        QueryActionView::Respond(response) => response,
    }
}

/// A query answers with the server's reply, written out; with code two and the
/// reason where the query is no envelope; with code three and the reason where
/// the server could not be asked; with code one and the reason where the reply
/// could not be written out.
pub proof fn query_answers<E>(omni_url: Seq<char>, work: QueryWork<E>, data: Seq<u8>)
    ensures
        query_run(omni_url, work, QueryEventView::Received(data)) == (match (work.decode_envelope)(
            data,
        ) {
            Err(text) => query_refused(2, text),
            Ok(envelope) => match (work.send)(omni_url, envelope) {
                Err(text) => query_refused(3, text),
                Ok(reply) => match (work.encode_reply)(reply) {
                    Err(text) => query_refused(1, text),
                    Ok(value) => query_answered(value),
                },
            },
        }),
{
    reveal_with_fuel(query_run, 4);
}

/// The code of a query's answer tells how the query went.
pub proof fn query_code_tells<E>(omni_url: Seq<char>, work: QueryWork<E>, data: Seq<u8>)
    ensures
        ({
            let code = query_run(omni_url, work, QueryEventView::Received(data)).code;
            let decoded = (work.decode_envelope)(data);
            let replied = (work.send)(omni_url, decoded->Ok_0);
            let encoded = (work.encode_reply)(replied->Ok_0);
            &&& code == 2 <==> decoded is Err
            &&& code == 3 <==> decoded is Ok && replied is Err
            &&& code == 1 <==> decoded is Ok && replied is Ok && encoded is Err
            &&& code == 0 <==> decoded is Ok && replied is Ok && encoded is Ok
        }),
{
    query_answers(omni_url, work, data);
}

/// What is read out of a query, and what the server replies, is handed on as it
/// is: the query's bytes to be read, the envelope to the application's server, the
/// reply to be written out.
pub proof fn query_hands_envelopes_on<E>(
    app: AbciApp,
    event: QueryEvent<E>,
    action: QueryAction<E>,
)
    requires
        call_ensures(AbciApp::query::<E>, (&app, event), action),
    ensures
        event matches QueryEvent::Received(request) ==> (action matches QueryAction::DecodeEnvelope(
            bytes,
        ) && bytes@ == request.data@),
        event matches QueryEvent::EnvelopeDecoded(Ok(read)) ==> (action matches QueryAction::Send {
            omni_url,
            envelope,
        } && omni_url@ == app@.omni_url && envelope == read),
        event matches QueryEvent::Replied(Ok(reply)) ==> action == QueryAction::EncodeReply(reply),
{
}

/// The answer to a query that succeeds holds what the reply was written out as,
/// byte for byte, and nothing else.
pub proof fn query_value_is_the_reply<E>(app: AbciApp, value: Vec<u8>, action: QueryAction<E>)
    requires
        call_ensures(AbciApp::query::<E>, (&app, QueryEvent::ReplyEncoded(Ok(value))), action),
    ensures
        ({
            &&& action matches QueryAction::Respond(response)
            &&& response.code == 0
            &&& response.value@ == value@
            &&& response.log@.len() == 0
            &&& response.info@.len() == 0
            &&& response.index == 0
            &&& response.key@.len() == 0
            &&& response.proof_ops is None
            &&& response.height == 0
            &&& response.codespace@.len() == 0
        }),
{
}

/// The answer to a query that fails holds the reason, character for character,
/// and a code for the kind of failure, and nothing else.
pub proof fn query_log_is_the_reason<E>(
    app: AbciApp,
    event: QueryEvent<E>,
    code: u32,
    text: String,
    action: QueryAction<E>,
)
    requires
        ({
            ||| event == QueryEvent::<E>::EnvelopeDecoded(Err(text)) && code == 2
            ||| event == QueryEvent::<E>::Replied(Err(text)) && code == 3
            ||| event == QueryEvent::<E>::ReplyEncoded(Err(text)) && code == 1
        }),
        call_ensures(AbciApp::query::<E>, (&app, event), action),
    ensures
        ({
            &&& action matches QueryAction::Respond(response)
            &&& response.code == code
            &&& response.log@ == text@
            &&& response.value@.len() == 0
            &&& response.info@.len() == 0
            &&& response.index == 0
            &&& response.key@.len() == 0
            &&& response.proof_ops is None
            &&& response.height == 0
            &&& response.codespace@.len() == 0
        }),
{
}

/// Over a whole query, the value answered is what the server's reply was written
/// out as, and the log is the reason of the first thing that failed; there is
/// never both a value and a reason.
pub proof fn query_answer_is_what_came<E>(omni_url: Seq<char>, work: QueryWork<E>, data: Seq<u8>)
    ensures
        ({
            let response = query_run(omni_url, work, QueryEventView::Received(data));
            match (work.decode_envelope)(data) {
                Err(text) => response.code == 2 && response.log == text && response.value.len()
                    == 0,
                Ok(envelope) => match (work.send)(omni_url, envelope) {
                    Err(text) => response.code == 3 && response.log == text && response.value.len()
                        == 0,
                    Ok(reply) => match (work.encode_reply)(reply) {
                        Err(text) => response.code == 1 && response.log == text
                            && response.value.len() == 0,
                        Ok(value) => response.code == 0 && response.value == value
                            && response.log.len() == 0,
                    },
                },
            }
        }),
{
    query_answers(omni_url, work, data);
}

/// Two queries that succeed are given the same answer exactly where their replies
/// were written out alike.
pub proof fn queries_tell_replies_apart<E>(
    app: AbciApp,
    here: Vec<u8>,
    there: Vec<u8>,
    here_action: QueryAction<E>,
    there_action: QueryAction<E>,
)
    requires
        call_ensures(AbciApp::query::<E>, (&app, QueryEvent::ReplyEncoded(Ok(here))), here_action),
        call_ensures(AbciApp::query::<E>, (&app, QueryEvent::ReplyEncoded(Ok(there))), there_action),
    ensures
        here_action@ == there_action@ <==> here@ == there@,
{
    query_value_is_the_reply(app, here, here_action);
    query_value_is_the_reply(app, there, there_action);
}

} // verus!
