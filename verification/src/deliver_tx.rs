//! Delivering a transaction.
//!
//! A delivery alternates with outside work. Each call of
//! [`AbciApp::deliver_tx`] takes what happened and says what to do next, until
//! it says what to respond.

use crate::abci::{RequestDeliverTx, ResponseDeliverTx, ResponseDeliverTxView, Timestamp};
use crate::bridge::AbciApp;
use crate::omni::{Identity, ResponseMessage};
use crate::outcome::{bytes_or_text, optional_bytes_or_text, value_or_text};
use vstd::prelude::*;

verus! {

/// What happened in the course of a delivery. `E` is the type of signed
/// envelopes, `B` that of the bodies of response messages.
#[derive(Debug, PartialEq, Eq)]
pub enum DeliverTxEvent<E, B> {
    /// The transaction came in.
    Received(RequestDeliverTx),
    /// Its bytes were read as an envelope.
    EnvelopeDecoded(Result<E, String>),
    /// The server replied with an envelope that has this payload.
    Replied(Result<Option<Vec<u8>>, String>),
    /// The payload was read as a response message.
    ResponseDecoded(Result<ResponseMessage<B>, String>),
    /// A response message was written out.
    ResponseEncoded(Result<Vec<u8>, String>),
}

/// What to do next in the course of a delivery.
#[derive(Debug, PartialEq, Eq)]
pub enum DeliverTxAction<E, B> {
    /// Read these bytes as an envelope.
    DecodeEnvelope(Vec<u8>),
    /// Send the envelope to the server at this address.
    Send { omni_url: String, envelope: E },
    /// Read these bytes as a response message.
    DecodeResponse(Vec<u8>),
    /// Write this response message out.
    EncodeResponse(ResponseMessage<B>),
    /// The delivery is over: answer this.
    Respond(ResponseDeliverTx),
}

/// View of [`DeliverTxEvent`].
pub ghost enum DeliverTxEventView<E, B> {
    Received(Seq<u8>),
    EnvelopeDecoded(Result<E, Seq<char>>),
    Replied(Result<Option<Seq<u8>>, Seq<char>>),
    ResponseDecoded(Result<ResponseMessage<B>, Seq<char>>),
    ResponseEncoded(Result<Seq<u8>, Seq<char>>),
}

/// View of [`DeliverTxAction`].
pub ghost enum DeliverTxActionView<E, B> {
    DecodeEnvelope(Seq<u8>),
    Send { omni_url: Seq<char>, envelope: E },
    DecodeResponse(Seq<u8>),
    EncodeResponse(ResponseMessage<B>),
    Respond(ResponseDeliverTxView),
}

impl<E, B> View for DeliverTxEvent<E, B> {
    type V = DeliverTxEventView<E, B>;

    open spec fn view(&self) -> DeliverTxEventView<E, B> {
        match *self {
            DeliverTxEvent::Received(request) => DeliverTxEventView::Received(request.tx@),
            DeliverTxEvent::EnvelopeDecoded(outcome) => DeliverTxEventView::EnvelopeDecoded(
                value_or_text(outcome),
            ),
            DeliverTxEvent::Replied(outcome) => DeliverTxEventView::Replied(
                optional_bytes_or_text(outcome),
            ),
            DeliverTxEvent::ResponseDecoded(outcome) => DeliverTxEventView::ResponseDecoded(
                value_or_text(outcome),
            ),
            DeliverTxEvent::ResponseEncoded(outcome) => DeliverTxEventView::ResponseEncoded(
                bytes_or_text(outcome),
            ),
        }
    }
}

impl<E, B> View for DeliverTxAction<E, B> {
    type V = DeliverTxActionView<E, B>;

    open spec fn view(&self) -> DeliverTxActionView<E, B> {
        match *self {
            DeliverTxAction::DecodeEnvelope(bytes) => DeliverTxActionView::DecodeEnvelope(bytes@),
            DeliverTxAction::Send { omni_url, envelope } => DeliverTxActionView::Send {
                omni_url: omni_url@,
                envelope,
            },
            DeliverTxAction::DecodeResponse(bytes) => DeliverTxActionView::DecodeResponse(bytes@),
            DeliverTxAction::EncodeResponse(message) => DeliverTxActionView::EncodeResponse(
                message,
            ),
            DeliverTxAction::Respond(response) => DeliverTxActionView::Respond(response@),
        }
    }
}

/// A response with this code and this log.
pub open spec fn tx_refused(code: u32, log: Seq<char>) -> ResponseDeliverTxView {
    ResponseDeliverTxView { code, log, ..ResponseDeliverTxView::empty() }
}

/// A response of success with this data.
pub open spec fn tx_delivered(data: Seq<u8>) -> ResponseDeliverTxView {
    ResponseDeliverTxView { data, ..ResponseDeliverTxView::empty() }
}

/// The body of the response message that a reply's payload holds: none where the
/// payload is no response message.
pub open spec fn body_or_default<B>(outcome: Result<ResponseMessage<B>, Seq<char>>) -> Option<B> {
    match outcome {
        Ok(message) => message.body,
        Err(_) => None,
    }
}

/// What follows an event, with the application server at `omni_url`.
pub open spec fn deliver_tx_step<E, B>(
    omni_url: Seq<char>,
    event: DeliverTxEventView<E, B>,
) -> DeliverTxActionView<E, B> {
    match event {
        DeliverTxEventView::Received(tx) => DeliverTxActionView::DecodeEnvelope(tx),
        DeliverTxEventView::EnvelopeDecoded(Ok(envelope)) => DeliverTxActionView::Send {
            omni_url,
            envelope,
        },
        DeliverTxEventView::EnvelopeDecoded(Err(text)) => DeliverTxActionView::Respond(
            tx_refused(2, text),
        ),
        DeliverTxEventView::Replied(Ok(Some(payload))) => DeliverTxActionView::DecodeResponse(
            payload,
        ),
        DeliverTxEventView::Replied(Ok(None)) => DeliverTxActionView::DecodeResponse(Seq::empty()),
        DeliverTxEventView::Replied(Err(text)) => DeliverTxActionView::Respond(tx_refused(1, text)),
        DeliverTxEventView::ResponseDecoded(outcome) => DeliverTxActionView::EncodeResponse(
            ResponseMessage::canonical(body_or_default(outcome)),
        ),
        DeliverTxEventView::ResponseEncoded(Ok(data)) => DeliverTxActionView::Respond(
            tx_delivered(data),
        ),
        DeliverTxEventView::ResponseEncoded(Err(_)) => DeliverTxActionView::Respond(
            tx_refused(3, Seq::empty()),
        ),
    }
}

impl AbciApp {
    /// Says what follows an event in the course of a delivery.
    ///
    /// The response's code is zero where the server's response could be handed
    /// on, two where the transaction is no envelope, one where the server could
    /// not be asked and three where its response could not be written out.
    pub fn deliver_tx<E, B>(&self, event: DeliverTxEvent<E, B>) -> (action: DeliverTxAction<E, B>)
        ensures
            action@ == deliver_tx_step(self@.omni_url, event@),
    {
        match event {
            DeliverTxEvent::Received(request) => DeliverTxAction::DecodeEnvelope(request.tx),
            DeliverTxEvent::EnvelopeDecoded(Ok(envelope)) => DeliverTxAction::Send {
                omni_url: self.omni_url().to_owned(),
                envelope,
            },
            DeliverTxEvent::EnvelopeDecoded(Err(text)) => DeliverTxAction::Respond(
                ResponseDeliverTx { code: 2, log: text, ..Default::default() },
            ),
            DeliverTxEvent::Replied(Ok(payload)) => DeliverTxAction::DecodeResponse(
                match payload {
                    Some(bytes) => bytes,
                    None => Vec::new(),
                },
            ),
            DeliverTxEvent::Replied(Err(text)) => DeliverTxAction::Respond(
                ResponseDeliverTx { code: 1, log: text, ..Default::default() },
            ),
            DeliverTxEvent::ResponseDecoded(outcome) => {
                let message = match outcome {
                    Ok(message) => message,
                    Err(_) => ResponseMessage::default(),
                };
                DeliverTxAction::EncodeResponse(message.canonicalize())
            },
            DeliverTxEvent::ResponseEncoded(Ok(data)) => DeliverTxAction::Respond(
                ResponseDeliverTx { code: 0, data, ..Default::default() },
            ),
            DeliverTxEvent::ResponseEncoded(Err(_)) => DeliverTxAction::Respond(
                ResponseDeliverTx { code: 3, ..Default::default() },
            ),
        }
    }
}

/// How outside work turns out in the course of one delivery.
#[verifier::reject_recursive_types(E)]
#[verifier::reject_recursive_types(B)]
pub ghost struct DeliverTxWork<E, B> {
    /// Reading bytes as an envelope.
    pub decode_envelope: spec_fn(Seq<u8>) -> Result<E, Seq<char>>,
    /// Sending an envelope to an address, and the payload of the reply.
    pub send: spec_fn(Seq<char>, E) -> Result<Option<Seq<u8>>, Seq<char>>,
    /// Reading bytes as a response message.
    pub decode_response: spec_fn(Seq<u8>) -> Result<ResponseMessage<B>, Seq<char>>,
    /// Writing a response message out.
    pub encode_response: spec_fn(ResponseMessage<B>) -> Result<Seq<u8>, Seq<char>>,
}

impl<E, B> DeliverTxEventView<E, B> {
    /// How many rounds of outside work may still follow the event.
    pub open spec fn rounds_left(self) -> nat {
        match self {
            DeliverTxEventView::Received(_) => 4,
            DeliverTxEventView::EnvelopeDecoded(_) => 3,
            DeliverTxEventView::Replied(_) => 2,
            DeliverTxEventView::ResponseDecoded(_) => 1,
            DeliverTxEventView::ResponseEncoded(_) => 0,
        }
    }
}

/// The response that a delivery comes to from an event on, where each action is
/// performed and its outcome handed back as the next event.
pub open spec fn deliver_tx_run<E, B>(
    omni_url: Seq<char>,
    work: DeliverTxWork<E, B>,
    event: DeliverTxEventView<E, B>,
) -> ResponseDeliverTxView
    decreases event.rounds_left(),
{
    match deliver_tx_step(omni_url, event) {
        DeliverTxActionView::DecodeEnvelope(bytes) => deliver_tx_run(
            omni_url,
            work,
            DeliverTxEventView::EnvelopeDecoded((work.decode_envelope)(bytes)),
        ),
        DeliverTxActionView::Send { omni_url: address, envelope } => deliver_tx_run(
            omni_url,
            work,
            DeliverTxEventView::Replied((work.send)(address, envelope)),
        ),
        DeliverTxActionView::DecodeResponse(bytes) => deliver_tx_run(
            omni_url,
            work,
            DeliverTxEventView::ResponseDecoded((work.decode_response)(bytes)),
        ),
        DeliverTxActionView::EncodeResponse(message) => deliver_tx_run(
            omni_url,
            work,
            DeliverTxEventView::ResponseEncoded((work.encode_response)(message)),
        ),
        DeliverTxActionView::Respond(response) => response,
    }
}

/// The body that a reply's payload holds, an absent payload being empty.
pub open spec fn reply_body<E, B>(work: DeliverTxWork<E, B>, payload: Option<Seq<u8>>) -> Option<
    B,
> {
    body_or_default(
        (work.decode_response)(
            match payload {
                Some(bytes) => bytes,
                None => Seq::empty(),
            },
        ),
    )
}

/// A delivery answers with the server's response in canonical form, written out;
/// with code two and the reason where the transaction is no envelope; with code
/// one and the reason where the server could not be asked; with code three and
/// no reason where the response could not be written out.
pub proof fn deliver_tx_answers<E, B>(
    omni_url: Seq<char>,
    work: DeliverTxWork<E, B>,
    tx: Seq<u8>,
)
    ensures
        deliver_tx_run(omni_url, work, DeliverTxEventView::Received(tx)) == (match (
        work.decode_envelope)(tx) {
            Err(text) => tx_refused(2, text),
            Ok(envelope) => match (work.send)(omni_url, envelope) {
                Err(text) => tx_refused(1, text),
                Ok(payload) => match (work.encode_response)(
                    ResponseMessage::canonical(reply_body(work, payload)),
                ) {
                    Err(_) => tx_refused(3, Seq::empty()),
                    Ok(data) => tx_delivered(data),
                },
            },
        }),
{
    reveal_with_fuel(deliver_tx_run, 5);
}

/// The code of a delivery's answer tells how the delivery went.
pub proof fn delivery_code_tells<E, B>(omni_url: Seq<char>, work: DeliverTxWork<E, B>, tx: Seq<u8>)
    ensures
        ({
            let code = deliver_tx_run(omni_url, work, DeliverTxEventView::Received(tx)).code;
            let decoded = (work.decode_envelope)(tx);
            let replied = (work.send)(omni_url, decoded->Ok_0);
            let encoded = (work.encode_response)(
                ResponseMessage::canonical(reply_body(work, replied->Ok_0)),
            );
            &&& code == 2 <==> decoded is Err
            &&& code == 1 <==> decoded is Ok && replied is Err
            &&& code == 3 <==> decoded is Ok && replied is Ok && encoded is Err
            &&& code == 0 <==> decoded is Ok && replied is Ok && encoded is Ok
        }),
{
    deliver_tx_answers(omni_url, work, tx);
}

/// Two nodes that read the same envelope out of a transaction, and whose servers
/// reply with the same body, give the same answer, whoever the replies come
/// from, whatever version they carry and whenever they were made.
pub proof fn nodes_agree_on_delivery<E, B>(
    here_url: Seq<char>,
    here: DeliverTxWork<E, B>,
    there_url: Seq<char>,
    there: DeliverTxWork<E, B>,
    tx: Seq<u8>,
    envelope: E,
    here_payload: Option<Seq<u8>>,
    there_payload: Option<Seq<u8>>,
)
    requires
        (here.decode_envelope)(tx) == Ok::<E, Seq<char>>(envelope),
        (there.decode_envelope)(tx) == Ok::<E, Seq<char>>(envelope),
        (here.send)(here_url, envelope) == Ok::<Option<Seq<u8>>, Seq<char>>(here_payload),
        (there.send)(there_url, envelope) == Ok::<Option<Seq<u8>>, Seq<char>>(there_payload),
        reply_body(here, here_payload) == reply_body(there, there_payload),
        here.encode_response == there.encode_response,
    ensures
        deliver_tx_run(here_url, here, DeliverTxEventView::Received(tx)) == deliver_tx_run(
            there_url,
            there,
            DeliverTxEventView::Received(tx),
        ),
{
    deliver_tx_answers(here_url, here, tx);
    deliver_tx_answers(there_url, there, tx);
}

/// What is read out of a transaction, and what the server replies, is handed on
/// as it is: the transaction's bytes to be read, the envelope to the application's
/// server, the payload of the reply, or none of it where there is none, to be
/// read.
pub proof fn delivery_hands_envelopes_on<E, B>(
    app: AbciApp,
    event: DeliverTxEvent<E, B>,
    action: DeliverTxAction<E, B>,
)
    requires
        call_ensures(AbciApp::deliver_tx::<E, B>, (&app, event), action),
    ensures
        event matches DeliverTxEvent::Received(request) ==> (
        action matches DeliverTxAction::DecodeEnvelope(bytes) && bytes@ == request.tx@),
        event matches DeliverTxEvent::EnvelopeDecoded(Ok(read)) ==> (
        action matches DeliverTxAction::Send { omni_url, envelope } && omni_url@ == app@.omni_url
            && envelope == read),
        event matches DeliverTxEvent::Replied(Ok(Some(payload))) ==> (
        action matches DeliverTxAction::DecodeResponse(bytes) && bytes@ == payload@),
        event matches DeliverTxEvent::Replied(Ok(None)) ==> (
        action matches DeliverTxAction::DecodeResponse(bytes) && bytes@.len() == 0),
{
}

/// The message that is written out has the body of the server's message, whoever
/// that message comes from, whatever version it carries and whenever it was made,
/// and no body where there is no such message to read. It is anonymous, has no
/// version, and is dated to the Unix epoch.
pub proof fn delivery_keeps_the_body<E, B>(
    app: AbciApp,
    outcome: Result<ResponseMessage<B>, String>,
    action: DeliverTxAction<E, B>,
)
    requires
        call_ensures(
            AbciApp::deliver_tx::<E, B>,
            (&app, DeliverTxEvent::ResponseDecoded(outcome)),
            action,
        ),
    ensures
        ({
            &&& action matches DeliverTxAction::EncodeResponse(written)
            &&& outcome matches Ok(message) ==> written.body == message.body
            &&& outcome is Err ==> written.body is None
            &&& written.from == Identity::Anonymous
            &&& written.version is None
            &&& written.timestamp matches Some(time)
            &&& time.seconds == 0
            &&& time.nanos == 0
        }),
{
}

/// Two messages of the server are written out alike exactly where they have the
/// same body: the sender, the version and the time make no difference.
pub proof fn delivery_overlooks_all_but_the_body<E, B>(
    here_app: AbciApp,
    there_app: AbciApp,
    here: ResponseMessage<B>,
    there: ResponseMessage<B>,
    here_action: DeliverTxAction<E, B>,
    there_action: DeliverTxAction<E, B>,
)
    requires
        call_ensures(
            AbciApp::deliver_tx::<E, B>,
            (&here_app, DeliverTxEvent::ResponseDecoded(Ok(here))),
            here_action,
        ),
        call_ensures(
            AbciApp::deliver_tx::<E, B>,
            (&there_app, DeliverTxEvent::ResponseDecoded(Ok(there))),
            there_action,
        ),
    ensures
        here_action == there_action <==> here.body == there.body,
{
    delivery_keeps_the_body(here_app, Ok(here), here_action);
    delivery_keeps_the_body(there_app, Ok(there), there_action);
}

/// The answer to a delivery that succeeds holds what the message was written out
/// as, byte for byte, and nothing else.
pub proof fn delivery_data_is_the_response<E, B>(
    app: AbciApp,
    data: Vec<u8>,
    action: DeliverTxAction<E, B>,
)
    requires
        call_ensures(
            AbciApp::deliver_tx::<E, B>,
            (&app, DeliverTxEvent::ResponseEncoded(Ok(data))),
            action,
        ),
    ensures
        ({
            &&& action matches DeliverTxAction::Respond(response)
            &&& response.code == 0
            &&& response.data@ == data@
            &&& response.log@.len() == 0
            &&& response.info@.len() == 0
            &&& response.gas_wanted == 0
            &&& response.gas_used == 0
            &&& response.events@.len() == 0
            &&& response.codespace@.len() == 0
        }),
{
}

/// The answer to a delivery that fails holds a code for the kind of failure and
/// the reason, character for character, or no reason where the message could not
/// be written out; it holds nothing else.
pub proof fn delivery_log_is_the_reason<E, B>(
    app: AbciApp,
    event: DeliverTxEvent<E, B>,
    code: u32,
    text: String,
    reason: Seq<char>,
    action: DeliverTxAction<E, B>,
)
    requires
        ({
            ||| event == DeliverTxEvent::<E, B>::EnvelopeDecoded(Err(text)) && code == 2 && reason
                == text@
            ||| event == DeliverTxEvent::<E, B>::Replied(Err(text)) && code == 1 && reason == text@
            ||| event == DeliverTxEvent::<E, B>::ResponseEncoded(Err(text)) && code == 3
                && reason.len() == 0
        }),
        call_ensures(AbciApp::deliver_tx::<E, B>, (&app, event), action),
    ensures
        ({
            &&& action matches DeliverTxAction::Respond(response)
            &&& response.code == code
            &&& response.log@ == reason
            &&& response.data@.len() == 0
            &&& response.info@.len() == 0
            &&& response.gas_wanted == 0
            &&& response.gas_used == 0
            &&& response.events@.len() == 0
            &&& response.codespace@.len() == 0
        }),
{
}

/// Over a whole delivery in which the server's reply can be read, the data
/// answered is what a message with the body of the server's message was written
/// out as, made anonymous, without a version and dated to the Unix epoch.
pub proof fn delivery_answers_with_the_server_body<E, B>(
    omni_url: Seq<char>,
    work: DeliverTxWork<E, B>,
    tx: Seq<u8>,
    envelope: E,
    payload: Seq<u8>,
    message: ResponseMessage<B>,
)
    requires
        (work.decode_envelope)(tx) == Ok::<E, Seq<char>>(envelope),
        (work.send)(omni_url, envelope) == Ok::<Option<Seq<u8>>, Seq<char>>(Some(payload)),
        (work.decode_response)(payload) == Ok::<ResponseMessage<B>, Seq<char>>(message),
    ensures
        ({
            let response = deliver_tx_run(omni_url, work, DeliverTxEventView::Received(tx));
            let written = ResponseMessage {
                from: Identity::Anonymous,
                version: None,
                timestamp: Some(Timestamp { seconds: 0, nanos: 0 }),
                body: message.body,
            };
            match (work.encode_response)(written) {
                Ok(data) => response.code == 0 && response.data == data && response.log.len() == 0,
                Err(_) => response.code == 3 && response.data.len() == 0 && response.log.len() == 0,
            }
        }),
{
    deliver_tx_answers(omni_url, work, tx);
}

/// Over a whole delivery in which no message can be read out of the server's reply,
/// the data answered is what a message without a body was written out as, made
/// anonymous, without a version and dated to the Unix epoch. A reply without a
/// payload is read as an empty one.
pub proof fn delivery_answers_an_unreadable_reply<E, B>(
    omni_url: Seq<char>,
    work: DeliverTxWork<E, B>,
    tx: Seq<u8>,
    envelope: E,
    payload: Option<Seq<u8>>,
)
    requires
        (work.decode_envelope)(tx) == Ok::<E, Seq<char>>(envelope),
        (work.send)(omni_url, envelope) == Ok::<Option<Seq<u8>>, Seq<char>>(payload),
        payload matches Some(bytes) ==> (work.decode_response)(bytes) is Err,
        payload is None ==> (work.decode_response)(Seq::empty()) is Err,
    ensures
        ({
            let response = deliver_tx_run(omni_url, work, DeliverTxEventView::Received(tx));
            let written = ResponseMessage::<B> {
                from: Identity::Anonymous,
                version: None,
                timestamp: Some(Timestamp { seconds: 0, nanos: 0 }),
                body: None,
            };
            match (work.encode_response)(written) {
                Ok(data) => response.code == 0 && response.data == data && response.log.len() == 0,
                Err(_) => response.code == 3 && response.data.len() == 0 && response.log.len() == 0,
            }
        }),
{
    deliver_tx_answers(omni_url, work, tx);
}

/// Over a whole delivery that does not come to a reply, the log is the reason of
/// the first thing that failed, and there is no data.
pub proof fn delivery_tells_why_it_failed<E, B>(
    omni_url: Seq<char>,
    work: DeliverTxWork<E, B>,
    tx: Seq<u8>,
)
    ensures
        ({
            let response = deliver_tx_run(omni_url, work, DeliverTxEventView::Received(tx));
            match (work.decode_envelope)(tx) {
                Err(text) => response.code == 2 && response.log == text && response.data.len() == 0,
                Ok(envelope) => (work.send)(omni_url, envelope) matches Err(text) ==> response.code
                    == 1 && response.log == text && response.data.len() == 0,
            }
        }),
{
    deliver_tx_answers(omni_url, work, tx);
}

/// Two nodes that read the same envelope out of a transaction, and read messages
/// with the same body out of their servers' replies, give the same answer, whoever
/// the messages come from, whatever version they carry and whenever they were
/// made.
pub proof fn nodes_agree_where_bodies_do<E, B>(
    here_url: Seq<char>,
    here: DeliverTxWork<E, B>,
    there_url: Seq<char>,
    there: DeliverTxWork<E, B>,
    tx: Seq<u8>,
    envelope: E,
    here_payload: Seq<u8>,
    there_payload: Seq<u8>,
    here_message: ResponseMessage<B>,
    there_message: ResponseMessage<B>,
)
    requires
        (here.decode_envelope)(tx) == Ok::<E, Seq<char>>(envelope),
        (there.decode_envelope)(tx) == Ok::<E, Seq<char>>(envelope),
        (here.send)(here_url, envelope) == Ok::<Option<Seq<u8>>, Seq<char>>(Some(here_payload)),
        (there.send)(there_url, envelope) == Ok::<Option<Seq<u8>>, Seq<char>>(Some(there_payload)),
        (here.decode_response)(here_payload) == Ok::<ResponseMessage<B>, Seq<char>>(here_message),
        (there.decode_response)(there_payload) == Ok::<ResponseMessage<B>, Seq<char>>(
            there_message,
        ),
        here_message.body == there_message.body,
        here.encode_response == there.encode_response,
    ensures
        deliver_tx_run(here_url, here, DeliverTxEventView::Received(tx)) == deliver_tx_run(
            there_url,
            there,
            DeliverTxEventView::Received(tx),
        ),
{
    deliver_tx_answers(here_url, here, tx);
    deliver_tx_answers(there_url, there, tx);
}

} // verus!
