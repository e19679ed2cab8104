//! Saying what the application is.
//!
//! Each call of [`AbciApp::info`] takes what happened and says what to do next,
//! until it says what to respond.

use crate::abci::{ResponseInfo, ResponseInfoView};
use crate::bridge::{AbciApp, AbciAppView};
use crate::numbers::{signed, to_signed};
use crate::omni::{AbciInfo, AbciInfoView, Call};
use crate::outcome::bytes_or_text;
use vstd::prelude::*;
use vstd::string::*;

verus! {

/// What happened in the course of a request for information.
#[derive(Debug, PartialEq, Eq)]
pub enum InfoEvent {
    /// The request came in.
    Received,
    /// The server was called.
    Called(Result<Vec<u8>, String>),
    /// The server's reply was read.
    Decoded(Result<AbciInfo, String>),
}

/// What to do next in the course of a request for information.
#[derive(Debug, PartialEq, Eq)]
pub enum InfoAction {
    /// Call the server.
    Call(Call),
    /// Read the server's reply.
    Decode(Vec<u8>),
    /// The request is served: answer this.
    Respond(ResponseInfo),
}

/// View of [`InfoEvent`].
pub ghost enum InfoEventView {
    Received,
    Called(Result<Seq<u8>, Seq<char>>),
    Decoded(Result<AbciInfoView, Seq<char>>),
}

/// View of [`InfoAction`].
pub ghost enum InfoActionView {
    Call(Call),
    Decode(Seq<u8>),
    Respond(ResponseInfoView),
}

impl View for InfoEvent {
    type V = InfoEventView;

    open spec fn view(&self) -> InfoEventView {
        match *self {
            InfoEvent::Received => InfoEventView::Received,
            InfoEvent::Called(outcome) => InfoEventView::Called(bytes_or_text(outcome)),
            InfoEvent::Decoded(Ok(info)) => InfoEventView::Decoded(Ok(info@)),
            InfoEvent::Decoded(Err(text)) => InfoEventView::Decoded(Err(text@)),
        }
    }
}

impl View for InfoAction {
    type V = InfoActionView;

    open spec fn view(&self) -> InfoActionView {
        match *self {
            InfoAction::Call(call) => InfoActionView::Call(call),
            InfoAction::Decode(bytes) => InfoActionView::Decode(bytes@),
            InfoAction::Respond(response) => InfoActionView::Respond(response@),
        }
    }
}

/// The response where the server could not be asked, or could not be understood.
pub open spec fn info_failed(text: Seq<char>) -> ResponseInfoView {
    ResponseInfoView {
        data: "An error occurred during call to abci.info:\n"@ + text,
        ..ResponseInfoView::empty()
    }
}

/// The response of the application in this version, where the server says this
/// of its state.
pub open spec fn info_given(
    app: AbciAppView,
    version: Seq<char>,
    info: AbciInfoView,
) -> ResponseInfoView {
    ResponseInfoView {
        data: "omni-abci-bridge("@ + app.app_name + ")"@,
        version,
        app_version: 1,
        last_block_height: signed(info.height) as i64,
        last_block_app_hash: info.hash,
    }
}

/// What follows an event, for the application in this version.
pub open spec fn info_step(
    app: AbciAppView,
    version: Seq<char>,
    event: InfoEventView,
) -> InfoActionView {
    match event {
        InfoEventView::Received => InfoActionView::Call(Call::Info),
        InfoEventView::Called(Ok(payload)) => InfoActionView::Decode(payload),
        InfoEventView::Called(Err(text)) => InfoActionView::Respond(info_failed(text)),
        InfoEventView::Decoded(Ok(info)) => InfoActionView::Respond(info_given(app, version, info)),
        InfoEventView::Decoded(Err(text)) => InfoActionView::Respond(info_failed(text)),
    }
}

/// Makes the response where the server could not be asked or understood.
fn failure(text: &str) -> (response: ResponseInfo)
    ensures
        response@ == info_failed(text@),
{
    let mut data = "An error occurred during call to abci.info:\n".to_owned();
    data.append(text);
    ResponseInfo { data, ..Default::default() }
}

impl AbciApp {
    /// Says what follows an event in the course of a request for information;
    /// `version` is the version of the bridge.
    pub fn info(&self, version: &str, event: InfoEvent) -> (action: InfoAction)
        ensures
            action@ == info_step(self@, version@, event@),
    {
        match event {
            InfoEvent::Received => InfoAction::Call(Call::Info),
            InfoEvent::Called(Ok(payload)) => InfoAction::Decode(payload),
            InfoEvent::Called(Err(text)) => InfoAction::Respond(failure(text.as_str())),
            InfoEvent::Decoded(Ok(info)) => {
                let mut data = "omni-abci-bridge(".to_owned();
                data.append(self.app_name());
                data.append(")");
                InfoAction::Respond(
                    ResponseInfo {
                        data,
                        version: version.to_owned(),
                        app_version: 1,
                        last_block_height: to_signed(info.height),
                        last_block_app_hash: info.hash,
                    },
                )
            },
            InfoEvent::Decoded(Err(text)) => InfoAction::Respond(failure(text.as_str())),
        }
    }
}

/// How outside work turns out in the course of one request for information.
pub ghost struct InfoWork {
    /// Calling the server.
    pub call: spec_fn(Call) -> Result<Seq<u8>, Seq<char>>,
    /// Reading the server's reply.
    pub decode: spec_fn(Seq<u8>) -> Result<AbciInfoView, Seq<char>>,
}

impl InfoEventView {
    /// How many rounds of outside work may still follow the event.
    pub open spec fn rounds_left(self) -> nat {
        match self {
            InfoEventView::Received => 2,
            InfoEventView::Called(_) => 1,
            InfoEventView::Decoded(_) => 0,
        }
    }
}

/// The response that a request for information comes to from an event on, where
/// each action is performed and its outcome handed back as the next event.
pub open spec fn info_run(
    app: AbciAppView,
    version: Seq<char>,
    work: InfoWork,
    event: InfoEventView,
) -> ResponseInfoView
    decreases event.rounds_left(),
{
    match info_step(app, version, event) {
        InfoActionView::Call(call) => info_run(
            app,
            version,
            work,
            InfoEventView::Called((work.call)(call)),
        ),
        InfoActionView::Decode(payload) => info_run(
            app,
            version,
            work,
            InfoEventView::Decoded((work.decode)(payload)),
        ),
        InfoActionView::Respond(response) => response,
    }
}

/// A request for information gives the server's height and hash; it gives the
/// reason where the server could not be asked or understood.
pub proof fn info_answers(app: AbciAppView, version: Seq<char>, work: InfoWork)
    ensures
        info_run(app, version, work, InfoEventView::Received) == (match (work.call)(Call::Info) {
            Err(text) => info_failed(text),
            Ok(payload) => match (work.decode)(payload) {
                Err(text) => info_failed(text),
                Ok(info) => info_given(app, version, info),
            },
        }),
{
    reveal_with_fuel(info_run, 3);
}

/// The answer to a request for information holds the server's hash, byte for byte,
/// and the server's height, where the answer's field can express it, and else the
/// number with the same bits; the application's name within the bridge's own, the
/// bridge's version, and one as the version of the protocol.
pub proof fn info_is_the_server_state(
    app: AbciApp,
    version: &str,
    info: AbciInfo,
    action: InfoAction,
)
    requires
        call_ensures(AbciApp::info, (&app, version, InfoEvent::Decoded(Ok(info))), action),
    ensures
        ({
            &&& action matches InfoAction::Respond(response)
            &&& info.height <= i64::MAX ==> response.last_block_height == info.height
            &&& (info.height - response.last_block_height) % 0x1_0000_0000_0000_0000 == 0
            &&& response.last_block_app_hash@ == info.hash@
            &&& response.data@ == "omni-abci-bridge("@ + app@.app_name + ")"@
            &&& response.version@ == version@
            &&& response.app_version == 1
        }),
{
}

/// A request for information calls the server's information endpoint, and has the
/// reply read as it is. The answer to one for which the server could not be asked
/// or understood tells the reason, and says nothing of any state.
pub proof fn info_asks_the_server(
    app: AbciApp,
    version: &str,
    event: InfoEvent,
    action: InfoAction,
)
    requires
        call_ensures(AbciApp::info, (&app, version, event), action),
    ensures
        event is Received ==> action == InfoAction::Call(Call::Info),
        event matches InfoEvent::Called(Ok(payload)) ==> (action matches InfoAction::Decode(bytes)
            && bytes@ == payload@),
        forall|text: String|
            event == InfoEvent::Called(Err(text)) || event == InfoEvent::Decoded(Err(text)) ==> ({
                &&& action matches InfoAction::Respond(response)
                &&& response.data@ == "An error occurred during call to abci.info:\n"@
                    + #[trigger] text@
                &&& response.version@.len() == 0
                &&& response.app_version == 0
                &&& response.last_block_height == 0
                &&& response.last_block_app_hash@.len() == 0
            }),
{
}

/// Over a whole request for information, the height and the hash answered are the
/// server's; where the server could not be asked or understood, they are those of
/// an empty chain, and the reason is told.
pub proof fn info_answer_is_what_came(app: AbciAppView, version: Seq<char>, work: InfoWork)
    ensures
        ({
            let response = info_run(app, version, work, InfoEventView::Received);
            let outcome = match (work.call)(Call::Info) {
                Ok(payload) => (work.decode)(payload),
                Err(text) => Err(text),
            };
            match outcome {
                Ok(info) => {
                    &&& info.height <= i64::MAX ==> response.last_block_height == info.height
                    &&& (info.height - response.last_block_height) % 0x1_0000_0000_0000_0000 == 0
                    &&& response.last_block_app_hash == info.hash
                    &&& response.version == version
                    &&& response.data == "omni-abci-bridge("@ + app.app_name + ")"@
                },
                Err(text) => {
                    &&& response.last_block_height == 0
                    &&& response.last_block_app_hash.len() == 0
                    &&& response.version.len() == 0
                    &&& response.data == "An error occurred during call to abci.info:\n"@ + text
                },
            }
        }),
{
    info_answers(app, version, work);
}

/// The server's height and hash can be told from the answer: two states that
/// differ are answered differently.
pub proof fn info_tells_states_apart(
    app: AbciApp,
    version: &str,
    here: AbciInfo,
    there: AbciInfo,
    here_action: InfoAction,
    there_action: InfoAction,
)
    requires
        call_ensures(AbciApp::info, (&app, version, InfoEvent::Decoded(Ok(here))), here_action),
        call_ensures(AbciApp::info, (&app, version, InfoEvent::Decoded(Ok(there))), there_action),
    ensures
        here_action@ == there_action@ <==> here.hash@ == there.hash@ && here.height
            == there.height,
{
    info_is_the_server_state(app, version, here, here_action);
    info_is_the_server_state(app, version, there, there_action);
}

} // verus!
