//! Committing a block.
//!
//! Each call of [`AbciApp::commit`] takes what happened and says what to do
//! next, until it says what to respond.

use crate::abci::{ResponseCommit, ResponseCommitView};
use crate::bridge::AbciApp;
use crate::numbers::{signed, to_signed};
use crate::omni::{AbciCommitInfo, AbciCommitInfoView, Call};
use crate::outcome::bytes_or_text;
use vstd::prelude::*;
use vstd::string::*;
use vstd::utf8::encode_utf8;

verus! {

/// What happened in the course of a commit.
#[derive(Debug, PartialEq, Eq)]
pub enum CommitEvent {
    /// The request came in.
    Received,
    /// The server was called.
    Called(Result<Vec<u8>, String>),
    /// The server's reply was read.
    Decoded(AbciCommitInfo),
}

/// What to do next in the course of a commit.
#[derive(Debug, PartialEq, Eq)]
pub enum CommitAction {
    /// Call the server.
    Call(Call),
    /// Read the server's reply. A server that confirms a commit in a reply that
    /// cannot be read leaves the node without an answer to give.
    Decode(Vec<u8>),
    /// The commit is over: answer this.
    Respond(ResponseCommit),
}

/// View of [`CommitEvent`].
pub ghost enum CommitEventView {
    Received,
    Called(Result<Seq<u8>, Seq<char>>),
    Decoded(AbciCommitInfoView),
}

/// View of [`CommitAction`].
pub ghost enum CommitActionView {
    Call(Call),
    Decode(Seq<u8>),
    Respond(ResponseCommitView),
}

impl View for CommitEvent {
    type V = CommitEventView;

    open spec fn view(&self) -> CommitEventView {
        match *self {
            CommitEvent::Received => CommitEventView::Received,
            CommitEvent::Called(outcome) => CommitEventView::Called(bytes_or_text(outcome)),
            CommitEvent::Decoded(info) => CommitEventView::Decoded(info@),
        }
    }
}

impl View for CommitAction {
    type V = CommitActionView;

    open spec fn view(&self) -> CommitActionView {
        match *self {
            CommitAction::Call(call) => CommitActionView::Call(call),
            CommitAction::Decode(bytes) => CommitActionView::Decode(bytes@),
            CommitAction::Respond(response) => CommitActionView::Respond(response@),
        }
    }
}

/// The response where the server could not be asked: the reason, in UTF-8.
pub open spec fn commit_failed(text: Seq<char>) -> ResponseCommitView {
    ResponseCommitView { data: encode_utf8(text), retain_height: 0 }
}

/// The response where the server says this of the commit.
pub open spec fn commit_done(info: AbciCommitInfoView) -> ResponseCommitView {
    ResponseCommitView { data: info.hash, retain_height: signed(info.retain_height) as i64 }
}

/// What follows an event.
pub open spec fn commit_step(event: CommitEventView) -> CommitActionView {
    match event {
        CommitEventView::Received => CommitActionView::Call(Call::Commit),
        CommitEventView::Called(Ok(payload)) => CommitActionView::Decode(payload),
        CommitEventView::Called(Err(text)) => CommitActionView::Respond(commit_failed(text)),
        CommitEventView::Decoded(info) => CommitActionView::Respond(commit_done(info)),
    }
}

impl AbciApp {
    /// Says what follows an event in the course of a commit.
    pub fn commit(&self, event: CommitEvent) -> (action: CommitAction)
        ensures
            action@ == commit_step(event@),
    {
        match event {
            CommitEvent::Received => CommitAction::Call(Call::Commit),
            CommitEvent::Called(Ok(payload)) => CommitAction::Decode(payload),
            CommitEvent::Called(Err(text)) => CommitAction::Respond(
                ResponseCommit { data: text.as_str().as_bytes_vec(), retain_height: 0 },
            ),
            CommitEvent::Decoded(info) => CommitAction::Respond(
                ResponseCommit { data: info.hash, retain_height: to_signed(info.retain_height) },
            ),
        }
    }
}

/// How outside work turns out in the course of one commit.
pub ghost struct CommitWork {
    /// Calling the server.
    pub call: spec_fn(Call) -> Result<Seq<u8>, Seq<char>>,
    /// Reading the server's reply.
    pub decode: spec_fn(Seq<u8>) -> AbciCommitInfoView,
}

impl CommitEventView {
    /// How many rounds of outside work may still follow the event.
    pub open spec fn rounds_left(self) -> nat {
        match self {
            CommitEventView::Received => 2,
            CommitEventView::Called(_) => 1,
            CommitEventView::Decoded(_) => 0,
        }
    }
}

/// The response that a commit comes to from an event on, where each action is
/// performed and its outcome handed back as the next event.
pub open spec fn commit_run(work: CommitWork, event: CommitEventView) -> ResponseCommitView
    decreases event.rounds_left(),
{
    match commit_step(event) {
        CommitActionView::Call(call) => commit_run(work, CommitEventView::Called((work.call)(call))),
        CommitActionView::Decode(payload) => commit_run(
            work,
            CommitEventView::Decoded((work.decode)(payload)),
        ),
        CommitActionView::Respond(response) => response,
    }
}

/// A commit answers with the server's hash and the height to retain; with the
/// reason, and no height, where the server could not be asked.
pub proof fn commit_answers(work: CommitWork)
    ensures
        commit_run(work, CommitEventView::Received) == (match (work.call)(Call::Commit) {
            Err(text) => commit_failed(text),
            Ok(payload) => commit_done((work.decode)(payload)),
        }),
{
    reveal_with_fuel(commit_run, 3);
}

/// The answer to a commit that the server confirms holds the server's hash, byte
/// for byte, and the height to retain: the server's own where the answer's field
/// can express it, and else the number with the same bits.
pub proof fn commit_data_is_the_server_hash(
    app: AbciApp,
    info: AbciCommitInfo,
    action: CommitAction,
)
    requires
        call_ensures(AbciApp::commit, (&app, CommitEvent::Decoded(info)), action),
    ensures
        ({
            &&& action matches CommitAction::Respond(response)
            &&& response.data@ == info.hash@
            &&& info.retain_height <= i64::MAX ==> response.retain_height == info.retain_height
            &&& (info.retain_height - response.retain_height) % 0x1_0000_0000_0000_0000 == 0
        }),
{
}

/// A commit calls the server's commit endpoint, and has the reply read as it is.
/// The answer to one for which the server could not be asked holds the reason in
/// UTF-8, and no height.
pub proof fn commit_asks_the_server(app: AbciApp, event: CommitEvent, action: CommitAction)
    requires
        call_ensures(AbciApp::commit, (&app, event), action),
    ensures
        event is Received ==> action == CommitAction::Call(Call::Commit),
        event matches CommitEvent::Called(Ok(payload)) ==> (action matches CommitAction::Decode(
            bytes,
        ) && bytes@ == payload@),
        event matches CommitEvent::Called(Err(text)) ==> (action matches CommitAction::Respond(
            response,
        ) && response.data@ == encode_utf8(text@) && response.retain_height == 0),
{
}

/// Over a whole commit, the data answered is the server's hash and the height is
/// the server's, where the server confirms; where it could not be asked, the data
/// is the reason in UTF-8 and the height is zero.
pub proof fn commit_answer_is_what_came(work: CommitWork)
    ensures
        ({
            let response = commit_run(work, CommitEventView::Received);
            match (work.call)(Call::Commit) {
                Ok(payload) => {
                    let info = (work.decode)(payload);
                    &&& response.data == info.hash
                    &&& info.retain_height <= i64::MAX ==> response.retain_height
                        == info.retain_height
                    &&& (info.retain_height - response.retain_height) % 0x1_0000_0000_0000_0000 == 0
                },
                Err(text) => response.data == encode_utf8(text) && response.retain_height == 0,
            }
        }),
{
    commit_answers(work);
}

/// Two commits that servers confirm are answered alike exactly where the servers
/// gave the same hash and the same height.
pub proof fn commits_tell_states_apart(
    app: AbciApp,
    here: AbciCommitInfo,
    there: AbciCommitInfo,
    here_action: CommitAction,
    there_action: CommitAction,
)
    requires
        call_ensures(AbciApp::commit, (&app, CommitEvent::Decoded(here)), here_action),
        call_ensures(AbciApp::commit, (&app, CommitEvent::Decoded(there)), there_action),
    ensures
        here_action@ == there_action@ <==> here.hash@ == there.hash@ && here.retain_height
            == there.retain_height,
{
    commit_data_is_the_server_hash(app, here, here_action);
    commit_data_is_the_server_hash(app, there, there_action);
}

} // verus!
