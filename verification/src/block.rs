//! The start of a chain, the beginning and the end of a block, and flushes.
//!
//! The application server is told of a block's beginning and end, and whatever
//! it replies is of no consequence.

use crate::abci::{
    Event, Header, RequestBeginBlock, ResponseBeginBlock, ResponseEndBlock, ResponseEndBlockView,
    ResponseFlush, ResponseInitChain, ResponseInitChainView,
};
use crate::bridge::AbciApp;
use crate::numbers::{to_unsigned, unsigned};
use crate::omni::{AbciBlock, Call};
use vstd::prelude::*;

verus! {

/// What happened in the course of a block's beginning.
#[derive(Debug, PartialEq, Eq)]
pub enum BeginBlockEvent {
    /// The request came in.
    Received(RequestBeginBlock),
    /// The server was called.
    Called(Result<Vec<u8>, String>),
}

/// What to do next in the course of a block's beginning.
#[derive(Debug, PartialEq, Eq)]
pub enum BeginBlockAction {
    /// Call the server.
    Call(Call),
    /// The beginning is over: answer this.
    Respond(ResponseBeginBlock),
}

/// What happened in the course of a block's end.
#[derive(Debug, PartialEq, Eq)]
pub enum EndBlockEvent {
    /// The request came in.
    Received,
    /// The server was called.
    Called(Result<Vec<u8>, String>),
}

/// What to do next in the course of a block's end.
#[derive(Debug, PartialEq, Eq)]
pub enum EndBlockAction {
    /// Call the server.
    Call(Call),
    /// The end is over: answer this.
    Respond(ResponseEndBlock),
}

/// View of [`BeginBlockAction`].
pub ghost enum BeginBlockActionView {
    Call(Call),
    Respond(Seq<Event>),
}

/// View of [`EndBlockAction`].
pub ghost enum EndBlockActionView {
    Call(Call),
    Respond(ResponseEndBlockView),
}

impl View for BeginBlockAction {
    type V = BeginBlockActionView;

    open spec fn view(&self) -> BeginBlockActionView {
        match *self {
            BeginBlockAction::Call(call) => BeginBlockActionView::Call(call),
            BeginBlockAction::Respond(response) => BeginBlockActionView::Respond(response@),
        }
    }
}

impl View for EndBlockAction {
    type V = EndBlockActionView;

    open spec fn view(&self) -> EndBlockActionView {
        match *self {
            EndBlockAction::Call(call) => EndBlockActionView::Call(call),
            EndBlockAction::Respond(response) => EndBlockActionView::Respond(response@),
        }
    }
}

/// The time of a block, in seconds since the Unix epoch: that of its header,
/// where there is a header and the header has a time.
pub open spec fn block_time(request: RequestBeginBlock) -> Option<u64> {
    match request.header {
        Some(header) => match header.time {
            Some(time) => Some(unsigned(time.seconds) as u64),
            None => None,
        },
        None => None,
    }
}

/// What follows an event in the course of a block's beginning.
pub open spec fn begin_block_step(event: BeginBlockEvent) -> BeginBlockActionView {
    match event {
        BeginBlockEvent::Received(request) => BeginBlockActionView::Call(
            Call::BeginBlock(AbciBlock { time: block_time(request) }),
        ),
        BeginBlockEvent::Called(_) => BeginBlockActionView::Respond(Seq::empty()),
    }
}

/// What follows an event in the course of a block's end.
pub open spec fn end_block_step(event: EndBlockEvent) -> EndBlockActionView {
    match event {
        EndBlockEvent::Received => EndBlockActionView::Call(Call::EndBlock),
        EndBlockEvent::Called(_) => EndBlockActionView::Respond(ResponseEndBlockView::empty()),
    }
}

impl AbciApp {
    /// Answers the start of a chain, with nothing.
    pub fn init_chain(&self) -> (response: ResponseInitChain)
        ensures
            response@ == ResponseInitChainView::empty(),
    {
        Default::default()
    }

    /// Says what follows an event in the course of a block's beginning.
    pub fn begin_block(&self, event: BeginBlockEvent) -> (action: BeginBlockAction)
        ensures
            action@ == begin_block_step(event),
    {
        match event {
            BeginBlockEvent::Received(request) => {
                let time = match request.header {
                    Some(header) => match header.time {
                        Some(time) => Some(to_unsigned(time.seconds)),
                        None => None,
                    },
                    None => None,
                };
                BeginBlockAction::Call(Call::BeginBlock(AbciBlock { time }))
            },
            BeginBlockEvent::Called(_) => BeginBlockAction::Respond(
                ResponseBeginBlock { events: Vec::new() },
            ),
        }
    }

    /// Says what follows an event in the course of a block's end.
    pub fn end_block(&self, event: EndBlockEvent) -> (action: EndBlockAction)
        ensures
            action@ == end_block_step(event),
    {
        match event {
            EndBlockEvent::Received => EndBlockAction::Call(Call::EndBlock),
            EndBlockEvent::Called(_) => EndBlockAction::Respond(Default::default()),
        }
    }

    /// Answers a flush, with nothing.
    pub fn flush(&self) -> (response: ResponseFlush)
        ensures
            response == (ResponseFlush {  }),
    {
        ResponseFlush {  }
    }
}

/// A block's beginning and end are answered in the same way whatever the server
/// replies, and even where it cannot be asked.
pub proof fn block_replies_do_not_count(
    here: Result<Vec<u8>, String>,
    there: Result<Vec<u8>, String>,
)
    ensures
        begin_block_step(BeginBlockEvent::Called(here)) == begin_block_step(
            BeginBlockEvent::Called(there),
        ),
        end_block_step(EndBlockEvent::Called(here)) == end_block_step(EndBlockEvent::Called(there)),
{
}

/// The server is told the time of the block's header, in whole seconds, where the
/// header has a time: the time itself from the Unix epoch on, and before it the
/// number with the same bits. Else it is told no time.
pub proof fn server_is_told_the_header_time(
    app: AbciApp,
    request: RequestBeginBlock,
    action: BeginBlockAction,
)
    requires
        call_ensures(AbciApp::begin_block, (&app, BeginBlockEvent::Received(request)), action),
    ensures
        ({
            &&& action matches BeginBlockAction::Call(Call::BeginBlock(block))
            &&& match request.header {
                Some(Header { time: Some(time) }) => {
                    &&& block.time matches Some(told)
                    &&& time.seconds >= 0 ==> told == time.seconds
                    &&& (told - time.seconds) % 0x1_0000_0000_0000_0000 == 0
                },
                _ => block.time is None,
            }
        }),
{
}

/// The end of a block is told to the server. The beginning and the end of a block,
/// once the server was called, and the start of a chain are answered with nothing:
/// every field is absent.
pub proof fn blocks_are_answered_with_nothing(
    app: AbciApp,
    reply: Result<Vec<u8>, String>,
    begun: BeginBlockAction,
    ending: EndBlockAction,
    ended: EndBlockAction,
    started: ResponseInitChain,
)
    requires
        call_ensures(AbciApp::begin_block, (&app, BeginBlockEvent::Called(reply)), begun),
        call_ensures(AbciApp::end_block, (&app, EndBlockEvent::Received), ending),
        call_ensures(AbciApp::end_block, (&app, EndBlockEvent::Called(reply)), ended),
        call_ensures(AbciApp::init_chain, (&app,), started),
    ensures
        begun matches BeginBlockAction::Respond(response) && response.events@.len() == 0,
        ending == EndBlockAction::Call(Call::EndBlock),
        ({
            &&& ended matches EndBlockAction::Respond(response)
            &&& response.validator_updates@.len() == 0
            &&& response.consensus_param_updates is None
            &&& response.events@.len() == 0
        }),
        started.consensus_params is None,
        started.validators@.len() == 0,
        started.app_hash@.len() == 0,
{
}

} // verus!
