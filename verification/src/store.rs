//! Preparing the ledger's persistent store before the server starts.
//!
//! The preparation alternates with outside work. Each call of [`prepare_store`]
//! takes what happened and says what to do next, until it says which initial
//! state the ledger is set up with.

use vstd::prelude::*;
use vstd::string::*;

verus! {

/// Why the store could not be deleted.
#[derive(Debug, PartialEq, Eq)]
pub enum DeletionFailure {
    /// There is no store.
    NotFound,
    /// Anything else, in words.
    Other(String),
}

/// What happened in the course of the preparation.
#[derive(Debug, PartialEq, Eq)]
pub enum StoreEvent {
    /// The server was started, `clean` if it is to start from a clean state.
    Started { clean: bool },
    /// The store was deleted.
    Deleted(Result<(), DeletionFailure>),
    /// The store was looked for, and is there or is not.
    LookedFor(bool),
}

/// What to do next in the course of the preparation. `S` says where an initial
/// state is found.
#[derive(Debug, PartialEq, Eq)]
pub enum StoreAction<S> {
    /// Delete the store.
    Delete,
    /// Look whether there is a store.
    LookFor,
    /// Set the ledger up, with this initial state where there is one.
    SetUp(Option<S>),
    /// Give up, for this reason.
    Abort(String),
}

/// View of [`DeletionFailure`].
pub ghost enum DeletionFailureView {
    NotFound,
    Other(Seq<char>),
}

/// View of [`StoreEvent`].
pub ghost enum StoreEventView {
    Started { clean: bool },
    Deleted(Result<(), DeletionFailureView>),
    LookedFor(bool),
}

/// View of [`StoreAction`].
pub ghost enum StoreActionView<S> {
    Delete,
    LookFor,
    SetUp(Option<S>),
    Abort(Seq<char>),
}

impl View for StoreEvent {
    type V = StoreEventView;

    open spec fn view(&self) -> StoreEventView {
        match *self {
            StoreEvent::Started { clean } => StoreEventView::Started { clean },
            StoreEvent::Deleted(Ok(_)) => StoreEventView::Deleted(Ok(())),
            StoreEvent::Deleted(Err(DeletionFailure::NotFound)) => StoreEventView::Deleted(
                Err(DeletionFailureView::NotFound),
            ),
            StoreEvent::Deleted(Err(DeletionFailure::Other(text))) => StoreEventView::Deleted(
                Err(DeletionFailureView::Other(text@)),
            ),
            StoreEvent::LookedFor(found) => StoreEventView::LookedFor(found),
        }
    }
}

impl<S> View for StoreAction<S> {
    type V = StoreActionView<S>;

    open spec fn view(&self) -> StoreActionView<S> {
        match *self {
            StoreAction::Delete => StoreActionView::Delete,
            StoreAction::LookFor => StoreActionView::LookFor,
            StoreAction::SetUp(state) => StoreActionView::SetUp(state),
            StoreAction::Abort(text) => StoreActionView::Abort(text@),
        }
    }
}

/// What follows an event, where the server was given this initial state.
pub open spec fn store_step<S>(state: Option<S>, event: StoreEventView) -> StoreActionView<S> {
    match event {
        StoreEventView::Started { clean: true } => StoreActionView::Delete,
        StoreEventView::Started { clean: false } => StoreActionView::LookFor,
        StoreEventView::Deleted(Ok(_)) => StoreActionView::SetUp(state),
        StoreEventView::Deleted(Err(DeletionFailureView::NotFound)) => StoreActionView::SetUp(
            state,
        ),
        StoreEventView::Deleted(Err(DeletionFailureView::Other(text))) => StoreActionView::Abort(
            "Error: "@ + text,
        ),
        StoreEventView::LookedFor(true) => StoreActionView::SetUp(None),
        StoreEventView::LookedFor(false) => StoreActionView::SetUp(state),
    }
}

/// Says what follows an event in the course of the preparation.
///
/// A store that is there and is not deleted keeps what it holds: the initial
/// state is then ignored.
pub fn prepare_store<S>(state: Option<S>, event: StoreEvent) -> (action: StoreAction<S>)
    ensures
        action@ == store_step(state, event@),
{
    match event {
        StoreEvent::Started { clean } => if clean {
            StoreAction::Delete
        } else {
            StoreAction::LookFor
        },
        StoreEvent::Deleted(Ok(_)) => StoreAction::SetUp(state),
        StoreEvent::Deleted(Err(DeletionFailure::NotFound)) => StoreAction::SetUp(state),
        StoreEvent::Deleted(Err(DeletionFailure::Other(text))) => {
            let mut reason = "Error: ".to_owned();
            reason.append(text.as_str());
            StoreAction::Abort(reason)
        },
        StoreEvent::LookedFor(found) => if found {
            StoreAction::SetUp(None)
        } else {
            StoreAction::SetUp(state)
        },
    }
}

/// How outside work turns out in the course of one preparation.
pub ghost struct StoreWork {
    /// Deleting the store.
    pub deletion: Result<(), DeletionFailureView>,
    /// Looking for the store.
    pub found: bool,
}

impl StoreEventView {
    /// How many rounds of outside work may still follow the event.
    pub open spec fn rounds_left(self) -> nat {
        match self {
            StoreEventView::Started { .. } => 1,
            StoreEventView::Deleted(_) => 0,
            StoreEventView::LookedFor(_) => 0,
        }
    }
}

/// What the preparation comes to from an event on: the initial state to set the
/// ledger up with, or the reason to give up.
pub open spec fn store_run<S>(state: Option<S>, work: StoreWork, event: StoreEventView) -> Result<
    Option<S>,
    Seq<char>,
>
    decreases event.rounds_left(),
{
    match store_step(state, event) {
        StoreActionView::Delete => store_run(state, work, StoreEventView::Deleted(work.deletion)),
        StoreActionView::LookFor => store_run(state, work, StoreEventView::LookedFor(work.found)),
        StoreActionView::SetUp(state) => Ok(state),
        StoreActionView::Abort(text) => Err(text),
    }
}

/// The initial state is used exactly where the ledger starts without a store:
/// where the store was deleted or was not there. A store that should be deleted
/// and cannot be is a reason to give up.
pub proof fn initial_state_needs_a_missing_store<S>(
    clean: bool,
    state: Option<S>,
    work: StoreWork,
)
    ensures
        store_run(state, work, StoreEventView::Started { clean }) == (if clean {
            match work.deletion {
                Err(DeletionFailureView::Other(text)) => Err("Error: "@ + text),
                _ => Ok(state),
            }
        } else if work.found {
            Ok(None)
        } else {
            Ok(state)
        }),
{
    reveal_with_fuel(store_run, 2);
}

/// The store is deleted where a clean start is asked for, and looked for where it
/// is not. The ledger is set up with the state that was given where there is no
/// store, and with none where one is kept. Where the store cannot be deleted, the
/// reason is told, character for character.
pub proof fn preparation_keeps_the_given_state<S>(
    state: Option<S>,
    event: StoreEvent,
    action: StoreAction<S>,
)
    requires
        call_ensures(prepare_store::<S>, (state, event), action),
    ensures
        event == (StoreEvent::Started { clean: true }) ==> action is Delete,
        event == (StoreEvent::Started { clean: false }) ==> action is LookFor,
        event matches StoreEvent::Deleted(Ok(_)) ==> action == StoreAction::SetUp(state),
        event matches StoreEvent::Deleted(Err(DeletionFailure::NotFound)) ==> action
            == StoreAction::SetUp(state),
        event matches StoreEvent::Deleted(Err(DeletionFailure::Other(text))) ==> (
        action matches StoreAction::Abort(reason) && reason@ == "Error: "@ + text@),
        event == StoreEvent::LookedFor(true) ==> action == StoreAction::<S>::SetUp(None),
        event == StoreEvent::LookedFor(false) ==> action == StoreAction::SetUp(state),
{
}

} // verus!
