//! Creating the ABCI application.
//!
//! A creation alternates with outside work: the client of the application server
//! is made, and then the server is asked for its status. Each call of
//! [`AbciApp::create`] takes what happened and says what to do next, until it
//! gives the application or says why there is none.

use crate::bridge::{app_created, created_view, AbciApp, AbciAppView};
use crate::deliver_tx::{deliver_tx_step, DeliverTxActionView, DeliverTxEventView};
use crate::omni::Identity;
use crate::outcome::{text_or_text, value_or_text};
use crate::query::{query_step, QueryActionView, QueryEventView};
use crate::url::{resolve_url, url_of};
use vstd::prelude::*;

verus! {

/// What happened in the course of a creation. `I` is the type of the server's
/// identity.
#[derive(Debug, PartialEq, Eq)]
pub enum CreateEvent<I> {
    /// An application was asked for, for the server with this identity at the
    /// address that this text holds.
    Received { omni_url: String, server_id: I },
    /// The client of the server at this address was made.
    Connected { omni_url: String, connection: Result<(), String> },
    /// The server at this address was asked for its status, and told its name.
    StatusTold { omni_url: String, status: Result<String, String> },
}

/// What to do next in the course of a creation.
#[derive(Debug)]
pub enum CreateAction<I> {
    /// Make the client of the server with this identity at this address; the
    /// client speaks as `key`.
    Connect { omni_url: String, server_id: I, key: Identity },
    /// Ask the server at this address for its status, through the client.
    AskStatus { omni_url: String },
    /// The creation is over, with this outcome.
    Finish(Result<AbciApp, String>),
}

/// View of [`CreateEvent`].
pub ghost enum CreateEventView<I> {
    Received { omni_url: Seq<char>, server_id: I },
    Connected { omni_url: Seq<char>, connection: Result<(), Seq<char>> },
    StatusTold { omni_url: Seq<char>, status: Result<Seq<char>, Seq<char>> },
}

/// View of [`CreateAction`].
pub ghost enum CreateActionView<I> {
    Connect { omni_url: Seq<char>, server_id: I, key: Identity },
    AskStatus { omni_url: Seq<char> },
    Finish(Result<AbciAppView, Seq<char>>),
}

impl<I> View for CreateEvent<I> {
    type V = CreateEventView<I>;

    open spec fn view(&self) -> CreateEventView<I> {
        match *self {
            CreateEvent::Received { omni_url, server_id } => CreateEventView::Received {
                omni_url: omni_url@,
                server_id,
            },
            CreateEvent::Connected { omni_url, connection } => CreateEventView::Connected {
                omni_url: omni_url@,
                connection: value_or_text(connection),
            },
            CreateEvent::StatusTold { omni_url, status } => CreateEventView::StatusTold {
                omni_url: omni_url@,
                status: text_or_text(status),
            },
        }
    }
}

impl<I> View for CreateAction<I> {
    type V = CreateActionView<I>;

    open spec fn view(&self) -> CreateActionView<I> {
        match *self {
            CreateAction::Connect { omni_url, server_id, key } => CreateActionView::Connect {
                omni_url: omni_url@,
                server_id,
                key,
            },
            CreateAction::AskStatus { omni_url } => CreateActionView::AskStatus {
                omni_url: omni_url@,
            },
            CreateAction::Finish(outcome) => CreateActionView::Finish(created_view(outcome)),
        }
    }
}

/// What follows once the server's address was resolved: the client is made for
/// that address and the identity as it was given, and speaks anonymously.
pub open spec fn connect_step<I>(
    address: Result<Seq<char>, Seq<char>>,
    server_id: I,
) -> CreateActionView<I> {
    match address {
        Ok(omni_url) => CreateActionView::Connect { omni_url, server_id, key: Identity::Anonymous },
        Err(text) => CreateActionView::Finish(Err(text)),
    }
}

/// What follows an event.
pub open spec fn create_step<I>(event: CreateEventView<I>) -> CreateActionView<I> {
    match event {
        CreateEventView::Received { omni_url, server_id } => connect_step(
            url_of(omni_url),
            server_id,
        ),
        CreateEventView::Connected { omni_url, connection: Ok(_) } => CreateActionView::AskStatus {
            omni_url,
        },
        CreateEventView::Connected { omni_url, connection: Err(text) } => CreateActionView::Finish(
            Err(text),
        ),
        CreateEventView::StatusTold { omni_url, status } => CreateActionView::Finish(
            app_created(omni_url, status),
        ),
    }
}

/// Says what follows once the server's address was resolved.
pub fn connect<I>(address: Result<String, String>, server_id: I) -> (action: CreateAction<I>)
    ensures
        action@ == connect_step(text_or_text(address), server_id),
{
    match address {
        Ok(omni_url) => CreateAction::Connect { omni_url, server_id, key: Identity::Anonymous },
        Err(text) => CreateAction::Finish(Err(text)),
    }
}

impl AbciApp {
    /// Constructor: says what follows an event in the course of a creation.
    pub fn create<I>(event: CreateEvent<I>) -> (action: CreateAction<I>)
        ensures
            action@ == create_step(event@),
    {
        match event {
            CreateEvent::Received { omni_url, server_id } => connect(
                resolve_url(omni_url.as_str()),
                server_id,
            ),
            CreateEvent::Connected { omni_url, connection: Ok(_) } => CreateAction::AskStatus {
                omni_url,
            },
            CreateEvent::Connected { omni_url: _, connection: Err(text) } => CreateAction::Finish(
                Err(text),
            ),
            CreateEvent::StatusTold { omni_url, status } => CreateAction::Finish(
                AbciApp::create_at(omni_url, status),
            ),
        }
    }
}

/// How outside work turns out in the course of one creation.
#[verifier::reject_recursive_types(I)]
pub ghost struct CreateWork<I> {
    /// Making the client of the server with an identity at an address, to speak
    /// as someone.
    pub connect: spec_fn(Seq<char>, I, Identity) -> Result<(), Seq<char>>,
    /// Asking the server at an address for its status.
    pub status: spec_fn(Seq<char>) -> Result<Seq<char>, Seq<char>>,
}

impl<I> CreateEventView<I> {
    /// How many rounds of outside work may still follow the event.
    pub open spec fn rounds_left(self) -> nat {
        match self {
            CreateEventView::Received { .. } => 2,
            CreateEventView::Connected { .. } => 1,
            CreateEventView::StatusTold { .. } => 0,
        }
    }
}

/// All that is done in the course of a creation from an event on, in order, where
/// each action is performed and its outcome handed back as the next event.
pub open spec fn create_actions<I>(work: CreateWork<I>, event: CreateEventView<I>) -> Seq<
    CreateActionView<I>,
>
    decreases event.rounds_left(),
{
    let action = create_step(event);
    match action {
        CreateActionView::Connect { omni_url, server_id, key } => seq![action] + create_actions(
            work,
            CreateEventView::Connected {
                omni_url,
                connection: (work.connect)(omni_url, server_id, key),
            },
        ),
        CreateActionView::AskStatus { omni_url } => seq![action] + create_actions(
            work,
            CreateEventView::StatusTold { omni_url, status: (work.status)(omni_url) },
        ),
        CreateActionView::Finish(_) => seq![action],
    }
}

/// The outcome that a creation comes to from an event on.
pub open spec fn create_run<I>(work: CreateWork<I>, event: CreateEventView<I>) -> Result<
    AbciAppView,
    Seq<char>,
>
    decreases event.rounds_left(),
{
    match create_step(event) {
        CreateActionView::Connect { omni_url, server_id, key } => create_run(
            work,
            CreateEventView::Connected {
                omni_url,
                connection: (work.connect)(omni_url, server_id, key),
            },
        ),
        CreateActionView::AskStatus { omni_url } => create_run(
            work,
            CreateEventView::StatusTold { omni_url, status: (work.status)(omni_url) },
        ),
        CreateActionView::Finish(outcome) => outcome,
    }
}

/// A creation gives the application for the resolved address, under the name that
/// the server told; or else the reason of the first thing that failed: resolving
/// the address, making the client, asking for the status.
pub proof fn create_answers<I>(work: CreateWork<I>, omni_url: Seq<char>, server_id: I)
    ensures
        create_run(work, CreateEventView::Received { omni_url, server_id }) == (match url_of(
            omni_url,
        ) {
            Err(text) => Err(text),
            Ok(address) => match (work.connect)(address, server_id, Identity::Anonymous) {
                Err(text) => Err(text),
                Ok(_) => match (work.status)(address) {
                    Err(text) => Err(text),
                    Ok(app_name) => Ok(AbciAppView { app_name, omni_url: address }),
                },
            },
        }),
{
    reveal_with_fuel(create_run, 3);
}

/// A creation makes one client, for the resolved address and the identity as it
/// was given, to speak anonymously, and then asks that address for its status,
/// once. Nothing is done after a failure: where the address cannot be resolved
/// no client is made, and where no client can be made no server is asked.
pub proof fn create_stops_at_the_first_failure<I>(
    work: CreateWork<I>,
    omni_url: Seq<char>,
    server_id: I,
)
    ensures
        create_actions(work, CreateEventView::Received { omni_url, server_id }) == (match url_of(
            omni_url,
        ) {
            Err(text) => seq![CreateActionView::Finish(Err(text))],
            Ok(address) => {
                let key = Identity::Anonymous;
                let connecting = CreateActionView::Connect { omni_url: address, server_id, key };
                match (work.connect)(address, server_id, key) {
                    Err(text) => seq![connecting, CreateActionView::Finish(Err(text))],
                    Ok(_) => seq![
                        connecting,
                        CreateActionView::AskStatus { omni_url: address },
                        CreateActionView::Finish(app_created(address, (work.status)(address))),
                    ],
                }
            },
        }),
{
    reveal_with_fuel(create_actions, 3);
    let actions = create_actions(work, CreateEventView::Received { omni_url, server_id });
    match url_of(omni_url) {
        Err(text) => {},
        Ok(address) => {
            let key = Identity::Anonymous;
            let connecting = CreateActionView::Connect { omni_url: address, server_id, key };
            match (work.connect)(address, server_id, key) {
                Err(text) => {
                    assert(actions =~= seq![connecting, CreateActionView::Finish(Err(text))]);
                },
                Ok(_) => {
                    assert(actions =~= seq![
                        connecting,
                        CreateActionView::AskStatus { omni_url: address },
                        CreateActionView::Finish(app_created(address, (work.status)(address))),
                    ]);
                },
            }
        },
    }
}

/// The last thing done in a creation is to give its outcome.
pub proof fn create_ends_with_its_outcome<I>(work: CreateWork<I>, event: CreateEventView<I>)
    ensures
        create_actions(work, event).len() > 0,
        create_actions(work, event).last() == CreateActionView::<I>::Finish(
            create_run(work, event),
        ),
    decreases event.rounds_left(),
{
    match create_step(event) {
        CreateActionView::Connect { omni_url, server_id, key } => create_ends_with_its_outcome(
            work,
            CreateEventView::Connected {
                omni_url,
                connection: (work.connect)(omni_url, server_id, key),
            },
        ),
        CreateActionView::AskStatus { omni_url } => create_ends_with_its_outcome(
            work,
            CreateEventView::StatusTold { omni_url, status: (work.status)(omni_url) },
        ),
        CreateActionView::Finish(_) => {},
    }
}

/// The application sends the envelopes of queries and transactions, as they are,
/// to the resolved address that it was created with.
pub proof fn envelopes_go_to_the_resolved_address<I, E, B>(
    work: CreateWork<I>,
    omni_url: Seq<char>,
    server_id: I,
    app: AbciAppView,
    envelope: E,
)
    requires
        create_run(work, CreateEventView::Received { omni_url, server_id }) == Ok::<
            AbciAppView,
            Seq<char>,
        >(app),
    ensures
        url_of(omni_url) == Ok::<Seq<char>, Seq<char>>(app.omni_url),
        query_step(app.omni_url, QueryEventView::EnvelopeDecoded(Ok(envelope)))
            == (QueryActionView::Send { omni_url: app.omni_url, envelope }),
        deliver_tx_step::<E, B>(app.omni_url, DeliverTxEventView::EnvelopeDecoded(Ok(envelope)))
            == (DeliverTxActionView::<E, B>::Send { omni_url: app.omni_url, envelope }),
{
    create_answers(work, omni_url, server_id);
}

/// A client is made for the resolved address, character for character, and for
/// the identity as it was given, and speaks anonymously. Where the address cannot
/// be resolved, the creation ends with the reason, character for character.
pub proof fn clients_are_made_for_the_resolved_address<I>(
    omni_url: String,
    server_id: I,
    action: CreateAction<I>,
)
    requires
        call_ensures(
            AbciApp::create::<I>,
            (CreateEvent::Received { omni_url, server_id },),
            action,
        ),
    ensures
        url_of(omni_url@) matches Ok(url) ==> ({
            &&& action matches CreateAction::Connect { omni_url: address, server_id: id, key }
            &&& address@ == url
            &&& id == server_id
            &&& key == Identity::Anonymous
        }),
        url_of(omni_url@) matches Err(text) ==> (action matches CreateAction::Finish(Err(reason))
            && reason@ == text),
{
}

/// The same of an address that was resolved already.
pub proof fn connecting_takes_the_address_as_it_is<I>(
    address: Result<String, String>,
    server_id: I,
    action: CreateAction<I>,
)
    requires
        call_ensures(connect::<I>, (address, server_id), action),
    ensures
        address matches Ok(url) ==> ({
            &&& action matches CreateAction::Connect { omni_url, server_id: id, key }
            &&& omni_url@ == url@
            &&& id == server_id
            &&& key == Identity::Anonymous
        }),
        address matches Err(text) ==> (action matches CreateAction::Finish(Err(reason)) && reason@
            == text@),
{
}

/// Once there is a client the server at its address is asked for its status, and
/// the application has that address and the name that the server told. Where
/// either fails, the creation ends with the reason, character for character.
pub proof fn creation_ends_with_the_name_told<I>(event: CreateEvent<I>, action: CreateAction<I>)
    requires
        call_ensures(AbciApp::create::<I>, (event,), action),
    ensures
        event matches CreateEvent::Connected { omni_url, connection: Ok(_) } ==> (
        action matches CreateAction::AskStatus { omni_url: address } && address@ == omni_url@),
        event matches CreateEvent::Connected { omni_url, connection: Err(text) } ==> (
        action matches CreateAction::Finish(Err(reason)) && reason@ == text@),
        event matches CreateEvent::StatusTold { omni_url, status: Ok(name) } ==> (
        action matches CreateAction::Finish(Ok(app)) && app@.app_name == name@ && app@.omni_url
            == omni_url@),
        event matches CreateEvent::StatusTold { omni_url, status: Err(text) } ==> (
        action matches CreateAction::Finish(Err(reason)) && reason@ == text@),
{
}

} // verus!
