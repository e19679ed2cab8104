//! What the bridge and the application server say to each other.

use crate::abci::Timestamp;
use vstd::prelude::*;

verus! {

/// What the server is told of a block that begins: its time, in seconds since
/// the Unix epoch, where the block's header has one.
#[derive(Clone, Copy, Debug, PartialEq, Eq, Structural)]
pub struct AbciBlock {
    pub time: Option<u64>,
}

/// What the server says of its state.
#[derive(Debug, PartialEq, Eq)]
pub struct AbciInfo {
    pub height: u64,
    pub hash: Vec<u8>,
}

/// View of [`AbciInfo`].
pub ghost struct AbciInfoView {
    pub height: u64,
    pub hash: Seq<u8>,
}

impl View for AbciInfo {
    type V = AbciInfoView;

    open spec fn view(&self) -> AbciInfoView {
        AbciInfoView { height: self.height, hash: self.hash@ }
    }
}

/// What the server says of a commit.
#[derive(Debug, PartialEq, Eq)]
pub struct AbciCommitInfo {
    pub retain_height: u64,
    pub hash: Vec<u8>,
}

/// View of [`AbciCommitInfo`].
pub ghost struct AbciCommitInfoView {
    pub retain_height: u64,
    pub hash: Seq<u8>,
}

impl View for AbciCommitInfo {
    type V = AbciCommitInfoView;

    open spec fn view(&self) -> AbciCommitInfoView {
        AbciCommitInfoView { retain_height: self.retain_height, hash: self.hash@ }
    }
}

/// A call to the server's ABCI endpoints, with its argument where it has one.
#[derive(Clone, Copy, Debug, PartialEq, Eq, Structural)]
pub enum Call {
    Info,
    BeginBlock(AbciBlock),
    EndBlock,
    Commit,
}

impl Call {
    /// The endpoint that the call goes to.
    pub fn endpoint(&self) -> (name: &'static str)
        ensures
            name@ == (match self {
                Call::Info => "abci.info"@,
                Call::BeginBlock(_) => "abci.beginBlock"@,
                Call::EndBlock => "abci.endBlock"@,
                Call::Commit => "abci.commit"@,
            }),
    {
        match self {
            Call::Info => "abci.info",
            Call::BeginBlock(_) => "abci.beginBlock",
            Call::EndBlock => "abci.endBlock",
            Call::Commit => "abci.commit",
        }
    }
}

/// Who a message comes from, or who a client speaks as.
#[derive(Debug, PartialEq, Eq)]
pub enum Identity {
    Anonymous,
    Address(Vec<u8>),
}

/// A response message of the application server.
///
/// `body` is the remainder of the message, which the bridge hands through. It is
/// absent where no message could be read: the remainder then is that of a
/// default message.
#[derive(Debug, PartialEq, Eq)]
pub struct ResponseMessage<B> {
    pub from: Identity,
    pub version: Option<u8>,
    pub timestamp: Option<Timestamp>,
    pub body: Option<B>,
}

impl<B> ResponseMessage<B> {
    /// The message with this body and nothing in it that may differ between two
    /// nodes: it is anonymous, has no version, and is dated to the Unix epoch.
    pub open spec fn canonical(body: Option<B>) -> Self {
        ResponseMessage {
            from: Identity::Anonymous,
            version: None,
            timestamp: Some(Timestamp::unix_epoch()),
            body,
        }
    }

    /// Takes out of the message what may differ between two nodes.
    pub fn canonicalize(self) -> (message: Self)
        ensures
            message == Self::canonical(self.body),
    {
        let mut message = self;
        // Consensus will sign the result, so the sender is unnecessary.
        message.from = Identity::Anonymous;
        // The version is ignored and removed.
        message.version = None;
        // Two nodes may see different times, so the time is that of the epoch.
        message.timestamp = Some(Timestamp::unix_epoch());
        message
    }
}

impl<B> Default for ResponseMessage<B> {
    fn default() -> (message: Self)
        ensures
            message == (ResponseMessage::<B> {
                from: Identity::Anonymous,
                version: None,
                timestamp: None,
                body: None,
            }),
    {
        ResponseMessage { from: Identity::Anonymous, version: None, timestamp: None, body: None }
    }
}

/// A message in canonical form stays as it is.
pub proof fn canonical_is_stable<B>(message: ResponseMessage<B>)
    ensures
        ResponseMessage::canonical(ResponseMessage::canonical(message.body).body)
            == ResponseMessage::canonical(message.body),
{
}

/// Of a message, only its body counts: two messages have one canonical form
/// exactly where they have one body.
pub proof fn canonical_keeps_the_body_only<B>(here: ResponseMessage<B>, there: ResponseMessage<B>)
    ensures
        ResponseMessage::canonical(here.body) == ResponseMessage::canonical(there.body)
            <==> here.body == there.body,
{
    assert(ResponseMessage::canonical(here.body).body == here.body);
    assert(ResponseMessage::canonical(there.body).body == there.body);
}

/// A message that was made canonical has the body it had. It is anonymous, has no
/// version, and is dated to the Unix epoch, whatever it held before.
pub proof fn canonicalize_keeps_the_body<B>(
    message: ResponseMessage<B>,
    canonical: ResponseMessage<B>,
)
    requires
        call_ensures(ResponseMessage::<B>::canonicalize, (message,), canonical),
    ensures
        canonical.body == message.body,
        canonical.from == Identity::Anonymous,
        canonical.version is None,
        canonical.timestamp matches Some(time) && time.seconds == 0 && time.nanos == 0,
{
}

/// Each kind of call has one endpoint, whatever its argument.
pub proof fn endpoint_is_that_of_the_kind(call: Call, name: &'static str)
    requires
        call_ensures(Call::endpoint, (&call,), name),
    ensures
        call is Info ==> name@ == "abci.info"@,
        call is BeginBlock ==> name@ == "abci.beginBlock"@,
        call is EndBlock ==> name@ == "abci.endBlock"@,
        call is Commit ==> name@ == "abci.commit"@,
{
}

} // verus!
