//! The ABCI messages that the bridge reads and writes, as plain values.
//!
//! Each response has a mathematical view, in which texts are sequences of
//! characters and byte strings sequences of bytes. A response that leaves a
//! field alone leaves it at the value that the protocol gives to an absent
//! field; the view's `empty` has every field at that value.

use vstd::prelude::*;

verus! {

/// A moment, counted from the Unix epoch.
#[derive(Clone, Copy, Debug, PartialEq, Eq, Structural)]
pub struct Timestamp {
    pub seconds: i64,
    pub nanos: i32,
}

impl Timestamp {
    /// The Unix epoch itself.
    #[verifier::allow_in_spec]
    pub fn unix_epoch() -> Timestamp
        returns
            (Timestamp { seconds: 0, nanos: 0 }),
    {
        Timestamp { seconds: 0, nanos: 0 }
    }
}

/// A span of time.
#[derive(Clone, Copy, Debug, PartialEq, Eq, Structural)]
pub struct Duration {
    pub seconds: i64,
    pub nanos: i32,
}

/// The part of a block header that the bridge reads.
#[derive(Clone, Copy, Debug, PartialEq, Eq, Structural)]
pub struct Header {
    pub time: Option<Timestamp>,
}

/// A block is about to begin.
#[derive(Clone, Copy, Debug, PartialEq, Eq, Structural)]
pub struct RequestBeginBlock {
    pub header: Option<Header>,
}

/// A query: `data` holds a signed envelope for the application server.
#[derive(Debug, PartialEq, Eq)]
pub struct RequestQuery {
    pub data: Vec<u8>,
}

/// A transaction: `tx` holds a signed envelope for the application server.
#[derive(Debug, PartialEq, Eq)]
pub struct RequestDeliverTx {
    pub tx: Vec<u8>,
}

/// A key and a value attached to an event.
#[derive(Debug, PartialEq, Eq)]
pub struct EventAttribute {
    pub key: Vec<u8>,
    pub value: Vec<u8>,
    pub index: bool,
}

/// Something that happened while a block was processed.
#[derive(Debug, PartialEq, Eq)]
pub struct Event {
    pub kind: String,
    pub attributes: Vec<EventAttribute>,
}

/// One step of a proof that a value is part of the state.
#[derive(Debug, PartialEq, Eq)]
pub struct ProofOp {
    pub kind: String,
    pub key: Vec<u8>,
    pub data: Vec<u8>,
}

/// A proof that a value is part of the state.
#[derive(Debug, PartialEq, Eq)]
pub struct ProofOps {
    pub ops: Vec<ProofOp>,
}

/// A validator's public key.
#[derive(Debug, PartialEq, Eq)]
pub enum PublicKey {
    Ed25519(Vec<u8>),
    Secp256k1(Vec<u8>),
}

/// A change of a validator's voting power.
#[derive(Debug, PartialEq, Eq)]
pub struct ValidatorUpdate {
    pub pub_key: Option<PublicKey>,
    pub power: i64,
}

/// Limits on the size of a block.
#[derive(Clone, Copy, Debug, PartialEq, Eq, Structural)]
pub struct BlockParams {
    pub max_bytes: i64,
    pub max_gas: i64,
}

/// How long evidence of misbehaviour counts.
#[derive(Clone, Copy, Debug, PartialEq, Eq, Structural)]
pub struct EvidenceParams {
    pub max_age_num_blocks: i64,
    pub max_age_duration: Option<Duration>,
    pub max_bytes: i64,
}

/// The consensus parameters that an application may set.
#[derive(Debug, PartialEq, Eq)]
pub struct ConsensusParams {
    pub block: Option<BlockParams>,
    pub evidence: Option<EvidenceParams>,
    pub validator_key_types: Option<Vec<String>>,
    pub app_version: Option<u64>,
}

/// What the application says of itself.
#[derive(Debug, PartialEq, Eq)]
pub struct ResponseInfo {
    pub data: String,
    pub version: String,
    pub app_version: u64,
    pub last_block_height: i64,
    pub last_block_app_hash: Vec<u8>,
}

/// View of [`ResponseInfo`].
pub ghost struct ResponseInfoView {
    pub data: Seq<char>,
    pub version: Seq<char>,
    pub app_version: u64,
    pub last_block_height: i64,
    pub last_block_app_hash: Seq<u8>,
}

impl ResponseInfoView {
    /// Every field absent.
    pub open spec fn empty() -> Self {
        ResponseInfoView {
            data: Seq::empty(),
            version: Seq::empty(),
            app_version: 0,
            last_block_height: 0,
            last_block_app_hash: Seq::empty(),
        }
    }
}

impl View for ResponseInfo {
    type V = ResponseInfoView;

    open spec fn view(&self) -> ResponseInfoView {
        ResponseInfoView {
            data: self.data@,
            version: self.version@,
            app_version: self.app_version,
            last_block_height: self.last_block_height,
            last_block_app_hash: self.last_block_app_hash@,
        }
    }
}

impl Default for ResponseInfo {
    fn default() -> (response: Self)
        ensures
            response@ == ResponseInfoView::empty(),
    {
        ResponseInfo {
            data: String::new(),
            version: String::new(),
            app_version: 0,
            last_block_height: 0,
            last_block_app_hash: Vec::new(),
        }
    }
}

/// The answer to the start of a chain.
#[derive(Debug, PartialEq, Eq)]
pub struct ResponseInitChain {
    pub consensus_params: Option<ConsensusParams>,
    pub validators: Vec<ValidatorUpdate>,
    pub app_hash: Vec<u8>,
}

/// View of [`ResponseInitChain`].
pub ghost struct ResponseInitChainView {
    pub consensus_params: Option<ConsensusParams>,
    pub validators: Seq<ValidatorUpdate>,
    pub app_hash: Seq<u8>,
}

impl ResponseInitChainView {
    /// Every field absent.
    pub open spec fn empty() -> Self {
        ResponseInitChainView {
            consensus_params: None,
            validators: Seq::empty(),
            app_hash: Seq::empty(),
        }
    }
}

impl View for ResponseInitChain {
    type V = ResponseInitChainView;

    open spec fn view(&self) -> ResponseInitChainView {
        ResponseInitChainView {
            consensus_params: self.consensus_params,
            validators: self.validators@,
            app_hash: self.app_hash@,
        }
    }
}

impl Default for ResponseInitChain {
    fn default() -> (response: Self)
        ensures
            response@ == ResponseInitChainView::empty(),
    {
        ResponseInitChain { consensus_params: None, validators: Vec::new(), app_hash: Vec::new() }
    }
}

/// The answer to a query; `code` is zero for success.
#[derive(Debug, PartialEq, Eq)]
pub struct ResponseQuery {
    pub code: u32,
    pub log: String,
    pub info: String,
    pub index: i64,
    pub key: Vec<u8>,
    pub value: Vec<u8>,
    pub proof_ops: Option<ProofOps>,
    pub height: i64,
    pub codespace: String,
}

/// View of [`ResponseQuery`].
pub ghost struct ResponseQueryView {
    pub code: u32,
    pub log: Seq<char>,
    pub info: Seq<char>,
    pub index: i64,
    pub key: Seq<u8>,
    pub value: Seq<u8>,
    pub proof_ops: Option<ProofOps>,
    pub height: i64,
    pub codespace: Seq<char>,
}

impl ResponseQueryView {
    /// Every field absent.
    pub open spec fn empty() -> Self {
        ResponseQueryView {
            code: 0,
            log: Seq::empty(),
            info: Seq::empty(),
            index: 0,
            key: Seq::empty(),
            value: Seq::empty(),
            proof_ops: None,
            height: 0,
            codespace: Seq::empty(),
        }
    }
}

impl View for ResponseQuery {
    type V = ResponseQueryView;

    open spec fn view(&self) -> ResponseQueryView {
        ResponseQueryView {
            code: self.code,
            log: self.log@,
            info: self.info@,
            index: self.index,
            key: self.key@,
            value: self.value@,
            proof_ops: self.proof_ops,
            height: self.height,
            codespace: self.codespace@,
        }
    }
}

impl Default for ResponseQuery {
    fn default() -> (response: Self)
        ensures
            response@ == ResponseQueryView::empty(),
    {
        ResponseQuery {
            code: 0,
            log: String::new(),
            info: String::new(),
            index: 0,
            key: Vec::new(),
            value: Vec::new(),
            proof_ops: None,
            height: 0,
            codespace: String::new(),
        }
    }
}

/// The answer to the beginning of a block.
#[derive(Debug, PartialEq, Eq)]
pub struct ResponseBeginBlock {
    pub events: Vec<Event>,
}

impl View for ResponseBeginBlock {
    type V = Seq<Event>;

    open spec fn view(&self) -> Seq<Event> {
        self.events@
    }
}

/// The answer to a transaction; `code` is zero for success.
#[derive(Debug, PartialEq, Eq)]
pub struct ResponseDeliverTx {
    pub code: u32,
    pub data: Vec<u8>,
    pub log: String,
    pub info: String,
    pub gas_wanted: i64,
    pub gas_used: i64,
    pub events: Vec<Event>,
    pub codespace: String,
}

/// View of [`ResponseDeliverTx`].
pub ghost struct ResponseDeliverTxView {
    pub code: u32,
    pub data: Seq<u8>,
    pub log: Seq<char>,
    pub info: Seq<char>,
    pub gas_wanted: i64,
    pub gas_used: i64,
    pub events: Seq<Event>,
    pub codespace: Seq<char>,
}

impl ResponseDeliverTxView {
    /// Every field absent.
    pub open spec fn empty() -> Self {
        ResponseDeliverTxView {
            code: 0,
            data: Seq::empty(),
            log: Seq::empty(),
            info: Seq::empty(),
            gas_wanted: 0,
            gas_used: 0,
            events: Seq::empty(),
            codespace: Seq::empty(),
        }
    }
}

impl View for ResponseDeliverTx {
    type V = ResponseDeliverTxView;

    open spec fn view(&self) -> ResponseDeliverTxView {
        ResponseDeliverTxView {
            code: self.code,
            data: self.data@,
            log: self.log@,
            info: self.info@,
            gas_wanted: self.gas_wanted,
            gas_used: self.gas_used,
            events: self.events@,
            codespace: self.codespace@,
        }
    }
}

impl Default for ResponseDeliverTx {
    fn default() -> (response: Self)
        ensures
            response@ == ResponseDeliverTxView::empty(),
    {
        ResponseDeliverTx {
            code: 0,
            data: Vec::new(),
            log: String::new(),
            info: String::new(),
            gas_wanted: 0,
            gas_used: 0,
            events: Vec::new(),
            codespace: String::new(),
        }
    }
}

/// The answer to the end of a block.
#[derive(Debug, PartialEq, Eq)]
pub struct ResponseEndBlock {
    pub validator_updates: Vec<ValidatorUpdate>,
    pub consensus_param_updates: Option<ConsensusParams>,
    pub events: Vec<Event>,
}

/// View of [`ResponseEndBlock`].
pub ghost struct ResponseEndBlockView {
    pub validator_updates: Seq<ValidatorUpdate>,
    pub consensus_param_updates: Option<ConsensusParams>,
    pub events: Seq<Event>,
}

impl ResponseEndBlockView {
    /// Every field absent.
    pub open spec fn empty() -> Self {
        ResponseEndBlockView {
            validator_updates: Seq::empty(),
            consensus_param_updates: None,
            events: Seq::empty(),
        }
    }
}

impl View for ResponseEndBlock {
    type V = ResponseEndBlockView;

    open spec fn view(&self) -> ResponseEndBlockView {
        ResponseEndBlockView {
            validator_updates: self.validator_updates@,
            consensus_param_updates: self.consensus_param_updates,
            events: self.events@,
        }
    }
}

impl Default for ResponseEndBlock {
    fn default() -> (response: Self)
        ensures
            response@ == ResponseEndBlockView::empty(),
    {
        ResponseEndBlock {
            validator_updates: Vec::new(),
            consensus_param_updates: None,
            events: Vec::new(),
        }
    }
}

/// The answer to a flush: it carries nothing.
#[derive(Clone, Copy, Debug, PartialEq, Eq, Structural)]
pub struct ResponseFlush {}

/// The answer to a commit.
#[derive(Debug, PartialEq, Eq)]
pub struct ResponseCommit {
    pub data: Vec<u8>,
    pub retain_height: i64,
}

/// View of [`ResponseCommit`].
pub ghost struct ResponseCommitView {
    pub data: Seq<u8>,
    pub retain_height: i64,
}

impl View for ResponseCommit {
    type V = ResponseCommitView;

    open spec fn view(&self) -> ResponseCommitView {
        ResponseCommitView { data: self.data@, retain_height: self.retain_height }
    }
}

} // verus!
