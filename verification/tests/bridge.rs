use many_node::abci::{
    Header, RequestBeginBlock, RequestDeliverTx, RequestQuery, ResponseBeginBlock, ResponseCommit,
    ResponseDeliverTx, ResponseEndBlock, ResponseFlush, ResponseInfo, ResponseInitChain,
    ResponseQuery, Timestamp,
};
use many_node::block::{BeginBlockAction, BeginBlockEvent, EndBlockAction, EndBlockEvent};
use many_node::bridge::AbciApp;
use many_node::commit::{CommitAction, CommitEvent};
use many_node::create::{connect, CreateAction, CreateEvent};
use many_node::deliver_tx::{DeliverTxAction, DeliverTxEvent};
use many_node::info::{InfoAction, InfoEvent};
use many_node::numbers::{to_signed, to_unsigned};
use many_node::omni::{AbciBlock, AbciCommitInfo, AbciInfo, Call, Identity, ResponseMessage};
use many_node::query::{QueryAction, QueryEvent};
use many_node::url::resolve_url;

fn text(s: &str) -> String {
    s.to_string()
}

/// Runs a whole creation for the server 7, and tells what was done outside.
fn create(
    omni_url: &str,
    connection: Result<(), String>,
    status: Result<String, String>,
) -> (Result<AbciApp, String>, Vec<String>) {
    let mut connection = Some(connection);
    let mut status = Some(status);
    let mut done = Vec::new();
    let mut event = CreateEvent::Received { omni_url: text(omni_url), server_id: 7u8 };
    loop {
        event = match AbciApp::create(event) {
            CreateAction::Connect { omni_url, server_id, key } => {
                assert_eq!(server_id, 7);
                assert_eq!(key, Identity::Anonymous);
                done.push(format!("connect {}", omni_url));
                CreateEvent::Connected { omni_url, connection: connection.take().unwrap() }
            }
            CreateAction::AskStatus { omni_url } => {
                done.push(format!("status {}", omni_url));
                CreateEvent::StatusTold { omni_url, status: status.take().unwrap() }
            }
            CreateAction::Finish(outcome) => return (outcome, done),
        };
    }
}

fn app() -> AbciApp {
    create("http://localhost:8000", Ok(()), Ok(text("ledger"))).0.unwrap()
}

#[test]
fn url_is_written_out() {
    assert_eq!(resolve_url("HTTP://LocalHost:8000"), Ok(text("http://localhost:8000/")));
    assert_eq!(resolve_url("http://a/b/../c"), Ok(text("http://a/c")));
}

#[test]
fn url_without_a_host_is_refused() {
    assert_eq!(
        resolve_url("file:///etc/hosts"),
        Err(text("builder error for url (file:///etc/hosts): URL scheme is not allowed"))
    );
}

#[test]
fn text_that_is_no_url_is_refused() {
    assert_eq!(
        resolve_url("localhost"),
        Err(text("builder error: relative URL without a base"))
    );
}

#[test]
fn create_keeps_name_and_address() {
    let app = app();
    assert_eq!(app.app_name(), "ledger");
    assert_eq!(app.omni_url(), "http://localhost:8000/");
    let copy = app.clone();
    assert_eq!(copy.app_name(), "ledger");
    assert_eq!(copy.omni_url(), "http://localhost:8000/");
}

#[test]
fn create_connects_and_asks_once() {
    let (outcome, done) = create("HTTP://A", Ok(()), Ok(text("n")));
    let app = outcome.unwrap();
    assert_eq!((app.app_name(), app.omni_url()), ("n", "http://a/"));
    assert_eq!(done, vec!["connect http://a/", "status http://a/"]);
}

#[test]
fn create_stops_at_the_address() {
    let (outcome, done) = create("not a url", Ok(()), Ok(text("n")));
    assert_eq!(outcome.unwrap_err(), "builder error: relative URL without a base");
    assert!(done.is_empty());
}

#[test]
fn create_stops_at_the_client() {
    let (outcome, done) = create("http://a", Err(text("no client")), Ok(text("n")));
    assert_eq!(outcome.unwrap_err(), "no client");
    assert_eq!(done, vec!["connect http://a/"]);
}

#[test]
fn create_stops_at_the_status() {
    let (outcome, done) = create("http://a", Ok(()), Err(text("no status")));
    assert_eq!(outcome.unwrap_err(), "no status");
    assert_eq!(done, vec!["connect http://a/", "status http://a/"]);
}

#[test]
fn create_at_takes_a_resolved_address() {
    let app = AbciApp::create_at(text("http://a/"), Ok(text("n"))).unwrap();
    assert_eq!((app.app_name(), app.omni_url()), ("n", "http://a/"));
    assert_eq!(AbciApp::create_at(text("u"), Err(text("s"))).unwrap_err(), "s");
}

#[test]
fn connect_takes_a_resolved_address() {
    match connect(Ok(text("http://a/")), 7u8) {
        CreateAction::Connect { omni_url, server_id, key } => {
            assert_eq!((omni_url, server_id, key), (text("http://a/"), 7, Identity::Anonymous));
        }
        other => panic!("{:?}", other),
    }
    match connect(Err(text("why")), 7u8) {
        CreateAction::Finish(outcome) => assert_eq!(outcome.unwrap_err(), "why"),
        other => panic!("{:?}", other),
    }
}

#[test]
fn query_passes_the_envelope_on() {
    let app = app();
    let received: QueryEvent<u8> = QueryEvent::Received(RequestQuery { data: vec![1, 2, 3] });
    assert_eq!(app.query(received), QueryAction::DecodeEnvelope(vec![1, 2, 3]));
    assert_eq!(
        app.query(QueryEvent::EnvelopeDecoded(Ok(7u8))),
        QueryAction::Send { omni_url: text("http://localhost:8000/"), envelope: 7u8 }
    );
    assert_eq!(app.query(QueryEvent::Replied(Ok(9u8))), QueryAction::EncodeReply(9u8));
    let encoded: QueryEvent<u8> = QueryEvent::ReplyEncoded(Ok(vec![4, 5]));
    assert_eq!(
        app.query(encoded),
        QueryAction::Respond(ResponseQuery { code: 0, value: vec![4, 5], ..Default::default() })
    );
}

#[test]
fn query_failures_have_their_codes() {
    let app = app();
    let events: Vec<(QueryEvent<u8>, u32)> = vec![
        (QueryEvent::EnvelopeDecoded(Err(text("why"))), 2),
        (QueryEvent::Replied(Err(text("why"))), 3),
        (QueryEvent::ReplyEncoded(Err(text("why"))), 1),
    ];
    for (event, code) in events {
        assert_eq!(
            app.query(event),
            QueryAction::Respond(ResponseQuery { code, log: text("why"), ..Default::default() })
        );
    }
}

#[test]
fn default_query_response_is_empty() {
    let response = ResponseQuery::default();
    assert_eq!(response.code, 0);
    assert_eq!(response.log, "");
    assert_eq!(response.info, "");
    assert_eq!(response.index, 0);
    assert_eq!(response.key, Vec::<u8>::new());
    assert_eq!(response.value, Vec::<u8>::new());
    assert_eq!(response.proof_ops, None);
    assert_eq!(response.height, 0);
    assert_eq!(response.codespace, "");
}

/// Runs a whole delivery, with a server that replies with `reply`.
fn deliver(app: &AbciApp, tx: Vec<u8>, reply: Result<Option<Vec<u8>>, String>, decodes: Result<ResponseMessage<u8>, String>) -> (ResponseDeliverTx, usize) {
    let mut reply = Some(reply);
    let mut decodes = Some(decodes);
    let mut event: DeliverTxEvent<u8, u8> = DeliverTxEvent::Received(RequestDeliverTx { tx });
    let mut rounds = 0;
    loop {
        event = match app.deliver_tx(event) {
            DeliverTxAction::DecodeEnvelope(bytes) => DeliverTxEvent::EnvelopeDecoded(
                bytes.first().copied().ok_or(text("empty")),
            ),
            DeliverTxAction::Send { omni_url, envelope } => {
                assert_eq!(omni_url, "http://localhost:8000/");
                assert_eq!(envelope, 42);
                DeliverTxEvent::Replied(reply.take().unwrap())
            }
            DeliverTxAction::DecodeResponse(_) => {
                DeliverTxEvent::ResponseDecoded(decodes.take().unwrap())
            }
            DeliverTxAction::EncodeResponse(message) => {
                assert_eq!(message.from, Identity::Anonymous);
                assert_eq!(message.version, None);
                assert_eq!(message.timestamp, Some(Timestamp { seconds: 0, nanos: 0 }));
                DeliverTxEvent::ResponseEncoded(match message.body {
                    Some(0) => Err(text("unwritable")),
                    Some(body) => Ok(vec![body]),
                    None => Ok(vec![]),
                })
            }
            DeliverTxAction::Respond(response) => return (response, rounds),
        };
        rounds += 1;
    }
}

fn message(from: Identity, version: Option<u8>, seconds: i64, body: u8) -> ResponseMessage<u8> {
    ResponseMessage {
        from,
        version,
        timestamp: Some(Timestamp { seconds, nanos: 5 }),
        body: Some(body),
    }
}

#[test]
fn deliveries_agree_between_nodes() {
    let app = app();
    let here = message(Identity::Address(vec![1]), Some(1), 1_600_000_000, 8);
    let there = message(Identity::Anonymous, None, -3, 8);
    let expected = ResponseDeliverTx { code: 0, data: vec![8], ..Default::default() };
    assert_eq!(deliver(&app, vec![42], Ok(Some(vec![1])), Ok(here)), (expected, 4));
    let expected = ResponseDeliverTx { code: 0, data: vec![8], ..Default::default() };
    assert_eq!(deliver(&app, vec![42], Ok(Some(vec![2])), Ok(there)), (expected, 4));
}

#[test]
fn unreadable_response_becomes_a_default_one() {
    let expected = ResponseDeliverTx { code: 0, data: vec![], ..Default::default() };
    assert_eq!(
        deliver(&app(), vec![42], Ok(Some(vec![1])), Err(text("garbled"))),
        (expected, 4)
    );
}

#[test]
fn delivery_failures_have_their_codes() {
    let app = app();
    let no_message = || Err(text("unused"));
    assert_eq!(
        deliver(&app, vec![], Ok(None), no_message()),
        (ResponseDeliverTx { code: 2, log: text("empty"), ..Default::default() }, 1)
    );
    assert_eq!(
        deliver(&app, vec![42], Err(text("down")), no_message()),
        (ResponseDeliverTx { code: 1, log: text("down"), ..Default::default() }, 2)
    );
    assert_eq!(
        deliver(&app, vec![42], Ok(None), Ok(message(Identity::Anonymous, None, 0, 0))),
        (ResponseDeliverTx { code: 3, ..Default::default() }, 4)
    );
}

#[test]
fn absent_payload_is_an_empty_one() {
    let app = app();
    let absent: DeliverTxEvent<u8, u8> = DeliverTxEvent::Replied(Ok(None));
    assert_eq!(app.deliver_tx(absent), DeliverTxAction::DecodeResponse(vec![]));
    let present: DeliverTxEvent<u8, u8> = DeliverTxEvent::Replied(Ok(Some(vec![3])));
    assert_eq!(app.deliver_tx(present), DeliverTxAction::DecodeResponse(vec![3]));
}

#[test]
fn canonical_messages_stay() {
    let once = message(Identity::Address(vec![1]), Some(1), 7, 8).canonicalize();
    let twice = message(Identity::Anonymous, None, 9, 8).canonicalize().canonicalize();
    assert_eq!(once, twice);
    assert_eq!(once.body, Some(8));
}

#[test]
fn default_delivery_response_is_empty() {
    let response = ResponseDeliverTx::default();
    assert_eq!(response.code, 0);
    assert_eq!(response.data, Vec::<u8>::new());
    assert_eq!(response.log, "");
    assert_eq!(response.info, "");
    assert_eq!(response.gas_wanted, 0);
    assert_eq!(response.gas_used, 0);
    assert!(response.events.is_empty());
    assert_eq!(response.codespace, "");
}

#[test]
fn info_gives_height_and_hash() {
    let app = app();
    assert_eq!(app.info("1.2.3", InfoEvent::Received), InfoAction::Call(Call::Info));
    assert_eq!(
        app.info("1.2.3", InfoEvent::Called(Ok(vec![9]))),
        InfoAction::Decode(vec![9])
    );
    let info = AbciInfo { height: 12, hash: vec![1, 2] };
    assert_eq!(
        app.info("1.2.3", InfoEvent::Decoded(Ok(info))),
        InfoAction::Respond(ResponseInfo {
            data: text("omni-abci-bridge(ledger)"),
            version: text("1.2.3"),
            app_version: 1,
            last_block_height: 12,
            last_block_app_hash: vec![1, 2],
        })
    );
}

#[test]
fn info_failures_are_told() {
    let app = app();
    let events = vec![
        InfoEvent::Called(Err(text("down"))),
        InfoEvent::Decoded(Err(text("down"))),
    ];
    for event in events {
        assert_eq!(
            app.info("1.2.3", event),
            InfoAction::Respond(ResponseInfo {
                data: text("An error occurred during call to abci.info:\ndown"),
                ..Default::default()
            })
        );
    }
}

#[test]
fn commit_gives_hash_and_height() {
    let app = app();
    assert_eq!(app.commit(CommitEvent::Received), CommitAction::Call(Call::Commit));
    assert_eq!(app.commit(CommitEvent::Called(Ok(vec![9]))), CommitAction::Decode(vec![9]));
    assert_eq!(
        app.commit(CommitEvent::Decoded(AbciCommitInfo { retain_height: 3, hash: vec![7] })),
        CommitAction::Respond(ResponseCommit { data: vec![7], retain_height: 3 })
    );
}

#[test]
fn commit_failure_is_told_in_utf8() {
    assert_eq!(
        app().commit(CommitEvent::Called(Err(text("n\u{e9}")))),
        CommitAction::Respond(ResponseCommit { data: vec![0x6e, 0xc3, 0xa9], retain_height: 0 })
    );
}

#[test]
fn block_time_is_the_header_time() {
    let app = app();
    let cases = vec![
        (None, None),
        (Some(Header { time: None }), None),
        (Some(Header { time: Some(Timestamp { seconds: 77, nanos: 8 }) }), Some(77)),
        (Some(Header { time: Some(Timestamp { seconds: -1, nanos: 0 }) }), Some(u64::MAX)),
    ];
    for (header, time) in cases {
        assert_eq!(
            app.begin_block(BeginBlockEvent::Received(RequestBeginBlock { header })),
            BeginBlockAction::Call(Call::BeginBlock(AbciBlock { time }))
        );
    }
}

#[test]
fn block_replies_do_not_count() {
    let app = app();
    for reply in [Ok(vec![1]), Err(text("down"))] {
        assert_eq!(
            app.begin_block(BeginBlockEvent::Called(reply)),
            BeginBlockAction::Respond(ResponseBeginBlock { events: vec![] })
        );
    }
    assert_eq!(app.end_block(EndBlockEvent::Received), EndBlockAction::Call(Call::EndBlock));
    for reply in [Ok(vec![1]), Err(text("down"))] {
        assert_eq!(
            app.end_block(EndBlockEvent::Called(reply)),
            EndBlockAction::Respond(ResponseEndBlock {
                validator_updates: vec![],
                consensus_param_updates: None,
                events: vec![],
            })
        );
    }
}

#[test]
fn chain_start_and_flush_answer_nothing() {
    assert_eq!(
        app().init_chain(),
        ResponseInitChain { consensus_params: None, validators: vec![], app_hash: vec![] }
    );
    assert_eq!(app().flush(), ResponseFlush {});
}

#[test]
fn calls_have_their_endpoints() {
    assert_eq!(Call::Info.endpoint(), "abci.info");
    assert_eq!(Call::BeginBlock(AbciBlock { time: None }).endpoint(), "abci.beginBlock");
    assert_eq!(Call::EndBlock.endpoint(), "abci.endBlock");
    assert_eq!(Call::Commit.endpoint(), "abci.commit");
}

#[test]
fn numbers_keep_their_bits() {
    assert_eq!(to_signed(5), 5);
    assert_eq!(to_signed(u64::MAX), -1);
    assert_eq!(to_signed(1 << 63), i64::MIN);
    assert_eq!(to_unsigned(5), 5);
    assert_eq!(to_unsigned(-1), u64::MAX);
    assert_eq!(to_unsigned(i64::MIN), 1 << 63);
    for n in [0, 1, u64::MAX, 1 << 63] {
        assert_eq!(to_unsigned(to_signed(n)), n);
    }
}
