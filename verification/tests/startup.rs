use many_node::amount::parse_amount;
use many_node::balance::{
    read_balance, split_balance, BalanceAction, BalanceError, BalanceEvent, BalanceParts,
};
use many_node::log::{log_level, LogLevel};
use many_node::modules::{server_modules, ServerModule};
use many_node::store::{prepare_store, DeletionFailure, StoreAction, StoreEvent};

#[test]
fn log_level_starts_at_info() {
    assert_eq!(log_level(0, 0), LogLevel::Info);
}

#[test]
fn verbose_increases_to_debug() {
    assert_eq!(log_level(1, 0), LogLevel::Debug);
    assert_eq!(log_level(2, 0), LogLevel::Trace);
    assert_eq!(log_level(125, 0), LogLevel::Trace);
}

#[test]
fn quiet_suppresses_more_and_more() {
    assert_eq!(log_level(0, 1), LogLevel::Warn);
    assert_eq!(log_level(0, 2), LogLevel::Error);
    assert_eq!(log_level(0, 3), LogLevel::Off);
    assert_eq!(log_level(0, 127), LogLevel::Off);
}

#[test]
fn verbose_and_quiet_cancel_out() {
    for n in 0..100 {
        assert_eq!(log_level(n, n), LogLevel::Info);
        assert_eq!(log_level(n + 1, n), LogLevel::Debug);
    }
}

/// Runs a whole preparation.
fn prepare(
    clean: bool,
    state: Option<&str>,
    deletion: Result<(), DeletionFailure>,
    found: bool,
) -> StoreAction<&str> {
    match prepare_store(state, StoreEvent::Started { clean }) {
        StoreAction::Delete => prepare_store(state, StoreEvent::Deleted(deletion)),
        StoreAction::LookFor => prepare_store(state, StoreEvent::LookedFor(found)),
        other => other,
    }
}

#[test]
fn clean_start_uses_the_state() {
    let state = Some("state.json");
    for found in [true, false] {
        assert_eq!(prepare(true, state, Ok(()), found), StoreAction::SetUp(state));
        assert_eq!(
            prepare(true, state, Err(DeletionFailure::NotFound), found),
            StoreAction::SetUp(state)
        );
    }
    assert_eq!(prepare(true, None, Ok(()), true), StoreAction::SetUp(None));
}

#[test]
fn kept_store_ignores_the_state() {
    let state = Some("state.json");
    assert_eq!(prepare(false, state, Ok(()), true), StoreAction::SetUp(None));
    assert_eq!(prepare(false, state, Ok(()), false), StoreAction::SetUp(state));
}

#[test]
fn store_that_cannot_be_deleted_aborts() {
    let failure = Err(DeletionFailure::Other("denied".to_string()));
    assert_eq!(
        prepare(true, Some("s"), failure, true),
        StoreAction::Abort("Error: denied".to_string())
    );
}

#[test]
fn modules_follow_the_flags() {
    let always = vec![
        ServerModule::Ledger,
        ServerModule::LedgerCommands,
        ServerModule::Events,
        ServerModule::IdStore { check_webauthn: true },
        ServerModule::Account { features: (0, 1) },
        ServerModule::AccountMultisig,
    ];
    assert_eq!(server_modules(false, true), always);
    let mut with_abci = always;
    with_abci.push(ServerModule::Abci);
    assert_eq!(server_modules(true, true), with_abci);
    with_abci[3] = ServerModule::IdStore { check_webauthn: false };
    assert_eq!(server_modules(true, false), with_abci);
}

fn parts(identity: &str, amount: &str, symbol: &str) -> BalanceParts {
    BalanceParts {
        identity: identity.to_string(),
        amount: amount.to_string(),
        symbol: symbol.to_string(),
    }
}

#[test]
fn balance_splits_at_the_first_two_colons() {
    assert_eq!(split_balance("maa:1000:mqb"), Ok(parts("maa", "1000", "mqb")));
    assert_eq!(split_balance("a:b:c:d"), Ok(parts("a", "b", "c:d")));
    assert_eq!(split_balance("::"), Ok(parts("", "", "")));
    assert_eq!(split_balance("\u{e9}:\u{1f600}:x"), Ok(parts("\u{e9}", "\u{1f600}", "x")));
}

#[test]
fn balance_parts_may_be_missing() {
    assert_eq!(split_balance(""), Err(BalanceError::NoAmount));
    assert_eq!(split_balance("maa"), Err(BalanceError::NoAmount));
    assert_eq!(split_balance("maa:1"), Err(BalanceError::NoSymbol));
    assert_eq!(split_balance(":"), Err(BalanceError::NoSymbol));
}

#[test]
fn amounts_are_decimal() {
    let texts = [
        "0", "7", "1000", "007", "+7", "18446744073709551615", "18446744073709551616",
        "99999999999999999999", "", "+", "-1", "++1", " 1", "1 ", "1_000", "0x10", "1.5",
        "\u{661}",
    ];
    for text in texts {
        assert_eq!(parse_amount(text), text.parse::<u64>().ok(), "{}", text);
    }
    assert_eq!(parse_amount("+18446744073709551615"), Some(u64::MAX));
}

/// Reads a whole balance, where identities are texts that begin with `m`.
fn read(text: &str) -> BalanceAction<String> {
    let identity_of = |text: &str| {
        if text.starts_with('m') {
            Some(text.to_string())
        } else {
            None
        }
    };
    let mut event = BalanceEvent::Given(text.to_string());
    loop {
        event = match read_balance(event) {
            BalanceAction::ReadIdentity(parts) => {
                let read = identity_of(&parts.identity);
                BalanceEvent::IdentityRead { parts, read }
            }
            BalanceAction::ReadSymbol { identity, amount, text } => {
                BalanceEvent::SymbolRead { identity, amount, read: identity_of(&text) }
            }
            other => return other,
        };
    }
}

#[test]
fn balance_is_set() {
    assert_eq!(
        read("maa:1000:mqb"),
        BalanceAction::SetBalance {
            identity: "maa".to_string(),
            amount: 1000,
            symbol: "mqb".to_string(),
        }
    );
}

#[test]
fn first_wrong_part_is_told() {
    let cases = [
        ("x", BalanceError::NoAmount),
        ("x:y", BalanceError::NoSymbol),
        ("x:y:z", BalanceError::InvalidIdentity),
        ("m:y:z", BalanceError::InvalidAmount),
        ("m:1:z", BalanceError::InvalidSymbol),
    ];
    for (text, error) in cases {
        assert_eq!(read(text), BalanceAction::Abort(error));
    }
}

#[test]
fn errors_have_their_words() {
    assert_eq!(BalanceError::NoAmount.message(), "No amount.");
    assert_eq!(BalanceError::NoSymbol.message(), "No symbol.");
    assert_eq!(BalanceError::InvalidIdentity.message(), "Invalid identity.");
    assert_eq!(BalanceError::InvalidAmount.message(), "Invalid amount.");
    assert_eq!(BalanceError::InvalidSymbol.message(), "Invalid symbol.");
}
