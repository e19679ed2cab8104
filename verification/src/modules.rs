//! The modules that the ledger server is made of.

use vstd::prelude::*;

verus! {

/// A module of the ledger server.
#[derive(Clone, Copy, Debug, PartialEq, Eq)]
pub enum ServerModule {
    /// Balances and symbols.
    Ledger,
    /// Transfers.
    LedgerCommands,
    /// The log of events.
    Events,
    /// The store of identities; `check_webauthn` tells whether it demands a
    /// WebAuthn token.
    IdStore { check_webauthn: bool },
    /// Accounts that may have the features with the two identifiers.
    Account { features: (u32, u32) },
    /// Accounts with several signers.
    AccountMultisig,
    /// The back end of the ABCI bridge.
    Abci,
}

/// The identifiers of the features that an account may have.
pub open spec fn account_features() -> (u32, u32) {
    (0, 1)
}

/// The server's modules in the order in which they are added.
pub open spec fn modules_of(abci: bool, check_webauthn: bool) -> Seq<ServerModule> {
    let always = seq![
        ServerModule::Ledger,
        ServerModule::LedgerCommands,
        ServerModule::Events,
        ServerModule::IdStore { check_webauthn },
        ServerModule::Account { features: account_features() },
        ServerModule::AccountMultisig,
    ];
    if abci {
        always.push(ServerModule::Abci)
    } else {
        always
    }
}

/// Lists the server's modules, with the back end of the ABCI bridge if `abci`.
pub fn server_modules(abci: bool, check_webauthn: bool) -> (modules: Vec<ServerModule>)
    ensures
        modules@ == modules_of(abci, check_webauthn),
{
    let mut modules: Vec<ServerModule> = vec![
        ServerModule::Ledger,
        ServerModule::LedgerCommands,
        ServerModule::Events,
        ServerModule::IdStore { check_webauthn },
        ServerModule::Account { features: (0, 1) },
        ServerModule::AccountMultisig,
    ];
    if abci {
        modules.push(ServerModule::Abci);
    }
    modules
}

/// No module is added twice, and the back end of the ABCI bridge only on demand.
pub proof fn modules_are_distinct(abci: bool, check_webauthn: bool)
    ensures
        modules_of(abci, check_webauthn).no_duplicates(),
        modules_of(abci, check_webauthn).contains(ServerModule::Abci) <==> abci,
        modules_of(abci, check_webauthn).contains(ServerModule::IdStore { check_webauthn }),
        !modules_of(abci, check_webauthn).contains(
            ServerModule::IdStore { check_webauthn: !check_webauthn },
        ),
{
    let modules = modules_of(abci, check_webauthn);
    assert(modules[3] == ServerModule::IdStore { check_webauthn });
    if abci {
        assert(modules[6] == ServerModule::Abci);
    }
}

/// The server always has the same modules in the same order, but for the back end
/// of the ABCI bridge, which comes last and on demand, and for whether the store
/// of identities demands a WebAuthn token.
pub proof fn modules_change_with_the_flags_only(
    abci: bool,
    check_webauthn: bool,
    modules: Vec<ServerModule>,
)
    requires
        call_ensures(server_modules, (abci, check_webauthn), modules),
    ensures
        modules@.len() == (if abci {
            7int
        } else {
            6
        }),
        modules@[0] == ServerModule::Ledger,
        modules@[1] == ServerModule::LedgerCommands,
        modules@[2] == ServerModule::Events,
        modules@[3] == (ServerModule::IdStore { check_webauthn }),
        modules@[4] == (ServerModule::Account { features: (0, 1) }),
        modules@[5] == ServerModule::AccountMultisig,
        abci ==> modules@[6] == ServerModule::Abci,
{
}

} // verus!
