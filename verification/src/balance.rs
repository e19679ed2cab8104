//! Balances given on the command line, for testing.
//!
//! Each has the form `<account_address>:<balance>:<symbol_address>`.

use crate::amount::{
    amount_of, characters, decimal, decimal_gives_the_number_back, decimal_is_digits, parse_amount,
};
use vstd::prelude::*;
use vstd::string::*;

verus! {

/// A balance as it was given: the texts of its three parts.
#[derive(Debug, PartialEq, Eq)]
pub struct BalanceParts {
    pub identity: String,
    pub amount: String,
    pub symbol: String,
}

/// View of [`BalanceParts`].
pub ghost struct BalancePartsView {
    pub identity: Seq<char>,
    pub amount: Seq<char>,
    pub symbol: Seq<char>,
}

impl View for BalanceParts {
    type V = BalancePartsView;

    open spec fn view(&self) -> BalancePartsView {
        BalancePartsView {
            identity: self.identity@,
            amount: self.amount@,
            symbol: self.symbol@,
        }
    }
}

impl BalancePartsView {
    /// The text that has these parts.
    pub open spec fn text(self) -> Seq<char> {
        self.identity + seq![':'] + self.amount + seq![':'] + self.symbol
    }

    /// Whether a text that is cut at its first two colons has these parts: no
    /// colon stands before the amount's end but the one that begins it.
    pub open spec fn well_formed(self) -> bool {
        !self.identity.contains(':') && !self.amount.contains(':')
    }
}

/// What is wrong with a balance.
#[derive(Clone, Copy, Debug, PartialEq, Eq, Structural)]
pub enum BalanceError {
    NoAmount,
    NoSymbol,
    InvalidIdentity,
    InvalidAmount,
    InvalidSymbol,
}

impl BalanceError {
    /// The error in words.
    pub fn message(&self) -> (text: &'static str)
        ensures
            text@ == (match self {
                BalanceError::NoAmount => "No amount."@,
                BalanceError::NoSymbol => "No symbol."@,
                BalanceError::InvalidIdentity => "Invalid identity."@,
                BalanceError::InvalidAmount => "Invalid amount."@,
                BalanceError::InvalidSymbol => "Invalid symbol."@,
            }),
    {
        match self {
            BalanceError::NoAmount => "No amount.",
            BalanceError::NoSymbol => "No symbol.",
            BalanceError::InvalidIdentity => "Invalid identity.",
            BalanceError::InvalidAmount => "Invalid amount.",
            BalanceError::InvalidSymbol => "Invalid symbol.",
        }
    }
}

/// Whether a text has exactly one colon.
pub open spec fn has_one_colon(text: Seq<char>) -> bool {
    exists|before: Seq<char>, after: Seq<char>|
        text == #[trigger] (before + seq![':'] + after) && !before.contains(':')
            && !after.contains(':')
}

/// Whether a text has two colons or more.
pub open spec fn has_two_colons(text: Seq<char>) -> bool {
    exists|parts: BalancePartsView| parts.well_formed() && text == #[trigger] parts.text()
}

/// The parts of a text that is cut at its first two colons, or what it lacks.
pub open spec fn parts_of(text: Seq<char>) -> Result<BalancePartsView, BalanceError> {
    if !text.contains(':') {
        Err(BalanceError::NoAmount)
    } else if has_one_colon(text) {
        Err(BalanceError::NoSymbol)
    } else {
        Ok(choose|parts: BalancePartsView| parts.well_formed() && text == #[trigger] parts.text())
    }
}

/// View of what [`split_balance`] gives.
pub open spec fn split_view(outcome: Result<BalanceParts, BalanceError>) -> Result<
    BalancePartsView,
    BalanceError,
> {
    match outcome {
        Ok(parts) => Ok(parts@),
        Err(error) => Err(error),
    }
}

/// A text with one colon has a colon, and neither one colon nor none is two.
proof fn colons_are_counted_once(text: Seq<char>)
    ensures
        has_one_colon(text) ==> text.contains(':') && !has_two_colons(text),
        has_two_colons(text) ==> text.contains(':'),
{
    if has_two_colons(text) {
        let parts = choose|parts: BalancePartsView|
            parts.well_formed() && text == #[trigger] parts.text();
        let first = parts.identity.len() as int;
        let second = first + 1 + parts.amount.len();
        assert(text[first] == ':' && text[second] == ':');
    }
    if has_one_colon(text) {
        let (before, after) = choose|before: Seq<char>, after: Seq<char>|
            text == #[trigger] (before + seq![':'] + after) && !before.contains(':')
                && !after.contains(':');
        assert(text[before.len() as int] == ':');
        assert forall|i: int| 0 <= i < text.len() && i != before.len() implies text[i] != ':' by {
            if i < before.len() {
                assert(before[i] == text[i]);
            } else {
                assert(after[i - before.len() - 1] == text[i]);
            }
        }
    }
}

/// Where the first colon stands from an index on, or the length if there is none.
fn find_colon(chars: &Vec<char>, from: usize) -> (at: usize)
    requires
        from <= chars.len(),
    ensures
        from <= at <= chars.len(),
        at < chars.len() ==> chars@[at as int] == ':',
        !chars@.subrange(from as int, at as int).contains(':'),
{
    let mut at: usize = from;
    while at < chars.len()
        invariant_except_break
            from <= at <= chars.len(),
            !chars@.subrange(from as int, at as int).contains(':'),
        ensures
            from <= at <= chars.len(),
            at < chars.len() ==> chars@[at as int] == ':',
            !chars@.subrange(from as int, at as int).contains(':'),
        decreases chars.len() - at,
    {
        if chars[at] == ':' {
            break;
        }
        assert(chars@.subrange(from as int, at + 1) == chars@.subrange(from as int, at as int).push(
            chars@[at as int],
        ));
        at = at + 1;
    }
    at
}

/// Takes a balance apart at its first two colons.
pub fn split_balance(text: &str) -> (outcome: Result<BalanceParts, BalanceError>)
    ensures
        split_view(outcome) == parts_of(text@),
        outcome matches Ok(parts) ==> parts@.well_formed() && text@ == parts@.text(),
{
    let chars = characters(text);
    let first = find_colon(&chars, 0);
    if first == chars.len() {
        assert(chars@.subrange(0, first as int) == text@);
        return Err(BalanceError::NoAmount);
    }
    assert(text@.contains(':')) by {
        assert(text@[first as int] == ':');
    }
    let second = find_colon(&chars, first + 1);
    if second == chars.len() {
        proof {
            let before = text@.subrange(0, first as int);
            let after = text@.subrange(first + 1, second as int);
            assert(text@ == before + seq![':'] + after);
        }
        return Err(BalanceError::NoSymbol);
    }
    let parts = BalanceParts {
        identity: text.substring_char(0, first).to_owned(),
        amount: text.substring_char(first + 1, second).to_owned(),
        symbol: text.substring_char(second + 1, chars.len()).to_owned(),
    };
    proof {
        assert(text@ == parts@.text());
        balance_text_gives_its_parts(parts@);
    }
    Ok(parts)
}

/// A text of the form `<account_address>:<balance>:<symbol_address>` has its
/// three parts, and no others, whatever the symbol holds.
pub proof fn balance_reads_in_one_way(parts: BalancePartsView, other: BalancePartsView)
    requires
        parts.well_formed(),
        other.well_formed(),
        parts.text() == other.text(),
    ensures
        parts == other,
{
    let text = parts.text();
    let (first, other_first) = (parts.identity.len() as int, other.identity.len() as int);
    assert(text[first] == ':' && text[other_first] == ':');
    assert(first == other_first) by {
        if first < other_first {
            assert(other.identity[first] == text[first]);
        } else if other_first < first {
            assert(parts.identity[other_first] == text[other_first]);
        }
    }
    let (second, other_second) = (
        first + 1 + parts.amount.len(),
        first + 1 + other.amount.len(),
    );
    assert(text[second] == ':' && text[other_second] == ':');
    assert(second == other_second) by {
        if second < other_second {
            assert(other.amount[second - first - 1] == text[second]);
        } else if other_second < second {
            assert(parts.amount[other_second - first - 1] == text[other_second]);
        }
    }
    assert(parts.identity == text.subrange(0, first));
    assert(other.identity == text.subrange(0, first));
    assert(parts.amount == text.subrange(first + 1, second));
    assert(other.amount == text.subrange(first + 1, second));
    assert(parts.symbol == text.subrange(second + 1, text.len() as int));
    assert(other.symbol == text.subrange(second + 1, text.len() as int));
}

/// A text of the form `<account_address>:<balance>:<symbol_address>`, in which
/// neither the address nor the balance holds a colon, gives these three parts.
pub proof fn balance_text_gives_its_parts(parts: BalancePartsView)
    requires
        parts.well_formed(),
    ensures
        parts_of(parts.text()) == Ok::<BalancePartsView, BalanceError>(parts),
{
    let text = parts.text();
    colons_are_counted_once(text);
    let chosen = choose|parts: BalancePartsView|
        parts.well_formed() && text == #[trigger] parts.text();
    balance_reads_in_one_way(parts, chosen);
}

/// The parts of a text make the text up again.
pub proof fn parts_make_up_the_text(text: Seq<char>)
    ensures
        parts_of(text) matches Ok(parts) ==> parts.well_formed() && parts.text() == text,
{
    if text.contains(':') && !has_one_colon(text) {
        text.index_of_first_ensures(':');
        let first = text.index_of_first(':')->0;
        let identity = text.subrange(0, first);
        let rest = text.subrange(first + 1, text.len() as int);
        assert(text == identity + seq![':'] + rest);
        assert(rest.contains(':'));
        rest.index_of_first_ensures(':');
        let second = rest.index_of_first(':')->0;
        let parts = BalancePartsView {
            identity,
            amount: rest.subrange(0, second),
            symbol: rest.subrange(second + 1, rest.len() as int),
        };
        assert(text == parts.text());
        assert(parts.well_formed());
    }
}

/// What happened while a balance was read. `I` is the type of identities.
#[derive(Debug, PartialEq, Eq)]
pub enum BalanceEvent<I> {
    /// The balance was given.
    Given(String),
    /// The identity of the account was read, if it is one.
    IdentityRead { parts: BalanceParts, read: Option<I> },
    /// The identity of the symbol was read, if it is one.
    SymbolRead { identity: I, amount: u64, read: Option<I> },
}

/// What to do next to read a balance.
#[derive(Debug, PartialEq, Eq)]
pub enum BalanceAction<I> {
    /// Read the identity of the account.
    ReadIdentity(BalanceParts),
    /// Read the identity of the symbol.
    ReadSymbol { identity: I, amount: u64, text: String },
    /// Set the balance.
    SetBalance { identity: I, amount: u64, symbol: I },
    /// Give up, for this reason.
    Abort(BalanceError),
}

/// View of [`BalanceEvent`].
pub ghost enum BalanceEventView<I> {
    Given(Seq<char>),
    IdentityRead { parts: BalancePartsView, read: Option<I> },
    SymbolRead { identity: I, amount: u64, read: Option<I> },
}

/// View of [`BalanceAction`].
pub ghost enum BalanceActionView<I> {
    ReadIdentity(BalancePartsView),
    ReadSymbol { identity: I, amount: u64, text: Seq<char> },
    SetBalance { identity: I, amount: u64, symbol: I },
    Abort(BalanceError),
}

impl<I> View for BalanceEvent<I> {
    type V = BalanceEventView<I>;

    open spec fn view(&self) -> BalanceEventView<I> {
        match *self {
            BalanceEvent::Given(text) => BalanceEventView::Given(text@),
            BalanceEvent::IdentityRead { parts, read } => BalanceEventView::IdentityRead {
                parts: parts@,
                read,
            },
            BalanceEvent::SymbolRead { identity, amount, read } => BalanceEventView::SymbolRead {
                identity,
                amount,
                read,
            },
        }
    }
}

impl<I> View for BalanceAction<I> {
    type V = BalanceActionView<I>;

    open spec fn view(&self) -> BalanceActionView<I> {
        match *self {
            BalanceAction::ReadIdentity(parts) => BalanceActionView::ReadIdentity(parts@),
            BalanceAction::ReadSymbol { identity, amount, text } => BalanceActionView::ReadSymbol {
                identity,
                amount,
                text: text@,
            },
            BalanceAction::SetBalance { identity, amount, symbol } => BalanceActionView::SetBalance {
                identity,
                amount,
                symbol,
            },
            BalanceAction::Abort(error) => BalanceActionView::Abort(error),
        }
    }
}

/// What follows an event.
pub open spec fn balance_step<I>(event: BalanceEventView<I>) -> BalanceActionView<I> {
    match event {
        BalanceEventView::Given(text) => match parts_of(text) {
            Ok(parts) => BalanceActionView::ReadIdentity(parts),
            Err(error) => BalanceActionView::Abort(error),
        },
        BalanceEventView::IdentityRead { parts, read } => match (
            read,
            amount_of(parts.amount),
        ) {
            (None, _) => BalanceActionView::Abort(BalanceError::InvalidIdentity),
            (Some(_), None) => BalanceActionView::Abort(BalanceError::InvalidAmount),
            (Some(identity), Some(amount)) => BalanceActionView::ReadSymbol {
                identity,
                amount,
                text: parts.symbol,
            },
        },
        BalanceEventView::SymbolRead { identity, amount, read } => match read {
            Some(symbol) => BalanceActionView::SetBalance { identity, amount, symbol },
            None => BalanceActionView::Abort(BalanceError::InvalidSymbol),
        },
    }
}

/// Says what follows an event while a balance is read.
pub fn read_balance<I>(event: BalanceEvent<I>) -> (action: BalanceAction<I>)
    ensures
        action@ == balance_step(event@),
{
    match event {
        BalanceEvent::Given(text) => match split_balance(text.as_str()) {
            Ok(parts) => BalanceAction::ReadIdentity(parts),
            Err(error) => BalanceAction::Abort(error),
        },
        BalanceEvent::IdentityRead { parts: _, read: None } => BalanceAction::Abort(
            BalanceError::InvalidIdentity,
        ),
        BalanceEvent::IdentityRead { parts, read: Some(identity) } => match parse_amount(
            parts.amount.as_str(),
        ) {
            Some(amount) => BalanceAction::ReadSymbol { identity, amount, text: parts.symbol },
            None => BalanceAction::Abort(BalanceError::InvalidAmount),
        },
        BalanceEvent::SymbolRead { identity, amount, read: Some(symbol) } => {
            BalanceAction::SetBalance { identity, amount, symbol }
        },
        BalanceEvent::SymbolRead { identity: _, amount: _, read: None } => BalanceAction::Abort(
            BalanceError::InvalidSymbol,
        ),
    }
}

impl<I> BalanceEventView<I> {
    /// How many rounds of outside work may still follow the event.
    pub open spec fn rounds_left(self) -> nat {
        match self {
            BalanceEventView::Given(_) => 2,
            BalanceEventView::IdentityRead { .. } => 1,
            BalanceEventView::SymbolRead { .. } => 0,
        }
    }
}

/// What a balance comes to from an event on, where texts are read as identities
/// by `identity_of`: the account, the amount and the symbol to set, or what is
/// wrong.
pub open spec fn balance_run<I>(
    identity_of: spec_fn(Seq<char>) -> Option<I>,
    event: BalanceEventView<I>,
) -> Result<(I, u64, I), BalanceError>
    decreases event.rounds_left(),
{
    match balance_step(event) {
        BalanceActionView::ReadIdentity(parts) => balance_run(
            identity_of,
            BalanceEventView::IdentityRead { parts, read: identity_of(parts.identity) },
        ),
        BalanceActionView::ReadSymbol { identity, amount, text } => balance_run(
            identity_of,
            BalanceEventView::SymbolRead { identity, amount, read: identity_of(text) },
        ),
        BalanceActionView::SetBalance { identity, amount, symbol } => Ok((identity, amount, symbol)),
        BalanceActionView::Abort(error) => Err(error),
    }
}

/// A balance is set for the account, the amount and the symbol that its three
/// parts stand for. What is wrong with one that is not set is that a part is
/// missing, or else the first part that stands for nothing.
pub proof fn balance_is_read_in_order<I>(
    identity_of: spec_fn(Seq<char>) -> Option<I>,
    text: Seq<char>,
)
    ensures
        balance_run(identity_of, BalanceEventView::Given(text)) == (match parts_of(text) {
            Err(error) => Err(error),
            Ok(parts) => match (
                identity_of(parts.identity),
                amount_of(parts.amount),
                identity_of(parts.symbol),
            ) {
                (None, _, _) => Err(BalanceError::InvalidIdentity),
                (Some(_), None, _) => Err(BalanceError::InvalidAmount),
                (Some(_), Some(_), None) => Err(BalanceError::InvalidSymbol),
                (Some(identity), Some(amount), Some(symbol)) => Ok((identity, amount, symbol)),
            },
        }),
{
    reveal_with_fuel(balance_run, 3);
}

/// A balance of the form `<account_address>:<balance>:<symbol_address>`, in which
/// neither the address nor the balance holds a colon, comes apart into these three,
/// character for character, whatever the symbol holds. One without a colon lacks
/// the amount, and one with a single colon lacks the symbol.
pub proof fn balance_comes_apart_at_its_colons(
    text: &str,
    identity: Seq<char>,
    amount: Seq<char>,
    symbol: Seq<char>,
    outcome: Result<BalanceParts, BalanceError>,
)
    requires
        !identity.contains(':'),
        !amount.contains(':'),
        call_ensures(split_balance, (text,), outcome),
    ensures
        text@ == identity + seq![':'] + amount + seq![':'] + symbol ==> (outcome matches Ok(parts)
            && parts.identity@ == identity && parts.amount@ == amount && parts.symbol@ == symbol),
        text@ == identity + seq![':'] + amount ==> outcome == Err::<BalanceParts, BalanceError>(
            BalanceError::NoSymbol,
        ),
        text@ == identity ==> outcome == Err::<BalanceParts, BalanceError>(BalanceError::NoAmount),
{
    let parts = BalancePartsView { identity, amount, symbol };
    if text@ == identity + seq![':'] + amount + seq![':'] + symbol {
        assert(text@ == parts.text());
        balance_text_gives_its_parts(parts);
    }
    if text@ == identity + seq![':'] + amount {
        assert(has_one_colon(text@));
        assert(text@[identity.len() as int] == ':');
    }
}

/// A balance that is given comes apart in the same way, and the identity of the
/// account is read next.
pub proof fn balance_is_read_from_its_parts<I>(
    text: String,
    identity: Seq<char>,
    amount: Seq<char>,
    symbol: Seq<char>,
    action: BalanceAction<I>,
)
    requires
        !identity.contains(':'),
        !amount.contains(':'),
        call_ensures(read_balance::<I>, (BalanceEvent::Given(text),), action),
    ensures
        text@ == identity + seq![':'] + amount + seq![':'] + symbol ==> (
        action matches BalanceAction::ReadIdentity(parts) && parts.identity@ == identity
            && parts.amount@ == amount && parts.symbol@ == symbol),
        text@ == identity + seq![':'] + amount ==> action == BalanceAction::<I>::Abort(
            BalanceError::NoSymbol,
        ),
        text@ == identity ==> action == BalanceAction::<I>::Abort(BalanceError::NoAmount),
{
    let parts = BalancePartsView { identity, amount, symbol };
    if text@ == identity + seq![':'] + amount + seq![':'] + symbol {
        assert(text@ == parts.text());
        balance_text_gives_its_parts(parts);
    }
    if text@ == identity + seq![':'] + amount {
        assert(has_one_colon(text@));
        assert(text@[identity.len() as int] == ':');
    }
}

/// Once the account's identity was read, the symbol is read next, as it was given;
/// the identity is kept, and the amount is the number that its part writes in
/// decimal. The balance is then set for the identity, the amount and the symbol as
/// they were read.
pub proof fn balance_keeps_what_was_read<I>(
    event: BalanceEvent<I>,
    n: nat,
    action: BalanceAction<I>,
)
    requires
        call_ensures(read_balance::<I>, (event,), action),
    ensures
        event matches BalanceEvent::IdentityRead { parts, read: Some(account) } ==> (parts.amount@
            == decimal(n) && n <= u64::MAX ==> (action matches BalanceAction::ReadSymbol {
            identity,
            amount,
            text,
        } && identity == account && amount == n && text@ == parts.symbol@)),
        event matches BalanceEvent::IdentityRead { parts, read: Some(_) } ==> (amount_of(
            parts.amount@,
        ) matches Some(read_amount) ==> (action matches BalanceAction::ReadSymbol {
            identity: _,
            amount,
            text,
        } && amount == read_amount && text@ == parts.symbol@)),
        event matches BalanceEvent::IdentityRead { parts, read: Some(_) } ==> (amount_of(
            parts.amount@,
        ) is None ==> action == BalanceAction::<I>::Abort(BalanceError::InvalidAmount)),
        event matches BalanceEvent::IdentityRead { parts: _, read: None } ==> action
            == BalanceAction::<I>::Abort(BalanceError::InvalidIdentity),
        event matches BalanceEvent::SymbolRead { identity, amount, read: Some(symbol) } ==> action
            == (BalanceAction::SetBalance { identity, amount, symbol }),
        event matches BalanceEvent::SymbolRead { identity: _, amount: _, read: None } ==> action
            == BalanceAction::<I>::Abort(BalanceError::InvalidSymbol),
{
    decimal_gives_the_number_back(n);
}

/// A balance `<account_address>:<balance>:<symbol_address>` whose middle writes a
/// number in decimal is set to that number, for the account and the symbol that
/// the addresses stand for, if the number fits 64 bits.
pub proof fn balance_is_set_to_the_number_written<I>(
    identity_of: spec_fn(Seq<char>) -> Option<I>,
    identity: Seq<char>,
    n: nat,
    symbol: Seq<char>,
)
    requires
        !identity.contains(':'),
        identity_of(identity) is Some,
        identity_of(symbol) is Some,
    ensures
        balance_run(
            identity_of,
            BalanceEventView::Given(identity + seq![':'] + decimal(n) + seq![':'] + symbol),
        ) == (if n <= u64::MAX {
            Ok((identity_of(identity)->0, n as u64, identity_of(symbol)->0))
        } else {
            Err(BalanceError::InvalidAmount)
        }),
{
    let parts = BalancePartsView { identity, amount: decimal(n), symbol };
    decimal_is_digits(n);
    assert(!decimal(n).contains(':'));
    balance_text_gives_its_parts(parts);
    decimal_gives_the_number_back(n);
    balance_is_read_in_order(identity_of, parts.text());
}

} // verus!
