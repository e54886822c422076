//! Reading the stream of updates that the gateway sends of an account.
//!
//! The stream carries the values of the account, the positions of its
//! portfolio and the time of the update, and ends with a mark. A summary is
//! made of the values, a list of positions of the portfolio entries; whatever
//! comes behind the end mark is not read. `P` is a portfolio entry as the
//! caller knows it.

use crate::ibkr::types::account::{AccountSummary, AccountSummaryView, AccountValue, AccountValueView};
use crate::ibkr::types::positions::Position;
use vstd::prelude::*;

verus! {

/// One item of the stream.
#[derive(Debug)]
pub enum AccountUpdate<P> {
    AccountValue(AccountValue),
    PortfolioValue(P),
    UpdateTime(String),
    End,
}

/// The summary line that the value `v` gives for `account`.
pub open spec fn summary_line(account: Seq<char>, v: AccountValueView) -> AccountSummaryView {
    AccountSummaryView { account, tag: v.key, value: v.value, currency: v.currency }
}

/// The first position at or behind `i` that holds the end mark; the length of
/// the stream if there is none.
pub open spec fn end_from<P>(updates: Seq<AccountUpdate<P>>, i: int) -> int
    decreases updates.len() - i,
{
    if 0 <= i < updates.len() {
        if updates[i] is End {
            i
        } else {
            end_from(updates, i + 1)
        }
    } else {
        updates.len() as int
    }
}

/// The summary lines of all values among `updates`, in order.
pub open spec fn lines_among<P>(account: Seq<char>, updates: Seq<AccountUpdate<P>>) -> Seq<
    AccountSummaryView,
>
    decreases updates.len(),
{
    if updates.len() == 0 {
        Seq::empty()
    } else {
        let before = lines_among(account, updates.drop_last());
        match updates.last() {
            AccountUpdate::AccountValue(v) => before.push(summary_line(account, v@)),
            _ => before,
        }
    }
}

/// The portfolio entries among `updates`, in order.
pub open spec fn entries_among<P>(updates: Seq<AccountUpdate<P>>) -> Seq<P>
    decreases updates.len(),
{
    if updates.len() == 0 {
        Seq::empty()
    } else {
        let before = entries_among(updates.drop_last());
        match updates.last() {
            AccountUpdate::PortfolioValue(p) => before.push(p),
            _ => before,
        }
    }
}

/// The summary of `account` that the stream `updates` gives: the lines of the
/// values that come before the end mark.
pub open spec fn summary_of<P>(account: Seq<char>, updates: Seq<AccountUpdate<P>>) -> Seq<
    AccountSummaryView,
> {
    lines_among(account, updates.take(end_from(updates, 0)))
}

/// The positions that the stream `updates` gives: the portfolio entries that
/// come before the end mark.
pub open spec fn positions_of<P>(updates: Seq<AccountUpdate<P>>) -> Seq<P> {
    entries_among(updates.take(end_from(updates, 0)))
}

/// The account whose positions are read: the first of the session's accounts.
pub fn positions_account(accounts: &Vec<String>) -> (r: Option<&String>)
    ensures
        match r {
            Some(a) => accounts@.len() > 0 && *a == accounts@[0],
            None => accounts@.len() == 0,
        },
{
    if accounts.len() > 0 {
        Some(&accounts[0])
    } else {
        None
    }
}

/// The account that a listed position is booked to: the one that its portfolio
/// entry names, or, where the entry names none, the account that was asked
/// for.
pub open spec fn account_of_position(own: Option<Seq<char>>, asked: Seq<char>) -> Seq<char> {
    match own {
        Some(account) => account,
        None => asked,
    }
}

/// The account that a listed position is booked to.
pub fn position_account(own: Option<String>, asked: &str) -> (r: String)
    ensures
        r@ == account_of_position(
            match own {
                Some(account) => Some(account@),
                None => None,
            },
            asked@,
        ),
{
    match own {
        Some(account) => account,
        None => asked.to_owned(),
    }
}

/// The position that a portfolio entry gives: booked to the entry's own
/// account or else to the account that was asked for, and with the symbol, the
/// figures, the kind of security, the currency, the exchange and the local
/// symbol of the entry, each as it came.
pub fn listed_position<D>(
    own_account: Option<String>,
    asked: &str,
    symbol: String,
    figures: D,
    contract_type: String,
    currency: String,
    exchange: String,
    local_symbol: String,
) -> (r: Position<D>)
    ensures
        r.account@ == account_of_position(
            match own_account {
                Some(account) => Some(account@),
                None => None,
            },
            asked@,
        ),
        r.symbol == symbol,
        r.figures == figures,
        r.contract_type == contract_type,
        r.currency == currency,
        r.exchange == exchange,
        r.local_symbol == local_symbol,
{
    Position {
        account: position_account(own_account, asked),
        symbol,
        figures,
        contract_type,
        currency,
        exchange,
        local_symbol,
    }
}

/// Whether `update` ends the stream.
pub fn is_end<P>(update: &AccountUpdate<P>) -> (r: bool)
    ensures
        r == (*update is End),
{
    match update {
        AccountUpdate::End => true,
        _ => false,
    }
}

/// The summary line that `update` gives for `account`, if it is a value.
pub fn summary_from<P>(account: &str, update: &AccountUpdate<P>) -> (r: Option<AccountSummary>)
    ensures
        match *update {
            AccountUpdate::AccountValue(v) => r is Some && r->0@ == summary_line(account@, v@),
            _ => r is None,
        },
{
    match update {
        AccountUpdate::AccountValue(v) => Some(
            AccountSummary {
                account: account.to_owned(),
                tag: v.key.clone(),
                value: v.value.clone(),
                currency: v.currency.clone(),
            },
        ),
        _ => None,
    }
}

/// The portfolio entry that `update` is, if it is one.
pub fn portfolio_from<P>(update: &AccountUpdate<P>) -> (r: Option<&P>)
    ensures
        match *update {
            AccountUpdate::PortfolioValue(p) => r == Some(&p),
            _ => r is None,
        },
{
    match update {
        AccountUpdate::PortfolioValue(p) => Some(p),
        _ => None,
    }
}

/// The lines of `v` as plain values.
pub open spec fn lines_view(v: Seq<AccountSummary>) -> Seq<AccountSummaryView> {
    v.map_values(|s: AccountSummary| s@)
}

/// The summary of `account` that the stream `updates` gives.
pub fn get_account_summary<P>(account: &str, updates: &Vec<AccountUpdate<P>>) -> (r: Vec<
    AccountSummary,
>)
    ensures
        lines_view(r@) == summary_of(account@, updates@),
{
    let mut out: Vec<AccountSummary> = Vec::new();
    let mut i: usize = 0;
    assert(updates@.take(0) =~= Seq::<AccountUpdate<P>>::empty());
    assert(lines_view(out@) =~= lines_among(account@, updates@.take(0)));
    while i < updates.len() && !is_end(&updates[i])
        invariant
            i <= updates@.len(),
            end_from(updates@, i as int) == end_from(updates@, 0),
            lines_view(out@) == lines_among(account@, updates@.take(i as int)),
        decreases updates@.len() - i,
    {
        let ghost before = out@;
        match summary_from(account, &updates[i]) {
            Some(line) => {
                out.push(line);
                assert(lines_view(out@) =~= lines_view(before).push(line@));
            },
            None => {},
        }
        assert(updates@.take(i + 1).drop_last() =~= updates@.take(i as int));
        i = i + 1;
    }
    out
}

/// The positions that the stream `updates` gives.
pub fn get_positions<P>(updates: &Vec<AccountUpdate<P>>) -> (r: Vec<&P>)
    ensures
        r@.map_values(|p: &P| *p) == positions_of(updates@),
{
    let mut out: Vec<&P> = Vec::new();
    let mut i: usize = 0;
    assert(updates@.take(0) =~= Seq::<AccountUpdate<P>>::empty());
    assert(out@.map_values(|p: &P| *p) =~= entries_among(updates@.take(0)));
    while i < updates.len() && !is_end(&updates[i])
        invariant
            i <= updates@.len(),
            end_from(updates@, i as int) == end_from(updates@, 0),
            out@.map_values(|p: &P| *p) == entries_among(updates@.take(i as int)),
        decreases updates@.len() - i,
    {
        let ghost before = out@;
        match portfolio_from(&updates[i]) {
            Some(entry) => {
                out.push(entry);
                assert(out@.map_values(|p: &P| *p) =~= before.map_values(|p: &P| *p).push(*entry));
            },
            None => {},
        }
        assert(updates@.take(i + 1).drop_last() =~= updates@.take(i as int));
        i = i + 1;
    }
    out
}

} // verus!
