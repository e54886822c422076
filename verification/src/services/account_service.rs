//! Accounts: fetching the list of accounts with bounded retries, and reading
//! an account summary.
//!
//! Fetching is a call into the gateway and waiting is a sleep; both are the
//! caller's. What is decided here is whether another attempt is made, how
//! long to wait before it, and what is reported when none is left.

use crate::events::emitter::{emitted, AppEvent, AppEventView, EventEmitter};
use crate::ibkr::state::{stale_at, PositionCache, POSITION_MAX_AGE_SECS};
use crate::utils::text::{decimal, push_decimal, same_text};
use vstd::prelude::*;
use vstd::string::StringExecFns;

verus! {

/// How long to wait between two attempts, in milliseconds.
pub const RETRY_DELAY_MS: u64 = 2000;

/// What the caller of a retried fetch has to do next.
#[derive(Debug)]
pub enum RetryStep {
    /// Make an attempt now.
    Attempt,
    /// Wait for `millis`, then make an attempt.
    WaitThenAttempt { millis: u64 },
    /// Give up and report `message`.
    GiveUp { message: String },
}

/// A [`RetryStep`] as plain values.
pub enum RetryStepView {
    Attempt,
    WaitThenAttempt { millis: u64 },
    GiveUp { message: Seq<char> },
}

impl View for RetryStep {
    type V = RetryStepView;

    open spec fn view(&self) -> RetryStepView {
        match self {
            RetryStep::Attempt => RetryStepView::Attempt,
            RetryStep::WaitThenAttempt { millis } => RetryStepView::WaitThenAttempt {
                millis: *millis,
            },
            RetryStep::GiveUp { message } => RetryStepView::GiveUp { message: message@ },
        }
    }
}

/// What is reported when no attempt is left.
pub open spec fn failure_message(max_retries: u32, last_error: Seq<char>) -> Seq<char> {
    "Failed after "@ + decimal(max_retries as nat) + " retries: "@ + last_error
}

/// The first step of a fetch that may be tried `max_retries` times: an attempt
/// if any is allowed.
pub open spec fn first_step(max_retries: u32) -> RetryStepView {
    if max_retries > 0 {
        RetryStepView::Attempt
    } else {
        RetryStepView::GiveUp { message: failure_message(max_retries, Seq::empty()) }
    }
}

/// The step after the attempt number `failed` (counted from 1) has failed with
/// `error`: another attempt after a wait while fewer than `max_retries` were
/// made, else giving up.
pub open spec fn step_after_failure(max_retries: u32, failed: u32, error: Seq<char>) -> RetryStepView {
    if failed < max_retries {
        RetryStepView::WaitThenAttempt { millis: RETRY_DELAY_MS }
    } else {
        RetryStepView::GiveUp { message: failure_message(max_retries, error) }
    }
}

/// A fetch in progress: how many attempts are allowed and how many have
/// failed.
#[derive(Debug, Clone, Copy, PartialEq, Eq, Structural)]
pub struct RetryPolicy {
    pub max_retries: u32,
    pub retries: u32,
}

fn failure_text(max_retries: u32, last_error: &str) -> (r: String)
    ensures
        r@ == failure_message(max_retries, last_error@),
{
    let mut out = String::from_str("Failed after ");
    push_decimal(&mut out, max_retries as u64);
    out.append(" retries: ");
    out.append(last_error);
    out
}

impl RetryPolicy {
    /// Begins a fetch that may be tried `max_retries` times.
    pub fn begin(max_retries: u32) -> (r: (RetryPolicy, RetryStep))
        ensures
            r.0 == (RetryPolicy { max_retries, retries: 0 }),
            r.1@ == first_step(max_retries),
    {
        let policy = RetryPolicy { max_retries, retries: 0 };
        if max_retries > 0 {
            (policy, RetryStep::Attempt)
        } else {
            let message = failure_text(max_retries, "");
            proof {
                reveal_strlit("");
                assert(""@ =~= Seq::<char>::empty());
            }
            (policy, RetryStep::GiveUp { message })
        }
    }

    /// Takes the failure of an attempt, with the error as text. An attempt
    /// beyond the allowed number is not counted and ends the fetch as the
    /// last allowed one does.
    pub fn attempt_failed(&mut self, error: &str) -> (r: RetryStep)
        ensures
            final(self).max_retries == old(self).max_retries,
            final(self).retries == if old(self).retries < old(self).max_retries {
                (old(self).retries + 1) as u32
            } else {
                old(self).retries
            },
            r@ == step_after_failure(old(self).max_retries, final(self).retries, error@),
    {
        if self.retries < self.max_retries {
            self.retries = self.retries + 1;
        }
        if self.retries < self.max_retries {
            RetryStep::WaitThenAttempt { millis: RETRY_DELAY_MS }
        } else {
            RetryStep::GiveUp { message: failure_text(self.max_retries, error) }
        }
    }
}

/// The policy after `failures` attempts in a row have failed.
pub open spec fn after_failures(max_retries: u32, failures: nat) -> RetryPolicy
    decreases failures,
{
    if failures == 0 {
        RetryPolicy { max_retries, retries: 0 }
    } else {
        let before = after_failures(max_retries, (failures - 1) as nat);
        RetryPolicy {
            max_retries,
            retries: if before.retries < max_retries {
                (before.retries + 1) as u32
            } else {
                before.retries
            },
        }
    }
}

/// A fetch is tried no more often than it is allowed to: while fewer than the
/// allowed attempts have failed another one follows after the fixed wait, and
/// the failure of the last allowed attempt ends the fetch with that
/// attempt's error in the report.
pub proof fn law_retries_are_bounded(max_retries: u32, failures: nat, error: Seq<char>)
    requires
        1 <= failures <= max_retries,
    ensures
        after_failures(max_retries, failures).retries == failures,
        failures < max_retries ==> step_after_failure(max_retries, failures as u32, error)
            == (RetryStepView::WaitThenAttempt { millis: RETRY_DELAY_MS }),
        failures == max_retries ==> step_after_failure(max_retries, failures as u32, error)
            == (RetryStepView::GiveUp { message: failure_message(max_retries, error) }),
    decreases failures,
{
    if failures > 1 {
        law_retries_are_bounded(max_retries, (failures - 1) as nat, error);
    } else {
        assert(after_failures(max_retries, 0).retries == 0);
    }
}

/// The figures of an account summary that the report singles out.
#[derive(Debug, Clone, Copy, PartialEq, Eq, Structural)]
pub enum SummaryField {
    CashBalance,
    TotalValue,
    SecuritiesValue,
    BuyingPower,
    ExcessLiquidity,
}

/// The figure that a line tagged `tag` holds, if the report singles it out.
pub open spec fn field_of_tag(tag: Seq<char>) -> Option<SummaryField> {
    if tag == "TotalCashValue"@ {
        Some(SummaryField::CashBalance)
    } else if tag == "NetLiquidation"@ {
        Some(SummaryField::TotalValue)
    } else if tag == "GrossPositionValue"@ {
        Some(SummaryField::SecuritiesValue)
    } else if tag == "BuyingPower"@ {
        Some(SummaryField::BuyingPower)
    } else if tag == "ExcessLiquidity"@ {
        Some(SummaryField::ExcessLiquidity)
    } else {
        None
    }
}

/// Where positions are to be taken from.
#[derive(Debug, Clone, Copy, PartialEq, Eq, Structural)]
pub enum PositionsSource {
    /// The cache is fresh: use what it holds.
    Cache,
    /// The cache is stale: fetch from the gateway and cache the result.
    Gateway,
}

/// Reading accounts for the application.
pub struct AccountService;

impl AccountService {
    /// The figure that a summary line tagged `tag` holds, if the report
    /// singles it out.
    pub fn summary_field(tag: &str) -> (r: Option<SummaryField>)
        ensures
            r == field_of_tag(tag@),
    {
        if same_text(tag, "TotalCashValue") {
            Some(SummaryField::CashBalance)
        } else if same_text(tag, "NetLiquidation") {
            Some(SummaryField::TotalValue)
        } else if same_text(tag, "GrossPositionValue") {
            Some(SummaryField::SecuritiesValue)
        } else if same_text(tag, "BuyingPower") {
            Some(SummaryField::BuyingPower)
        } else if same_text(tag, "ExcessLiquidity") {
            Some(SummaryField::ExcessLiquidity)
        } else {
            None
        }
    }

    /// Tells the observers that the list of accounts was retrieved.
    pub fn accounts_retrieved(emitter: &mut EventEmitter, accounts: &Vec<String>)
        ensures
            final(emitter)@ == emitted(
                old(emitter)@,
                AppEventView::AccountsListChanged { accounts: accounts@.map_values(|a: String| a@) },
            ),
    {
        let mut copy: Vec<String> = Vec::new();
        let mut i: usize = 0;
        while i < accounts.len()
            invariant
                i <= accounts@.len(),
                copy@.len() == i,
                forall|j: int| 0 <= j < i ==> copy@[j]@ == accounts@[j]@,
            decreases accounts@.len() - i,
        {
            copy.push(accounts[i].clone());
            i = i + 1;
        }
        assert(copy@.map_values(|a: String| a@) =~= accounts@.map_values(|a: String| a@));
        let _ = emitter.emit(AppEvent::AccountsListChanged { accounts: copy });
    }

    /// Tells the observers of the summary of `account`. `data` is the report
    /// as JSON text.
    pub fn summary_reported(emitter: &mut EventEmitter, account: &str, data: String)
        ensures
            final(emitter)@ == emitted(
                old(emitter)@,
                AppEventView::AccountUpdate { account_id: account@, data: data@ },
            ),
    {
        let _ = emitter.emit(AppEvent::AccountUpdate { account_id: account.to_owned(), data });
    }

    /// Where positions are to be taken from at `now`: from the cache while it
    /// is younger than [`POSITION_MAX_AGE_SECS`], else from the gateway.
    pub fn positions_source<D>(cache: &PositionCache<D>, now: i64) -> (r: PositionsSource)
        ensures
            r == if stale_at(cache@.last_refresh, POSITION_MAX_AGE_SECS, now) {
                PositionsSource::Gateway
            } else {
                PositionsSource::Cache
            },
    {
        if cache.is_stale(POSITION_MAX_AGE_SECS, now) {
            PositionsSource::Gateway
        } else {
            PositionsSource::Cache
        }
    }
}

} // verus!
