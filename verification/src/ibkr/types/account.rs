//! Accounts and the values the gateway reports of them.

use vstd::prelude::*;

verus! {

/// An account as the gateway lists it.
#[derive(Debug, Clone)]
pub struct AccountInfo {
    pub account_id: String,
    pub account_type: String,
    pub currency: String,
}

/// One line of an account summary: a tag and its value.
#[derive(Debug, Clone)]
pub struct AccountSummary {
    pub account: String,
    pub tag: String,
    pub value: String,
    pub currency: String,
}

/// One value of an account, as the gateway streams it.
#[derive(Debug, Clone)]
pub struct AccountValue {
    pub key: String,
    pub value: String,
    pub currency: String,
    pub account: String,
}

/// An [`AccountValue`] as plain values.
pub struct AccountValueView {
    pub key: Seq<char>,
    pub value: Seq<char>,
    pub currency: Seq<char>,
    pub account: Seq<char>,
}

impl View for AccountValue {
    type V = AccountValueView;

    open spec fn view(&self) -> AccountValueView {
        AccountValueView {
            key: self.key@,
            value: self.value@,
            currency: self.currency@,
            account: self.account@,
        }
    }
}

/// An [`AccountSummary`] as plain values.
pub struct AccountSummaryView {
    pub account: Seq<char>,
    pub tag: Seq<char>,
    pub value: Seq<char>,
    pub currency: Seq<char>,
}

impl View for AccountSummary {
    type V = AccountSummaryView;

    open spec fn view(&self) -> AccountSummaryView {
        AccountSummaryView {
            account: self.account@,
            tag: self.tag@,
            value: self.value@,
            currency: self.currency@,
        }
    }
}

} // verus!
