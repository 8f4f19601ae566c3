//! Token accounts: what is read from each entry of the node's answer, and
//! which of them are shown.
//!
//! An entry is read leniently. A missing mint reads as "???", a missing
//! display amount as "0", a missing numeric amount as zero; no entry makes
//! the listing fail. Only accounts with an amount above zero are held to be
//! worth showing.

use vstd::prelude::*;
use vstd::string::*;
use crate::json::{
    child,
    item_views,
    member_of,
    number_or,
    number_or_default,
    text_or,
    text_or_default,
    Json,
    JsonNumber,
    JsonView,
    ZERO_BITS,
};

verus! {

/// One token account of the wallet.
#[derive(Debug)]
pub struct TokenAccount {
    /// The token's identifier.
    pub mint: String,
    /// The amount as the node wrote it, digit for digit.
    pub amount_text: String,
    /// The amount as a number; read only to see whether it is above zero.
    pub amount: JsonNumber,
}

/// What a [`TokenAccount`] stands for.
pub struct TokenAccountView {
    pub mint: Seq<char>,
    pub amount_text: Seq<char>,
    pub amount: JsonNumber,
}

impl View for TokenAccount {
    type V = TokenAccountView;

    open spec fn view(&self) -> TokenAccountView {
        TokenAccountView { mint: self.mint@, amount_text: self.amount_text@, amount: self.amount }
    }
}

/// What the accounts of a list stand for, in order.
pub open spec fn account_views(accounts: Seq<TokenAccount>) -> Seq<TokenAccountView> {
    accounts.map_values(|account: TokenAccount| account@)
}

/// The parsed account data of an entry: its member `account.data.parsed.info`.
pub open spec fn entry_info(entry: JsonView) -> Option<JsonView> {
    member_of(
        member_of(member_of(entry.get("account"@), "data"@), "parsed"@),
        "info"@,
    )
}

/// The token account that an entry describes.
pub open spec fn token_account(entry: JsonView) -> TokenAccountView {
    let info = entry_info(entry);
    let amount = member_of(info, "tokenAmount"@);
    TokenAccountView {
        mint: text_or(member_of(info, "mint"@), "???"@),
        amount_text: text_or(member_of(amount, "uiAmountString"@), "0"@),
        amount: number_or(member_of(amount, "uiAmount"@), JsonNumber::Float(ZERO_BITS)),
    }
}

/// Whether an account is shown: its amount is above zero.
pub open spec fn is_held(account: TokenAccountView) -> bool {
    account.amount.spec_is_positive()
}

/// The entries of the node's answer: the items of its member `value`, and
/// none where that is no array.
pub open spec fn answer_entries(answer: JsonView) -> Seq<JsonView> {
    match answer.get("value"@) {
        Some(JsonView::Array(entries)) => entries,
        _ => Seq::empty(),
    }
}

/// The accounts that are shown for a list of entries: those with an amount
/// above zero, in the order of the entries.
pub open spec fn held_accounts(entries: Seq<JsonView>) -> Seq<TokenAccountView> {
    entries.map_values(|entry: JsonView| token_account(entry)).filter(
        |account: TokenAccountView| is_held(account),
    )
}

/// Where no entry has an amount above zero, no account is shown.
pub proof fn lemma_nothing_held(entries: Seq<JsonView>)
    requires
        forall|i: int| 0 <= i < entries.len() ==> !is_held(token_account(#[trigger] entries[i])),
    ensures
        held_accounts(entries) == Seq::<TokenAccountView>::empty(),
{
    let read = |entry: JsonView| token_account(entry);
    let keep = |account: TokenAccountView| is_held(account);
    let accounts = entries.map_values(read);
    assert(forall|i: int| 0 <= i < accounts.len() ==> !keep(#[trigger] accounts[i]));
    accounts.lemma_all_neg_filter_empty(keep);
}

/// An entry with an amount above zero is shown, whatever else it holds or
/// lacks.
pub proof fn lemma_held_entry_is_shown(entries: Seq<JsonView>, i: int)
    requires
        0 <= i < entries.len(),
        is_held(token_account(entries[i])),
    ensures
        held_accounts(entries).contains(token_account(entries[i])),
{
    let read = |entry: JsonView| token_account(entry);
    let keep = |account: TokenAccountView| is_held(account);
    let accounts = entries.map_values(read);
    accounts.lemma_filter_contains(keep, i);
}

/// An entry that gives no mint, or none that is a text, is read with "???"
/// in the mint's place, and is shown like any other where its amount is
/// above zero.
pub proof fn lemma_entry_without_mint(entries: Seq<JsonView>, i: int)
    requires
        0 <= i < entries.len(),
        !(member_of(entry_info(entries[i]), "mint"@) matches Some(JsonView::Text(_))),
    ensures
        token_account(entries[i]).mint == "???"@,
        is_held(token_account(entries[i])) ==> held_accounts(entries).contains(
            token_account(entries[i]),
        ),
{
    if is_held(token_account(entries[i])) {
        lemma_held_entry_is_shown(entries, i);
    }
}

/// Every account that is shown was read from an entry with an amount above
/// zero.
pub proof fn lemma_shown_account_is_held(entries: Seq<JsonView>, k: int)
    requires
        0 <= k < held_accounts(entries).len(),
    ensures
        is_held(held_accounts(entries)[k]),
        exists|i: int|
            0 <= i < entries.len() && held_accounts(entries)[k] == token_account(
                #[trigger] entries[i],
            ),
{
    let read = |entry: JsonView| token_account(entry);
    let keep = |account: TokenAccountView| is_held(account);
    let accounts = entries.map_values(read);
    accounts.lemma_filter_pred(keep, k);
    let shown = accounts.filter(keep)[k];
    accounts.lemma_filter_contains_rev(keep, shown);
    let i = choose|i: int| 0 <= i < accounts.len() && accounts[i] == shown;
}

impl TokenAccount {
    /// Reads the token account that an entry of the node's answer describes.
    pub fn from_entry(entry: &Json) -> (account: TokenAccount)
        ensures
            account@ == token_account(entry@),
    {
        let info = child(child(child(entry.get("account"), "data"), "parsed"), "info");
        let amount = child(info, "tokenAmount");
        TokenAccount {
            mint: text_or_default(child(info, "mint"), "???"),
            amount_text: text_or_default(child(amount, "uiAmountString"), "0"),
            amount: number_or_default(child(amount, "uiAmount"), JsonNumber::Float(ZERO_BITS)),
        }
    }

    /// Whether the account is shown: its amount is above zero.
    pub fn is_held(&self) -> (held: bool)
        ensures
            held == is_held(self@),
    {
        self.amount.is_positive()
    }
}

/// The entries of the node's answer, as they came.
pub fn entries_of(answer: &Json) -> (entries: Option<&Vec<Json>>)
    ensures
        entries matches Some(found) ==> item_views(found@) == answer_entries(answer@),
        entries is None ==> answer_entries(answer@).len() == 0,
{
    match answer.get("value") {
        Some(value) => value.as_array(),
        None => None,
    }
}

/// Reads the accounts of `entries` and keeps those that are shown, in the
/// order in which they came.
pub fn held_of_entries(entries: &Vec<Json>) -> (held: Vec<TokenAccount>)
    ensures
        account_views(held@) == held_accounts(item_views(entries@)),
{
    let ghost all = item_views(entries@);
    let ghost read = |entry: JsonView| token_account(entry);
    let ghost keep = |account: TokenAccountView| is_held(account);
    let mut held: Vec<TokenAccount> = Vec::new();
    let mut i: usize = 0;
    while i < entries.len()
        invariant
            i <= entries@.len(),
            all == item_views(entries@),
            read == |entry: JsonView| token_account(entry),
            keep == |account: TokenAccountView| is_held(account),
            account_views(held@) == all.take(i as int).map_values(read).filter(keep),
        decreases entries@.len() - i,
    {
        let account = TokenAccount::from_entry(&entries[i]);
        proof {
            let before = all.take(i as int);
            assert(all.take(i + 1) =~= before.push(all[i as int]));
            assert(before.push(all[i as int]).map_values(read) =~= before.map_values(read).push(
                account@,
            ));
            before.map_values(read).lemma_filter_push(account@, keep);
        }
        if account.is_held() {
            held.push(account);
        }
        i += 1;
    }
    assert(all.take(i as int) =~= all);
    held
}

/// The accounts of the node's answer that are shown, in the order in which
/// the node gave them.
pub fn held_token_accounts(answer: &Json) -> (held: Vec<TokenAccount>)
    ensures
        account_views(held@) == held_accounts(answer_entries(answer@)),
{
    match entries_of(answer) {
        Some(entries) => held_of_entries(entries),
        None => Vec::new(),
    }
}

} // verus!
