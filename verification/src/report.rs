//! The report: the balance, then the token accounts that are shown, each
//! under its catalog name where a catalog is at hand.
//!
//! A report is a list of lines, to be printed one after another. Catalog
//! names are an addition: without a catalog the same accounts are shown
//! without names.

use vstd::prelude::*;
use vstd::string::*;
use crate::account::{
    account_views,
    answer_entries,
    held_accounts,
    held_token_accounts,
    is_held,
    lemma_held_entry_is_shown,
    lemma_nothing_held,
    token_account,
    TokenAccount,
    TokenAccountView,
};
use crate::address::Address;
use crate::balance::{balance_line, balance_line_text};
use crate::json::{option_view, Json, JsonView};
use crate::metadata::{
    catalog_map,
    catalog_tokens,
    load_token_map,
    resolve,
    TokenInfoView,
    TokenMap,
};

verus! {

/// The texts of a list of lines.
pub open spec fn line_texts(lines: Seq<String>) -> Seq<Seq<char>> {
    lines.map_values(|line: String| line@)
}

/// The line that opens a scan of `owner`; a blank line follows it.
pub open spec fn banner_text(owner: Seq<char>) -> Seq<char> {
    "🔍 Scanning tokens for address: "@ + owner + "\n"@
}

/// The notice that stands in place of the token list where no account is
/// shown.
pub open spec fn no_tokens_text() -> Seq<char> {
    "⚠️  No SPL tokens found."@
}

/// The heading of the token list; a blank line goes before it.
pub open spec fn tokens_heading_text() -> Seq<char> {
    "\n📦 SPL Tokens:"@
}

/// The line that names a token.
pub open spec fn name_line_text(name: Seq<char>, mint: Seq<char>) -> Seq<char> {
    "• Token: "@ + name + " ("@ + mint + ")"@
}

/// The two lines, printed as one, that give a token's identifier and the
/// amount held.
pub open spec fn amount_line_text(mint: Seq<char>, amount_text: Seq<char>) -> Seq<char> {
    "• Mint: "@ + mint + "\n  Amount: "@ + amount_text
}

/// The lines for one account: with a catalog, the token's name first; the
/// identifier and the amount in any case.
pub open spec fn account_lines(
    account: TokenAccountView,
    names: Option<Map<Seq<char>, TokenInfoView>>,
) -> Seq<Seq<char>> {
    match names {
        Some(listed) => seq![
            name_line_text(resolve(listed, account.mint).name, account.mint),
            amount_line_text(account.mint, account.amount_text),
        ],
        None => seq![amount_line_text(account.mint, account.amount_text)],
    }
}

/// The lines for a list of accounts, account after account.
pub open spec fn holdings_lines(
    held: Seq<TokenAccountView>,
    names: Option<Map<Seq<char>, TokenInfoView>>,
) -> Seq<Seq<char>>
    decreases held.len(),
{
    if held.len() == 0 {
        Seq::empty()
    } else {
        holdings_lines(held.drop_last(), names) + account_lines(held.last(), names)
    }
}

/// The report for a balance and the accounts to show: the balance line, then
/// the notice where there is no account, else the heading and the accounts.
pub open spec fn report_lines(
    lamports: nat,
    held: Seq<TokenAccountView>,
    names: Option<Map<Seq<char>, TokenInfoView>>,
) -> Seq<Seq<char>> {
    if held.len() == 0 {
        seq![balance_line_text(lamports), no_tokens_text()]
    } else {
        seq![balance_line_text(lamports), tokens_heading_text()] + holdings_lines(held, names)
    }
}

/// The lookup table of an optional catalog.
pub open spec fn catalog_names(catalog: Option<JsonView>) -> Option<Map<Seq<char>, TokenInfoView>> {
    match catalog {
        Some(document) => Some(catalog_map(catalog_tokens(document))),
        None => None,
    }
}

/// The report for a balance, the node's answer on the token accounts and,
/// optionally, a catalog.
pub open spec fn wallet_report_lines(
    lamports: nat,
    answer: JsonView,
    catalog: Option<JsonView>,
) -> Seq<Seq<char>> {
    report_lines(lamports, held_accounts(answer_entries(answer)), catalog_names(catalog))
}

/// The number of lines that each account takes: two with a catalog, one
/// without.
pub open spec fn lines_per_account(names: Option<Map<Seq<char>, TokenInfoView>>) -> nat {
    if names is Some {
        2
    } else {
        1
    }
}

/// The list of accounts takes as many lines as each account takes, times
/// the number of accounts.
pub proof fn lemma_holdings_len(
    held: Seq<TokenAccountView>,
    names: Option<Map<Seq<char>, TokenInfoView>>,
)
    ensures
        holdings_lines(held, names).len() == held.len() * lines_per_account(names),
    decreases held.len(),
{
    if held.len() > 0 {
        lemma_holdings_len(held.drop_last(), names);
        assert(held.len() * lines_per_account(names) == held.drop_last().len() * lines_per_account(
            names,
        ) + lines_per_account(names)) by (nonlinear_arith)
            requires
                held.drop_last().len() == held.len() - 1,
        ;
    }
}

/// The amount line of the account `k` stands in the list of accounts, after
/// the lines of the accounts before it.
pub proof fn lemma_holdings_show_account(
    held: Seq<TokenAccountView>,
    names: Option<Map<Seq<char>, TokenInfoView>>,
    k: int,
)
    requires
        0 <= k < held.len(),
    ensures
        holdings_lines(held, names).len() == held.len() * lines_per_account(names),
        holdings_lines(held, names)[(k + 1) * lines_per_account(names) - 1] == amount_line_text(
            held[k].mint,
            held[k].amount_text,
        ),
        names matches Some(listed) ==> holdings_lines(held, names)[k * 2] == name_line_text(
            resolve(listed, held[k].mint).name,
            held[k].mint,
        ),
    decreases held.len(),
{
    let rest = held.drop_last();
    lemma_holdings_len(held, names);
    lemma_holdings_len(rest, names);
    let per = lines_per_account(names);
    if k < rest.len() {
        lemma_holdings_show_account(rest, names, k);
        assert((k + 1) * per <= rest.len() * per) by (nonlinear_arith)
            requires
                k + 1 <= rest.len(),
                per >= 1,
        ;
    }
}

/// Where no entry of the node's answer has an amount above zero, the report
/// is the balance line and the notice, and nothing else.
pub proof fn lemma_nothing_held_gives_notice(
    lamports: nat,
    answer: JsonView,
    catalog: Option<JsonView>,
)
    requires
        forall|i: int|
            0 <= i < answer_entries(answer).len() ==> !is_held(
                token_account(#[trigger] answer_entries(answer)[i]),
            ),
    ensures
        wallet_report_lines(lamports, answer, catalog) == seq![
            balance_line_text(lamports),
            no_tokens_text(),
        ],
{
    lemma_nothing_held(answer_entries(answer));
}

/// Every entry of the node's answer with an amount above zero has its
/// amount line in the report, under the mint that was read for it: the
/// entry's own, or "???" where it gives none.
pub proof fn lemma_held_entry_is_reported(
    lamports: nat,
    answer: JsonView,
    catalog: Option<JsonView>,
    i: int,
)
    requires
        0 <= i < answer_entries(answer).len(),
        is_held(token_account(answer_entries(answer)[i])),
    ensures
        wallet_report_lines(lamports, answer, catalog).contains(
            amount_line_text(
                token_account(answer_entries(answer)[i]).mint,
                token_account(answer_entries(answer)[i]).amount_text,
            ),
        ),
{
    let entries = answer_entries(answer);
    let held = held_accounts(entries);
    let names = catalog_names(catalog);
    let account = token_account(entries[i]);
    lemma_held_entry_is_shown(entries, i);
    let k = choose|k: int| 0 <= k < held.len() && held[k] == account;
    lemma_holdings_show_account(held, names, k);
    let per = lines_per_account(names);
    let at = (k + 1) * per - 1;
    assert(0 <= at < held.len() * per) by (nonlinear_arith)
        requires
            0 <= k < held.len(),
            per >= 1,
            at == (k + 1) * per - 1,
    ;
    let lines = wallet_report_lines(lamports, answer, catalog);
    assert(lines[2 + at] == holdings_lines(held, names)[at]);
}

/// The balance line is the first line of every report.
pub proof fn lemma_report_starts_with_balance(
    lamports: nat,
    held: Seq<TokenAccountView>,
    names: Option<Map<Seq<char>, TokenInfoView>>,
)
    ensures
        report_lines(lamports, held, names).len() >= 2,
        report_lines(lamports, held, names)[0] == balance_line_text(lamports),
{
}

/// What an optional table stands for.
pub open spec fn names_view(names: Option<&TokenMap>) -> Option<Map<Seq<char>, TokenInfoView>> {
    match names {
        Some(table) => Some(table@),
        None => None,
    }
}

/// Writes the line that opens a scan of `owner`.
pub fn scan_banner(owner: &Address) -> (line: String)
    ensures
        line@ == banner_text(owner@.text),
{
    let mut line = "🔍 Scanning tokens for address: ".to_owned();
    line.append(owner.as_str());
    line.append("\n");
    line
}

/// Writes the line that names a token.
pub fn name_line(name: &str, mint: &str) -> (line: String)
    ensures
        line@ == name_line_text(name@, mint@),
{
    let mut line = "• Token: ".to_owned();
    line.append(name);
    line.append(" (");
    line.append(mint);
    line.append(")");
    line
}

/// Writes the lines that give a token's identifier and the amount held.
pub fn amount_line(mint: &str, amount_text: &str) -> (line: String)
    ensures
        line@ == amount_line_text(mint@, amount_text@),
{
    let mut line = "• Mint: ".to_owned();
    line.append(mint);
    line.append("\n  Amount: ");
    line.append(amount_text);
    line
}

/// Appends the lines for one account to `lines`.
pub fn push_account_lines(
    lines: &mut Vec<String>,
    account: &TokenAccount,
    names: Option<&TokenMap>,
)
    ensures
        line_texts(final(lines)@) == line_texts(old(lines)@) + account_lines(
            account@,
            names_view(names),
        ),
{
    match names {
        Some(table) => {
            let info = table.resolve(account.mint.as_str());
            lines.push(name_line(info.name.as_str(), account.mint.as_str()));
        },
        None => {},
    }
    lines.push(amount_line(account.mint.as_str(), account.amount_text.as_str()));
    assert(line_texts(lines@) =~= line_texts(old(lines)@) + account_lines(
        account@,
        names_view(names),
    ));
}

/// Writes the report for a balance and the accounts to show.
pub fn render_report(
    lamports: u64,
    held: &Vec<TokenAccount>,
    names: Option<&TokenMap>,
) -> (lines: Vec<String>)
    ensures
        line_texts(lines@) == report_lines(
            lamports as nat,
            account_views(held@),
            names_view(names),
        ),
{
    let ghost shown = account_views(held@);
    let ghost listed = names_view(names);
    let mut lines: Vec<String> = Vec::new();
    lines.push(balance_line(lamports));
    if held.len() == 0 {
        lines.push("⚠️  No SPL tokens found.".to_owned());
        return lines;
    }
    lines.push("\n📦 SPL Tokens:".to_owned());
    let ghost head = seq![balance_line_text(lamports as nat), tokens_heading_text()];
    let mut i: usize = 0;
    while i < held.len()
        invariant
            i <= held@.len(),
            shown == account_views(held@),
            listed == names_view(names),
            head == seq![balance_line_text(lamports as nat), tokens_heading_text()],
            line_texts(lines@) == head + holdings_lines(shown.take(i as int), listed),
        decreases held@.len() - i,
    {
        proof {
            let next = shown.take(i + 1);
            assert(next.drop_last() =~= shown.take(i as int));
        }
        push_account_lines(&mut lines, &held[i], names);
        i += 1;
    }
    assert(shown.take(i as int) =~= shown);
    lines
}

/// Writes the report for a balance, the node's answer on the token accounts
/// and, optionally, a catalog of token names.
pub fn wallet_report(lamports: u64, answer: &Json, catalog: Option<&Json>) -> (lines: Vec<String>)
    ensures
        line_texts(lines@) == wallet_report_lines(
            lamports as nat,
            answer@,
            option_view(catalog),
        ),
{
    let held = held_token_accounts(answer);
    match catalog {
        Some(document) => {
            let names = load_token_map(document);
            render_report(lamports, &held, Some(&names))
        },
        None => render_report(lamports, &held, None),
    }
}

} // verus!
