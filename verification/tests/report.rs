use wallet_scan::account::TokenAccount;
use wallet_scan::address::Address;
use wallet_scan::json::{Json, JsonNumber, Member};
use wallet_scan::metadata::{load_token_map, TokenMap};
use wallet_scan::report::{
    amount_line, name_line, push_account_lines, render_report, scan_banner, wallet_report,
};

fn text(value: &str) -> Json {
    Json::Text(value.to_string())
}

fn float(value: f64) -> Json {
    Json::Number(JsonNumber::Float(value.to_bits()))
}

fn object(members: Vec<(&str, Json)>) -> Json {
    Json::Object(
        members
            .into_iter()
            .map(|(key, value)| Member { key: key.to_string(), value })
            .collect(),
    )
}

fn entry_of_info(info: Json) -> Json {
    object(vec![(
        "account",
        object(vec![("data", object(vec![("parsed", object(vec![("info", info)]))]))]),
    )])
}

fn entry(mint: &str, amount_text: &str, amount: f64) -> Json {
    entry_of_info(object(vec![
        ("mint", text(mint)),
        (
            "tokenAmount",
            object(vec![("uiAmount", float(amount)), ("uiAmountString", text(amount_text))]),
        ),
    ]))
}

fn answer(entries: Vec<Json>) -> Json {
    object(vec![("value", Json::Array(entries))])
}

fn catalog(tokens: Vec<(&str, &str, &str)>) -> Json {
    object(vec![(
        "tokens",
        Json::Array(
            tokens
                .into_iter()
                .map(|(address, name, symbol)| {
                    object(vec![
                        ("address", text(address)),
                        ("name", text(name)),
                        ("symbol", text(symbol)),
                    ])
                })
                .collect(),
        ),
    )])
}

fn account(mint: &str, amount_text: &str, amount: f64) -> TokenAccount {
    TokenAccount {
        mint: mint.to_string(),
        amount_text: amount_text.to_string(),
        amount: JsonNumber::Float(amount.to_bits()),
    }
}

#[test]
fn banner_names_the_address() {
    let address = Address::parse("11111111111111111111111111111111").unwrap();
    assert_eq!(
        scan_banner(&address),
        "🔍 Scanning tokens for address: 11111111111111111111111111111111\n"
    );
}

#[test]
fn token_lines_are_written_out() {
    assert_eq!(name_line("Alpha Coin", "Mint111"), "• Token: Alpha Coin (Mint111)");
    assert_eq!(amount_line("Mint111", "1.5"), "• Mint: Mint111\n  Amount: 1.5");
    assert_eq!(name_line("", ""), "• Token:  ()");
    assert_eq!(amount_line("", ""), "• Mint: \n  Amount: ");
}

#[test]
fn one_zero_and_one_positive_entry_give_one_token_line() {
    let doc = answer(vec![entry("MintZero", "0", 0.0), entry("Mint111", "1.5", 1.5)]);
    let lines = wallet_report(2_500_000_000, &doc, None);
    assert_eq!(
        lines,
        vec![
            "💰 SOL: 2.5000 SOL".to_string(),
            "\n📦 SPL Tokens:".to_string(),
            "• Mint: Mint111\n  Amount: 1.5".to_string(),
        ]
    );
    let token_lines: Vec<&String> = lines.iter().filter(|line| line.contains("Mint")).collect();
    assert_eq!(token_lines.len(), 1);
    assert!(!lines.iter().any(|line| line.contains("MintZero")));
}

#[test]
fn one_zero_and_one_positive_entry_with_catalog() {
    let doc = answer(vec![entry("MintZero", "0", 0.0), entry("Mint111", "1.5", 1.5)]);
    let names = catalog(vec![("Mint111", "Alpha Coin", "ALF"), ("MintZero", "Zero Coin", "ZRO")]);
    assert_eq!(
        wallet_report(0, &doc, Some(&names)),
        vec![
            "💰 SOL: 0.0000 SOL".to_string(),
            "\n📦 SPL Tokens:".to_string(),
            "• Token: Alpha Coin (Mint111)".to_string(),
            "• Mint: Mint111\n  Amount: 1.5".to_string(),
        ]
    );
}

#[test]
fn no_positive_amount_gives_the_notice_and_no_token_line() {
    let doc = answer(vec![entry("A", "0", 0.0), entry("B", "-2", -2.0), entry("C", "0", -0.0)]);
    let expected = vec!["💰 SOL: 1.0000 SOL".to_string(), "⚠️  No SPL tokens found.".to_string()];
    assert_eq!(wallet_report(1_000_000_000, &doc, None), expected);
    let names = catalog(vec![("A", "Alpha Coin", "ALF")]);
    assert_eq!(wallet_report(1_000_000_000, &doc, Some(&names)), expected);
}

#[test]
fn empty_answer_gives_the_notice() {
    let expected = vec!["💰 SOL: 0.0000 SOL".to_string(), "⚠️  No SPL tokens found.".to_string()];
    assert_eq!(wallet_report(0, &answer(vec![]), None), expected);
    assert_eq!(wallet_report(0, &Json::Null, None), expected);
    assert_eq!(wallet_report(0, &object(vec![("value", text("x"))]), None), expected);
}

#[test]
fn entry_without_mint_is_shown_with_question_marks() {
    let info = object(vec![(
        "tokenAmount",
        object(vec![("uiAmount", float(4.25)), ("uiAmountString", text("4.25"))]),
    )]);
    let doc = answer(vec![entry_of_info(info)]);
    assert_eq!(
        wallet_report(0, &doc, None),
        vec![
            "💰 SOL: 0.0000 SOL".to_string(),
            "\n📦 SPL Tokens:".to_string(),
            "• Mint: ???\n  Amount: 4.25".to_string(),
        ]
    );
    let names = catalog(vec![("Mint111", "Alpha Coin", "ALF")]);
    assert_eq!(
        wallet_report(0, &doc, Some(&names)),
        vec![
            "💰 SOL: 0.0000 SOL".to_string(),
            "\n📦 SPL Tokens:".to_string(),
            "• Token: Unknown (???)".to_string(),
            "• Mint: ???\n  Amount: 4.25".to_string(),
        ]
    );
}

#[test]
fn unlisted_token_is_shown_as_unknown() {
    let doc = answer(vec![entry("Mint999", "3", 3.0)]);
    let names = catalog(vec![("Mint111", "Alpha Coin", "ALF")]);
    assert_eq!(
        wallet_report(5, &doc, Some(&names)),
        vec![
            "💰 SOL: 0.0000 SOL".to_string(),
            "\n📦 SPL Tokens:".to_string(),
            "• Token: Unknown (Mint999)".to_string(),
            "• Mint: Mint999\n  Amount: 3".to_string(),
        ]
    );
}

#[test]
fn catalog_without_tokens_names_everything_unknown() {
    let doc = answer(vec![entry("Mint111", "3", 3.0)]);
    assert_eq!(
        wallet_report(0, &doc, Some(&Json::Null)),
        vec![
            "💰 SOL: 0.0000 SOL".to_string(),
            "\n📦 SPL Tokens:".to_string(),
            "• Token: Unknown (Mint111)".to_string(),
            "• Mint: Mint111\n  Amount: 3".to_string(),
        ]
    );
}

#[test]
fn report_follows_the_order_of_the_answer() {
    let doc = answer(vec![
        entry("Zeta", "3", 3.0),
        entry("None", "0", 0.0),
        entry("Alpha", "1", 1.0),
        entry("Mid", "2", 2.0),
    ]);
    let names = catalog(vec![("Alpha", "A Coin", "A"), ("Zeta", "Z Coin", "Z")]);
    assert_eq!(
        wallet_report(12_345_678_900, &doc, Some(&names)),
        vec![
            "💰 SOL: 12.3457 SOL".to_string(),
            "\n📦 SPL Tokens:".to_string(),
            "• Token: Z Coin (Zeta)".to_string(),
            "• Mint: Zeta\n  Amount: 3".to_string(),
            "• Token: A Coin (Alpha)".to_string(),
            "• Mint: Alpha\n  Amount: 1".to_string(),
            "• Token: Unknown (Mid)".to_string(),
            "• Mint: Mid\n  Amount: 2".to_string(),
        ]
    );
}

#[test]
fn display_amount_is_kept_digit_for_digit() {
    let doc = answer(vec![entry("M", "0.000000001000", 0.000000001)]);
    assert_eq!(
        wallet_report(0, &doc, None)[2],
        "• Mint: M\n  Amount: 0.000000001000"
    );
}

#[test]
fn render_report_of_given_accounts() {
    let held = vec![account("Mint111", "1.5", 1.5), account("Mint222", "7", 7.0)];
    assert_eq!(
        render_report(3_000_000_000, &held, None),
        vec![
            "💰 SOL: 3.0000 SOL".to_string(),
            "\n📦 SPL Tokens:".to_string(),
            "• Mint: Mint111\n  Amount: 1.5".to_string(),
            "• Mint: Mint222\n  Amount: 7".to_string(),
        ]
    );
    let names = load_token_map(&catalog(vec![("Mint222", "Beta Coin", "BET")]));
    assert_eq!(
        render_report(3_000_000_000, &held, Some(&names)),
        vec![
            "💰 SOL: 3.0000 SOL".to_string(),
            "\n📦 SPL Tokens:".to_string(),
            "• Token: Unknown (Mint111)".to_string(),
            "• Mint: Mint111\n  Amount: 1.5".to_string(),
            "• Token: Beta Coin (Mint222)".to_string(),
            "• Mint: Mint222\n  Amount: 7".to_string(),
        ]
    );
    let nothing: Vec<TokenAccount> = Vec::new();
    assert_eq!(
        render_report(3_000_000_000, &nothing, Some(&names)),
        vec!["💰 SOL: 3.0000 SOL".to_string(), "⚠️  No SPL tokens found.".to_string()]
    );
}

#[test]
fn account_lines_are_appended() {
    let mut lines = vec!["kept".to_string()];
    push_account_lines(&mut lines, &account("Mint111", "1.5", 1.5), None);
    let names = TokenMap::new();
    push_account_lines(&mut lines, &account("Mint222", "2", 2.0), Some(&names));
    assert_eq!(
        lines,
        vec![
            "kept".to_string(),
            "• Mint: Mint111\n  Amount: 1.5".to_string(),
            "• Token: Unknown (Mint222)".to_string(),
            "• Mint: Mint222\n  Amount: 2".to_string(),
        ]
    );
}
