//! Token metadata: the display name and symbol of each token of a public
//! catalog, looked up by the token's identifier.
//!
//! The catalog is a document with an array `tokens`; each of its items gives
//! `address`, `name` and `symbol`. An item listed twice counts as listed
//! last. A token that the catalog does not list is shown as "Unknown".

use vstd::prelude::*;
use vstd::string::*;
use vstd::hash_map::StringHashMap;
use crate::json::{item_views, text_or, text_or_default, Json, JsonView};

verus! {

/// How a token is shown.
#[derive(Debug)]
pub struct TokenInfo {
    pub name: String,
    pub symbol: String,
}

/// What a [`TokenInfo`] stands for.
pub struct TokenInfoView {
    pub name: Seq<char>,
    pub symbol: Seq<char>,
}

impl View for TokenInfo {
    type V = TokenInfoView;

    open spec fn view(&self) -> TokenInfoView {
        TokenInfoView { name: self.name@, symbol: self.symbol@ }
    }
}

/// The tokens of a catalog, by identifier.
pub struct TokenMap {
    listed: StringHashMap<TokenInfo>,
}

impl View for TokenMap {
    type V = Map<Seq<char>, TokenInfoView>;

    closed spec fn view(&self) -> Map<Seq<char>, TokenInfoView> {
        self.listed@.map_values(|info: TokenInfo| info@)
    }
}

/// How a token is shown that no catalog lists.
pub open spec fn unknown_token() -> TokenInfoView {
    TokenInfoView { name: "Unknown"@, symbol: ""@ }
}

/// How the token `mint` is shown under `listed`: as listed, or as unknown.
pub open spec fn resolve(listed: Map<Seq<char>, TokenInfoView>, mint: Seq<char>) -> TokenInfoView {
    if listed.contains_key(mint) {
        listed[mint]
    } else {
        unknown_token()
    }
}

/// The items of a catalog: those of its member `tokens`, and none where that
/// is no array.
pub open spec fn catalog_tokens(catalog: JsonView) -> Seq<JsonView> {
    match catalog.get("tokens"@) {
        Some(JsonView::Array(tokens)) => tokens,
        _ => Seq::empty(),
    }
}

/// The identifier under which a catalog item is listed; the empty text where
/// the item names none.
pub open spec fn token_address(token: JsonView) -> Seq<char> {
    text_or(token.get("address"@), ""@)
}

/// How a catalog item shows its token: `name` defaults to "Unknown",
/// `symbol` to the empty text.
pub open spec fn token_info(token: JsonView) -> TokenInfoView {
    TokenInfoView {
        name: text_or(token.get("name"@), "Unknown"@),
        symbol: text_or(token.get("symbol"@), ""@),
    }
}

/// The lookup table of a catalog's items: each item is entered in turn, so a
/// later item replaces an earlier one of the same identifier.
pub open spec fn catalog_map(tokens: Seq<JsonView>) -> Map<Seq<char>, TokenInfoView>
    decreases tokens.len(),
{
    if tokens.len() == 0 {
        Map::empty()
    } else {
        catalog_map(tokens.drop_last()).insert(
            token_address(tokens.last()),
            token_info(tokens.last()),
        )
    }
}

/// A table lists an identifier exactly when some item of the catalog is
/// listed under it.
pub proof fn lemma_listed_identifiers(tokens: Seq<JsonView>, mint: Seq<char>)
    ensures
        catalog_map(tokens).contains_key(mint) <==> exists|i: int|
            0 <= i < tokens.len() && token_address(#[trigger] tokens[i]) == mint,
    decreases tokens.len(),
{
    if tokens.len() > 0 {
        let rest = tokens.drop_last();
        lemma_listed_identifiers(rest, mint);
        if catalog_map(rest).contains_key(mint) {
            let i = choose|i: int|
                0 <= i < rest.len() && token_address(#[trigger] rest[i]) == mint;
            assert(token_address(tokens[i]) == mint);
        }
        if exists|i: int| 0 <= i < tokens.len() && token_address(#[trigger] tokens[i]) == mint {
            let i = choose|i: int|
                0 <= i < tokens.len() && token_address(#[trigger] tokens[i]) == mint;
            if i < rest.len() {
                assert(token_address(rest[i]) == mint);
            }
        }
    }
}

/// A token that no item of the catalog is listed under is shown as
/// "Unknown", with no symbol.
pub proof fn lemma_unlisted_token_is_unknown(tokens: Seq<JsonView>, mint: Seq<char>)
    requires
        forall|i: int| 0 <= i < tokens.len() ==> token_address(#[trigger] tokens[i]) != mint,
    ensures
        resolve(catalog_map(tokens), mint) == unknown_token(),
        resolve(catalog_map(tokens), mint).name == "Unknown"@,
        resolve(catalog_map(tokens), mint).symbol == ""@,
{
    lemma_listed_identifiers(tokens, mint);
}

/// Of several items listed under one identifier the last counts: a token is
/// shown as the item says after which no item of the same identifier comes.
pub proof fn lemma_last_listing_counts(tokens: Seq<JsonView>, i: int)
    requires
        0 <= i < tokens.len(),
        forall|j: int|
            i < j < tokens.len() ==> token_address(#[trigger] tokens[j]) != token_address(
                tokens[i],
            ),
    ensures
        resolve(catalog_map(tokens), token_address(tokens[i])) == token_info(tokens[i]),
    decreases tokens.len(),
{
    if i < tokens.len() - 1 {
        let rest = tokens.drop_last();
        assert(forall|j: int|
            i < j < rest.len() ==> token_address(#[trigger] rest[j]) != token_address(rest[i]));
        lemma_last_listing_counts(rest, i);
    }
}

impl TokenMap {
    /// A table that lists no token.
    pub fn new() -> (table: TokenMap)
        ensures
            table@ == Map::<Seq<char>, TokenInfoView>::empty(),
    {
        TokenMap { listed: StringHashMap::new() }
    }

    /// Lists `info` under `address`, in place of what was listed there.
    pub fn insert(&mut self, address: String, info: TokenInfo)
        ensures
            final(self)@ == old(self)@.insert(address@, info@),
    {
        self.listed.insert(address, info);
    }

    /// What is listed under `mint`, if anything.
    pub fn get(&self, mint: &str) -> (found: Option<&TokenInfo>)
        ensures
            found.is_some() == self@.contains_key(mint@),
            found matches Some(info) ==> info@ == self@[mint@],
    {
        self.listed.get(mint)
    }

    /// The name and symbol under which `mint` is shown: those listed, or
    /// "Unknown" and no symbol.
    pub fn resolve(&self, mint: &str) -> (info: TokenInfo)
        ensures
            info@ == resolve(self@, mint@),
    {
        match self.get(mint) {
            Some(found) => TokenInfo { name: found.name.clone(), symbol: found.symbol.clone() },
            None => TokenInfo { name: "Unknown".to_owned(), symbol: "".to_owned() },
        }
    }
}

/// Reads one catalog item and lists it in `table`.
pub fn list_token(table: &mut TokenMap, token: &Json)
    ensures
        final(table)@ == old(table)@.insert(token_address(token@), token_info(token@)),
{
    let address = text_or_default(token.get("address"), "");
    let name = text_or_default(token.get("name"), "Unknown");
    let symbol = text_or_default(token.get("symbol"), "");
    table.insert(address, TokenInfo { name, symbol });
}

/// Builds the lookup table of a catalog.
pub fn load_token_map(catalog: &Json) -> (table: TokenMap)
    ensures
        table@ == catalog_map(catalog_tokens(catalog@)),
{
    let mut table = TokenMap::new();
    let tokens = match catalog.get("tokens") {
        Some(value) => value.as_array(),
        None => None,
    };
    match tokens {
        Some(tokens) => {
            let ghost all = item_views(tokens@);
            let mut i: usize = 0;
            while i < tokens.len()
                invariant
                    i <= tokens@.len(),
                    all == item_views(tokens@),
                    table@ == catalog_map(all.take(i as int)),
                decreases tokens@.len() - i,
            {
                proof {
                    let next = all.take(i + 1);
                    assert(next.drop_last() =~= all.take(i as int));
                }
                list_token(&mut table, &tokens[i]);
                i += 1;
            }
            assert(all.take(i as int) =~= all);
        },
        None => {},
    }
    table
}

} // verus!
