//! The question put to the node: all token accounts of an owner, under the
//! token program, with the account data decoded by the node.

use vstd::prelude::*;
use vstd::string::*;
use crate::address::Address;
use crate::json::{lemma_array_view, lemma_object_view, Json, JsonView, Member, MemberView};

verus! {

/// The identifier of the token program, in base 58.
pub open spec fn token_program_text() -> Seq<char> {
    "TokenkegQfeZyiNwAJbNbGKPFXCWuBvf9Ss623VQ5DA"@
}

/// An object with the one member `key`, a text.
pub open spec fn single_text_object(key: Seq<char>, text: Seq<char>) -> JsonView {
    JsonView::Object(seq![MemberView { key: key, value: JsonView::Text(text) }])
}

/// The parameters of the question for the owner `owner`: the owner, the
/// program that the accounts must belong to, and the encoding asked for.
pub open spec fn token_accounts_params(owner: Seq<char>) -> JsonView {
    JsonView::Array(
        seq![
            JsonView::Text(owner),
            single_text_object("programId"@, token_program_text()),
            single_text_object("encoding"@, "jsonParsed"@),
        ],
    )
}

/// The token program's identifier: the key that `spl_token::id()` gives,
/// written in base 58 by the key's `to_string`. That this is the text that
/// `spl_token` declares its identifier with is believed, not proved.
#[verifier::external_body]
fn token_program_id() -> (id: String)
    ensures
        id@ == token_program_text(),
{
    spl_token::id().to_string()
}

/// Builds an object with the one member `key`, a text.
pub fn text_object(key: &str, text: String) -> (object: Json)
    ensures
        object@ == single_text_object(key@, text@),
{
    let mut members: Vec<Member> = Vec::new();
    members.push(Member { key: key.to_owned(), value: Json::Text(text) });
    proof {
        lemma_object_view(members);
        assert(crate::json::member_views(members@) =~= seq![
            MemberView { key: key@, value: JsonView::Text(text@) },
        ]);
    }
    Json::Object(members)
}

/// Builds the parameters of the question for the owner `owner`.
pub fn request_params(owner: &Address) -> (params: Json)
    ensures
        params@ == token_accounts_params(owner@.text),
{
    let mut items: Vec<Json> = Vec::new();
    items.push(Json::Text(owner.as_str().to_owned()));
    items.push(text_object("programId", token_program_id()));
    items.push(text_object("encoding", "jsonParsed".to_owned()));
    proof {
        lemma_array_view(items);
        assert(crate::json::item_views(items@) =~= seq![
            JsonView::Text(owner@.text),
            single_text_object("programId"@, token_program_text()),
            single_text_object("encoding"@, "jsonParsed"@),
        ]);
    }
    Json::Array(items)
}

} // verus!
