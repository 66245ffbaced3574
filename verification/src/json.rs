//! Reading the ledger's answers out of JSON.
//!
//! `serde_json` turns bytes into a value and hands out its parts; which parts
//! make a [`Link`] or a [`StatusResponse`] is decided here. An answer is an
//! object; members that are not asked for are passed over, and a member that
//! is asked for must be there and of the right kind.

use crate::status::{
    BatchStatus, BatchStatusView, InvalidTransaction, InvalidTransactionView, Link, LinkView,
    StatusResponse, StatusResponseView,
};
use crate::status::{batch_views, transaction_views};
use vstd::prelude::*;

verus! {

/// `serde_json::Value`, taken as it comes. What one holds is [`json_view`].
#[verifier::external_type_specification]
#[verifier::external_body]
pub struct ExJsonValue(serde_json::Value);

/// `serde_json::Error`, taken as it comes and never looked into.
#[verifier::external_type_specification]
#[verifier::external_body]
pub struct ExJsonError(serde_json::Error);

/// A JSON value as far as this crate looks into one: texts, arrays and
/// objects. Numbers, booleans and null are not told apart.
pub enum JsonView {
    Text(Seq<char>),
    Array(Seq<JsonView>),
    Object(Map<Seq<char>, JsonView>),
    Other,
}

/// What a `serde_json::Value` holds.
pub uninterp spec fn json_view(value: serde_json::Value) -> JsonView;

/// What `serde_json` reads out of `bytes`: the value of the one JSON document
/// that they spell, or `None` where they spell none.
pub uninterp spec fn json_document(bytes: Seq<u8>) -> Option<JsonView>;

/// What each of `values` holds, in order.
pub open spec fn json_views(values: Seq<serde_json::Value>) -> Seq<JsonView> {
    Seq::new(values.len(), |i: int| json_view(values[i]))
}

/// The member of the object `doc` under `key`.
pub open spec fn member_of(doc: JsonView, key: Seq<char>) -> Option<JsonView> {
    match doc {
        JsonView::Object(members) => if members.contains_key(key) {
            Some(members[key])
        } else {
            None
        },
        _ => None,
    }
}

/// The text that the object `doc` holds under `key`.
pub open spec fn text_member(doc: JsonView, key: Seq<char>) -> Option<Seq<char>> {
    match member_of(doc, key) {
        Some(JsonView::Text(text)) => Some(text),
        _ => None,
    }
}

/// The items of the array that the object `doc` holds under `key`.
pub open spec fn array_member(doc: JsonView, key: Seq<char>) -> Option<Seq<JsonView>> {
    match member_of(doc, key) {
        Some(JsonView::Array(items)) => Some(items),
        _ => None,
    }
}

/// The link that `doc` spells: an object with a text under `link`.
pub open spec fn link_of(doc: JsonView) -> Option<LinkView> {
    match text_member(doc, "link"@) {
        Some(link) => Some(LinkView { link }),
        None => None,
    }
}

/// The refused transaction that `doc` spells: an object with texts under `id`
/// and `message`.
pub open spec fn invalid_transaction_of(doc: JsonView) -> Option<InvalidTransactionView> {
    match (text_member(doc, "id"@), text_member(doc, "message"@)) {
        (Some(id), Some(message)) => Some(InvalidTransactionView { id, message }),
        _ => None,
    }
}

/// The refused transactions that `docs` spell, if each of them spells one.
pub open spec fn invalid_transactions_of(docs: Seq<JsonView>) -> Option<
    Seq<InvalidTransactionView>,
> {
    if forall|i: int| 0 <= i < docs.len() ==> invalid_transaction_of(#[trigger] docs[i]) is Some {
        Some(Seq::new(docs.len(), |i: int| invalid_transaction_of(docs[i])->0))
    } else {
        None
    }
}

/// The batch outcome that `doc` spells: an object with texts under `id` and
/// `status` and, under `invalid_transactions`, an array of refused
/// transactions.
pub open spec fn batch_status_of(doc: JsonView) -> Option<BatchStatusView> {
    match (
        text_member(doc, "id"@),
        text_member(doc, "status"@),
        array_member(doc, "invalid_transactions"@),
    ) {
        (Some(id), Some(status), Some(items)) => match invalid_transactions_of(items) {
            Some(invalid_transactions) => Some(
                BatchStatusView { id, status, invalid_transactions },
            ),
            None => None,
        },
        _ => None,
    }
}

/// The batch outcomes that `docs` spell, if each of them spells one.
pub open spec fn batch_statuses_of(docs: Seq<JsonView>) -> Option<Seq<BatchStatusView>> {
    if forall|i: int| 0 <= i < docs.len() ==> batch_status_of(#[trigger] docs[i]) is Some {
        Some(Seq::new(docs.len(), |i: int| batch_status_of(docs[i])->0))
    } else {
        None
    }
}

/// The status response that `doc` spells: an object with an array of batch
/// outcomes under `data` and a text under `link`.
pub open spec fn status_response_of(doc: JsonView) -> Option<StatusResponseView> {
    match (array_member(doc, "data"@), text_member(doc, "link"@)) {
        (Some(items), Some(link)) => match batch_statuses_of(items) {
            Some(data) => Some(StatusResponseView { data, link }),
            None => None,
        },
        _ => None,
    }
}

/// Parses `bytes` with `serde_json::from_slice`, asking for a
/// `serde_json::Value`.
///
/// Trusted: that whether the bytes are accepted, and what the value then
/// holds, depends on the bytes alone.
#[verifier::external_body]
fn parse_document(bytes: &[u8]) -> (parsed: Result<serde_json::Value, serde_json::Error>)
    ensures
        match parsed {
            Ok(value) => json_document(bytes@) == Some(json_view(value)),
            Err(_) => json_document(bytes@) is None,
        },
{
    serde_json::from_slice::<serde_json::Value>(bytes)
}

/// Looks `key` up with `serde_json::Value::get`.
///
/// Trusted: that an object hands out the member it holds under `key`, and
/// that everything else, an object without that member included, hands out
/// nothing.
#[verifier::external_body]
fn member<'a>(value: &'a serde_json::Value, key: &str) -> (found: Option<&'a serde_json::Value>)
    ensures
        match found {
            Some(inner) => member_of(json_view(*value), key@) == Some(json_view(*inner)),
            None => member_of(json_view(*value), key@) is None,
        },
{
    value.get(key)
}

/// `serde_json::Value::as_str` hands out the text of a string value and
/// nothing for any other value.
pub assume_specification<'a>[ serde_json::Value::as_str ](value: &'a serde_json::Value) -> (found:
    Option<&'a str>)
    ensures
        match found {
            Some(text) => json_view(*value) == JsonView::Text(text@),
            None => !(json_view(*value) is Text),
        },
;

/// `serde_json::Value::as_array` hands out the items of an array value, in
/// order, and nothing for any other value.
pub assume_specification<'a>[ serde_json::Value::as_array ](value: &'a serde_json::Value) -> (found:
    Option<&'a Vec<serde_json::Value>>)
    ensures
        match found {
            Some(items) => json_view(*value) == JsonView::Array(json_views(items@)),
            None => !(json_view(*value) is Array),
        },
;

/// The text that the object `doc` holds under `key`.
fn text_under(doc: &serde_json::Value, key: &str) -> (found: Option<String>)
    ensures
        match found {
            Some(text) => text_member(json_view(*doc), key@) == Some(text@),
            None => text_member(json_view(*doc), key@) is None,
        },
{
    match member(doc, key) {
        Some(inner) => match inner.as_str() {
            Some(text) => Some(String::from_str(text)),
            None => None,
        },
        None => None,
    }
}

/// The items of the array that the object `doc` holds under `key`.
fn array_under<'a>(doc: &'a serde_json::Value, key: &str) -> (found: Option<
    &'a Vec<serde_json::Value>,
>)
    ensures
        match found {
            Some(items) => array_member(json_view(*doc), key@) == Some(json_views(items@)),
            None => array_member(json_view(*doc), key@) is None,
        },
{
    match member(doc, key) {
        Some(inner) => inner.as_array(),
        None => None,
    }
}

/// Reads a link out of a parsed answer.
pub fn link_from_json(doc: &serde_json::Value) -> (found: Option<Link>)
    ensures
        match found {
            Some(link) => link_of(json_view(*doc)) == Some(link@),
            None => link_of(json_view(*doc)) is None,
        },
{
    match text_under(doc, "link") {
        Some(link) => Some(Link { link }),
        None => None,
    }
}

/// Reads a refused transaction out of a parsed value.
pub fn invalid_transaction_from_json(doc: &serde_json::Value) -> (found: Option<
    InvalidTransaction,
>)
    ensures
        match found {
            Some(transaction) => invalid_transaction_of(json_view(*doc)) == Some(transaction@),
            None => invalid_transaction_of(json_view(*doc)) is None,
        },
{
    let id = text_under(doc, "id");
    let message = text_under(doc, "message");
    match (id, message) {
        (Some(id), Some(message)) => Some(InvalidTransaction { id, message }),
        _ => None,
    }
}

/// Reads refused transactions out of parsed values, all or none.
fn invalid_transactions_from_json(docs: &Vec<serde_json::Value>) -> (found: Option<
    Vec<InvalidTransaction>,
>)
    ensures
        match found {
            Some(transactions) => invalid_transactions_of(json_views(docs@)) == Some(
                transaction_views(transactions@),
            ),
            None => invalid_transactions_of(json_views(docs@)) is None,
        },
{
    let ghost views = json_views(docs@);
    let mut transactions: Vec<InvalidTransaction> = Vec::new();
    let mut i: usize = 0;
    while i < docs.len()
        invariant
            i <= docs.len(),
            views == json_views(docs@),
            transactions@.len() == i,
            forall|k: int|
                0 <= k < i ==> invalid_transaction_of(#[trigger] views[k]) == Some(
                    transactions@[k]@,
                ),
        decreases docs.len() - i,
    {
        match invalid_transaction_from_json(&docs[i]) {
            Some(transaction) => {
                transactions.push(transaction);
            },
            None => {
                assert(invalid_transaction_of(views[i as int]) is None);
                return None;
            },
        }
        i = i + 1;
    }
    assert(transaction_views(transactions@) =~= Seq::new(
        views.len(),
        |i: int| invalid_transaction_of(views[i])->0,
    ));
    Some(transactions)
}

/// Reads a batch outcome out of a parsed value.
pub fn batch_status_from_json(doc: &serde_json::Value) -> (found: Option<BatchStatus>)
    ensures
        match found {
            Some(batch) => batch_status_of(json_view(*doc)) == Some(batch@),
            None => batch_status_of(json_view(*doc)) is None,
        },
{
    let id = text_under(doc, "id");
    let status = text_under(doc, "status");
    let items = array_under(doc, "invalid_transactions");
    match (id, status, items) {
        (Some(id), Some(status), Some(items)) => match invalid_transactions_from_json(items) {
            Some(invalid_transactions) => Some(BatchStatus { id, status, invalid_transactions }),
            None => None,
        },
        _ => None,
    }
}

/// Reads batch outcomes out of parsed values, all or none.
fn batch_statuses_from_json(docs: &Vec<serde_json::Value>) -> (found: Option<Vec<BatchStatus>>)
    ensures
        match found {
            Some(batches) => batch_statuses_of(json_views(docs@)) == Some(batch_views(batches@)),
            None => batch_statuses_of(json_views(docs@)) is None,
        },
{
    let ghost views = json_views(docs@);
    let mut batches: Vec<BatchStatus> = Vec::new();
    let mut i: usize = 0;
    while i < docs.len()
        invariant
            i <= docs.len(),
            views == json_views(docs@),
            batches@.len() == i,
            forall|k: int|
                0 <= k < i ==> batch_status_of(#[trigger] views[k]) == Some(batches@[k]@),
        decreases docs.len() - i,
    {
        match batch_status_from_json(&docs[i]) {
            Some(batch) => {
                batches.push(batch);
            },
            None => {
                assert(batch_status_of(views[i as int]) is None);
                return None;
            },
        }
        i = i + 1;
    }
    assert(batch_views(batches@) =~= Seq::new(
        views.len(),
        |i: int| batch_status_of(views[i])->0,
    ));
    Some(batches)
}

/// Reads a status response out of a parsed answer.
pub fn status_response_from_json(doc: &serde_json::Value) -> (found: Option<StatusResponse>)
    ensures
        match found {
            Some(response) => status_response_of(json_view(*doc)) == Some(response@),
            None => status_response_of(json_view(*doc)) is None,
        },
{
    let items = array_under(doc, "data");
    let link = text_under(doc, "link");
    match (items, link) {
        (Some(items), Some(link)) => match batch_statuses_from_json(items) {
            Some(data) => Some(StatusResponse { data, link }),
            None => None,
        },
        _ => None,
    }
}

/// Reads a link out of the bytes of an answer.
pub fn parse_link(bytes: &[u8]) -> (found: Option<Link>)
    ensures
        match found {
            Some(link) => json_document(bytes@) is Some && link_of(json_document(bytes@)->0)
                == Some(link@),
            None => json_document(bytes@) is None || link_of(json_document(bytes@)->0) is None,
        },
{
    match parse_document(bytes) {
        Ok(doc) => link_from_json(&doc),
        Err(_) => None,
    }
}

/// Reads a status response out of the bytes of an answer.
pub fn parse_status_response(bytes: &[u8]) -> (found: Option<StatusResponse>)
    ensures
        match found {
            Some(response) => json_document(bytes@) is Some && status_response_of(
                json_document(bytes@)->0,
            ) == Some(response@),
            None => json_document(bytes@) is None || status_response_of(json_document(bytes@)->0)
                is None,
        },
{
    match parse_document(bytes) {
        Ok(doc) => status_response_from_json(&doc),
        Err(_) => None,
    }
}

} // verus!
