//! Validation of the model's reply: the text is taken out of the response
//! envelope, read as JSON and checked against the shape of a receipt.

use vstd::prelude::*;
use vstd::utf8::encode_utf8;
use crate::json::{
    as_list, as_text, document, json_of, member, member_of, number_bits, parse, parsed, printed,
    render, Json,
};
use crate::receipt::{is_finite, Confidence, ItemView, Receipt, ReceiptItem, ReceiptView};

verus! {

/// Why a reply was not accepted.
#[derive(Debug, Clone, Copy, PartialEq, Eq)]
pub enum MalformedReply {
    /// The response body is not a JSON document.
    ResponseNotJson,
    /// The response holds no text at `content[0].text`.
    MissingText,
    /// The model's text is not a JSON document.
    AnswerNotJson,
    /// The model's JSON is not of the shape of a receipt.
    WrongShape,
}

/// The string filed under `key`, if there is one.
pub open spec fn text_member(members: Map<Seq<char>, Json>, key: Seq<char>) -> Option<Seq<char>> {
    if members.contains_key(key) {
        match members[key] {
            Json::Text(text) => Some(text),
            _ => None,
        }
    } else {
        None
    }
}

/// The number filed under `key`, if there is one.
pub open spec fn number_member(members: Map<Seq<char>, Json>, key: Seq<char>) -> Option<u64> {
    if members.contains_key(key) {
        match members[key] {
            Json::Number(bits) => Some(bits),
            _ => None,
        }
    } else {
        None
    }
}

/// The line that a JSON value describes: an object whose `name` and `price`
/// are strings.
pub open spec fn item_of(doc: Json) -> Option<ItemView> {
    match doc {
        Json::Record(members) => match (
            text_member(members, "name"@),
            text_member(members, "price"@),
        ) {
            (Some(name), Some(price)) => Some(ItemView { name, price }),
            _ => None,
        },
        _ => None,
    }
}

/// The lines that a JSON value describes: an array of lines, in its order.
pub open spec fn items_of(doc: Json) -> Option<Seq<ItemView>> {
    match doc {
        Json::List(entries) => if forall|i: int|
            0 <= i < entries.len() ==> item_of(#[trigger] entries[i]) is Some {
            Some(Seq::new(entries.len(), |i: int| item_of(entries[i]).unwrap()))
        } else {
            None
        },
        _ => None,
    }
}

/// The lines filed under `key`, if there are any.
pub open spec fn items_member(members: Map<Seq<char>, Json>, key: Seq<char>) -> Option<
    Seq<ItemView>,
> {
    if members.contains_key(key) {
        items_of(members[key])
    } else {
        None
    }
}

/// The receipt that a JSON value describes: an object whose `brand`,
/// `store`, `date` and `total` are strings, whose `items` is an array of
/// lines and whose `confidence` is a number. Other members are ignored; a
/// member that is missing or of another type leaves no receipt.
pub open spec fn receipt_of(doc: Json) -> Option<ReceiptView> {
    match doc {
        Json::Record(members) => match (
            text_member(members, "brand"@),
            text_member(members, "store"@),
            text_member(members, "date"@),
            items_member(members, "items"@),
            text_member(members, "total"@),
            number_member(members, "confidence"@),
        ) {
            (Some(brand), Some(store), Some(date), Some(items), Some(total), Some(confidence)) => {
                Some(ReceiptView { brand, store, date, items, total, confidence })
            },
            _ => None,
        },
        _ => None,
    }
}

/// The model's text inside a response envelope: the string at
/// `content[0].text`.
pub open spec fn answer_of(envelope: Json) -> Option<Seq<char>> {
    match envelope {
        Json::Record(members) if members.contains_key("content"@) => match members["content"@] {
            Json::List(blocks) if blocks.len() > 0 => match blocks[0] {
                Json::Record(block) => text_member(block, "text"@),
                _ => None,
            },
            _ => None,
        },
        _ => None,
    }
}

/// What becomes of a response body: the receipt it carries, or the first
/// reason for which it carries none.
///
/// The model's text is read as it stands. Nothing is stripped from it: a
/// text inside code-fence markers, or with prose before or after the JSON,
/// is no JSON document and is refused as `AnswerNotJson`.
pub open spec fn reply_outcome(body: Seq<u8>) -> Result<ReceiptView, MalformedReply> {
    match parsed(body) {
        None => Err(MalformedReply::ResponseNotJson),
        Some(envelope) => match answer_of(envelope) {
            None => Err(MalformedReply::MissingText),
            Some(answer) => match parsed(encode_utf8(answer)) {
                None => Err(MalformedReply::AnswerNotJson),
                Some(doc) => match receipt_of(doc) {
                    None => Err(MalformedReply::WrongShape),
                    Some(receipt) => Ok(receipt),
                },
            },
        },
    }
}

/// Whether an exec result carries what a spec result says.
pub open spec fn carries(
    out: Result<Receipt, MalformedReply>,
    expected: Result<ReceiptView, MalformedReply>,
) -> bool {
    match out {
        Ok(receipt) => expected == Ok::<ReceiptView, MalformedReply>(receipt@),
        Err(reason) => expected == Err::<ReceiptView, MalformedReply>(reason),
    }
}

fn text_field(doc: &serde_json::Value, key: &str) -> (out: Option<String>)
    ensures
        match json_of(*doc) {
            Json::Record(members) => match out {
                Some(text) => text_member(members, key@) == Some(text@),
                None => text_member(members, key@) is None,
            },
            _ => out is None,
        },
{
    match member(doc, key) {
        Some(found) => match as_text(found) {
            Some(text) => Some(text.to_owned()),
            None => None,
        },
        None => None,
    }
}

/// Reads one line of a receipt.
pub fn decode_item(doc: &serde_json::Value) -> (out: Option<ReceiptItem>)
    ensures
        match out {
            Some(item) => item_of(json_of(*doc)) == Some(item@),
            None => item_of(json_of(*doc)) is None,
        },
{
    let name = match text_field(doc, "name") {
        Some(name) => name,
        None => { return None; },
    };
    let price = match text_field(doc, "price") {
        Some(price) => price,
        None => { return None; },
    };
    Some(ReceiptItem { name, price })
}

fn decode_items(doc: &serde_json::Value) -> (out: Option<Vec<ReceiptItem>>)
    ensures
        match out {
            Some(items) => items_of(json_of(*doc)) == Some(
                items@.map_values(|item: ReceiptItem| item@),
            ),
            None => items_of(json_of(*doc)) is None,
        },
{
    let entries = match as_list(doc) {
        Some(entries) => entries,
        None => { return None; },
    };
    let ghost model = json_of(*doc)->List_0;
    let mut items: Vec<ReceiptItem> = Vec::new();
    let mut i: usize = 0;
    while i < entries.len()
        invariant
            i <= entries.len(),
            json_of(*doc) == Json::List(model),
            entries@.len() == model.len(),
            forall|k: int| 0 <= k < model.len() ==> json_of(#[trigger] entries@[k]) == model[k],
            items@.len() == i,
            forall|k: int| 0 <= k < i ==> item_of(#[trigger] model[k]) == Some(items@[k]@),
        decreases entries.len() - i,
    {
        match decode_item(&entries[i]) {
            Some(item) => {
                items.push(item);
            },
            None => {
                return None;
            },
        }
        i += 1;
    }
    Some(items)
}

/// Reads a receipt out of a JSON document. The document is accepted exactly
/// when it has the shape that `receipt_of` describes; the confidence is
/// passed through as the model gave it, whatever its range. As it comes from
/// a JSON number, it is finite.
pub fn decode_receipt(doc: &serde_json::Value) -> (out: Option<Receipt>)
    ensures
        match out {
            Some(receipt) => receipt_of(json_of(*doc)) == Some(receipt@),
            None => receipt_of(json_of(*doc)) is None,
        },
        out matches Some(receipt) ==> is_finite(receipt.confidence.bits),
{
    let brand = match text_field(doc, "brand") {
        Some(brand) => brand,
        None => { return None; },
    };
    let store = match text_field(doc, "store") {
        Some(store) => store,
        None => { return None; },
    };
    let date = match text_field(doc, "date") {
        Some(date) => date,
        None => { return None; },
    };
    let items = match member(doc, "items") {
        Some(found) => match decode_items(found) {
            Some(items) => items,
            None => { return None; },
        },
        None => { return None; },
    };
    let total = match text_field(doc, "total") {
        Some(total) => total,
        None => { return None; },
    };
    let confidence = match member(doc, "confidence") {
        Some(found) => match number_bits(found) {
            Some(bits) => Confidence { bits },
            None => { return None; },
        },
        None => { return None; },
    };
    Some(Receipt { brand, store, date, items, total, confidence })
}

/// Takes the model's text out of a response envelope.
pub fn answer_text(envelope: &serde_json::Value) -> (out: Option<String>)
    ensures
        match out {
            Some(text) => answer_of(json_of(*envelope)) == Some(text@),
            None => answer_of(json_of(*envelope)) is None,
        },
{
    let content = match member(envelope, "content") {
        Some(content) => content,
        None => { return None; },
    };
    let blocks = match as_list(content) {
        Some(blocks) => blocks,
        None => { return None; },
    };
    if blocks.len() == 0 {
        return None;
    }
    text_field(&blocks[0], "text")
}

/// The usage metadata of a response, as the JSON text that is printed for
/// the member `usage` of the envelope; `null` where there is none.
pub open spec fn usage_of(envelope: serde_json::Value) -> Seq<char> {
    match member_of(envelope, "usage"@) {
        Some(usage) => printed(usage),
        None => "null"@,
    }
}

/// Takes the usage metadata out of a response envelope, for the operator's
/// log.
pub fn usage_text(envelope: &serde_json::Value) -> (out: String)
    ensures
        out@ == usage_of(*envelope),
{
    match member(envelope, "usage") {
        Some(usage) => render(usage),
        None => "null".to_owned(),
    }
}

/// What a response body yields: the receipt or the reason for which there is
/// none, and beside it the usage metadata of the response as JSON text,
/// for the operator's eyes only (absent where the body is not JSON, `null`
/// where it names no usage).
#[derive(Debug, PartialEq)]
pub struct Decoded {
    pub receipt: Result<Receipt, MalformedReply>,
    pub usage: Option<String>,
}

/// Decodes a response body, all or nothing. The model's text is read as it
/// stands: text inside code-fence markers is refused as `AnswerNotJson`,
/// never unwrapped.
pub fn decode_reply(body: &[u8]) -> (out: Decoded)
    ensures
        carries(out.receipt, reply_outcome(body@)),
        out.receipt matches Ok(receipt) ==> is_finite(receipt.confidence.bits),
        match out.usage {
            Some(usage) => document(body@) matches Some(envelope) && usage@ == usage_of(envelope),
            None => document(body@) is None,
        },
{
    let envelope = match parse(body) {
        Some(envelope) => envelope,
        None => {
            return Decoded { receipt: Err(MalformedReply::ResponseNotJson), usage: None };
        },
    };
    let usage = usage_text(&envelope);
    let answer = match answer_text(&envelope) {
        Some(answer) => answer,
        None => {
            return Decoded { receipt: Err(MalformedReply::MissingText), usage: Some(usage) };
        },
    };
    let doc = match parse(answer.as_str().as_bytes()) {
        Some(doc) => doc,
        None => {
            return Decoded { receipt: Err(MalformedReply::AnswerNotJson), usage: Some(usage) };
        },
    };
    match decode_receipt(&doc) {
        Some(receipt) => Decoded { receipt: Ok(receipt), usage: Some(usage) },
        None => Decoded { receipt: Err(MalformedReply::WrongShape), usage: Some(usage) },
    }
}

} // verus!
