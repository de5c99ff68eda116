//! JSON documents that this library writes: the receipt in the shape in
//! which it is answered, which is the shape in which the model is asked for
//! it. The library builds the tree; printing it is left to the caller.
//! Writing a receipt and reading it again gives the same receipt.

use vstd::prelude::*;
use crate::json::Json;
use crate::receipt::{is_finite, ItemView, Receipt, ReceiptItem, ReceiptView};
use crate::reply::{item_of, receipt_of};

verus! {

/// A JSON value built from plain values. A number is held as the bit pattern
/// of a binary64 value; where a key occurs twice in an object, the later
/// member counts.
pub enum Document {
    Number(u64),
    Text(String),
    List(Vec<Document>),
    Record(Vec<Member>),
}

/// One member of a JSON object.
pub struct Member {
    pub key: String,
    pub value: Document,
}

impl Document {
    /// The tree that the document holds.
    pub open spec fn model(self) -> Json
        decreases self,
    {
        match self {
            Document::Number(bits) => Json::Number(bits),
            Document::Text(text) => Json::Text(text@),
            Document::List(items) => Json::List(models_of(items@)),
            Document::Record(members) => Json::Record(members_of(members@)),
        }
    }
}

/// The trees of a sequence of documents, in its order.
pub open spec fn models_of(items: Seq<Document>) -> Seq<Json>
    decreases items,
{
    if items.len() == 0 {
        Seq::empty()
    } else {
        models_of(items.drop_last()).push(items.last().model())
    }
}

/// The members of an object, found by their key.
pub open spec fn members_of(members: Seq<Member>) -> Map<Seq<char>, Json>
    decreases members,
{
    if members.len() == 0 {
        Map::empty()
    } else {
        members_of(members.drop_last()).insert(members.last().key@, members.last().value.model())
    }
}

/// The JSON object that stands for one line: its `name` and its `price`.
pub open spec fn item_json(item: ItemView) -> Json {
    Json::Record(
        Map::empty().insert("name"@, Json::Text(item.name)).insert(
            "price"@,
            Json::Text(item.price),
        ),
    )
}

/// The JSON object that stands for a receipt: the shape that the model is
/// asked for and that the callers of this library are answered with.
pub open spec fn receipt_json(receipt: ReceiptView) -> Json {
    Json::Record(
        Map::empty().insert("brand"@, Json::Text(receipt.brand)).insert(
            "store"@,
            Json::Text(receipt.store),
        ).insert("date"@, Json::Text(receipt.date)).insert(
            "items"@,
            Json::List(receipt.items.map_values(|item: ItemView| item_json(item))),
        ).insert("total"@, Json::Text(receipt.total)).insert(
            "confidence"@,
            Json::Number(receipt.confidence),
        ),
    )
}

/// The six keys of a receipt and the two keys of a line are pairwise
/// different texts.
proof fn lemma_keys_differ()
    ensures
        "name"@ != "price"@,
        "brand"@ != "store"@,
        "brand"@ != "date"@,
        "brand"@ != "items"@,
        "brand"@ != "total"@,
        "brand"@ != "confidence"@,
        "store"@ != "date"@,
        "store"@ != "items"@,
        "store"@ != "total"@,
        "store"@ != "confidence"@,
        "date"@ != "items"@,
        "date"@ != "total"@,
        "date"@ != "confidence"@,
        "items"@ != "total"@,
        "items"@ != "confidence"@,
        "total"@ != "confidence"@,
{
    reveal_strlit("name");
    reveal_strlit("price");
    reveal_strlit("brand");
    reveal_strlit("store");
    reveal_strlit("date");
    reveal_strlit("items");
    reveal_strlit("total");
    reveal_strlit("confidence");
    assert("name"@.len() != "price"@.len());
    assert("brand"@[0] != "store"@[0]);
    assert("brand"@.len() != "date"@.len());
    assert("brand"@[0] != "items"@[0]);
    assert("brand"@[0] != "total"@[0]);
    assert("brand"@.len() != "confidence"@.len());
    assert("store"@.len() != "date"@.len());
    assert("store"@[0] != "items"@[0]);
    assert("store"@[0] != "total"@[0]);
    assert("store"@.len() != "confidence"@.len());
    assert("date"@.len() != "items"@.len());
    assert("date"@.len() != "total"@.len());
    assert("date"@.len() != "confidence"@.len());
    assert("items"@[0] != "total"@[0]);
    assert("items"@.len() != "confidence"@.len());
    assert("total"@.len() != "confidence"@.len());
}

/// Round trip of one line: reading the JSON that stands for a line gives
/// the line back.
pub proof fn lemma_item_round_trip(item: ItemView)
    ensures
        item_of(item_json(item)) == Some(item),
{
    lemma_keys_differ();
}

/// Round trip: reading the JSON that stands for a receipt gives back that
/// receipt, field for field and with its lines in their order.
pub proof fn lemma_receipt_round_trip(receipt: ReceiptView)
    ensures
        receipt_of(receipt_json(receipt)) == Some(receipt),
{
    lemma_keys_differ();
    let entries = receipt.items.map_values(|item: ItemView| item_json(item));
    assert forall|i: int| 0 <= i < entries.len() implies item_of(#[trigger] entries[i]) == Some(
        receipt.items[i],
    ) by {
        lemma_item_round_trip(receipt.items[i]);
    }
    assert(Seq::new(entries.len(), |i: int| item_of(entries[i]).unwrap()) =~= receipt.items);
}

/// The tree of a list grows with the list.
proof fn lemma_models_push(items: Seq<Document>, last: Document)
    ensures
        models_of(items.push(last)) == models_of(items).push(last.model()),
{
    assert(items.push(last).drop_last() =~= items);
}

/// A member that is added last is found by its key.
proof fn lemma_members_push(members: Seq<Member>, last: Member)
    ensures
        members_of(members.push(last)) == members_of(members).insert(
            last.key@,
            last.value.model(),
        ),
{
    assert(members.push(last).drop_last() =~= members);
}

fn text(value: &String) -> (out: Document)
    ensures
        out.model() == Json::Text(value@),
{
    Document::Text(value.clone())
}

fn put(members: &mut Vec<Member>, key: &str, value: Document)
    ensures
        members_of(final(members)@) == members_of(old(members)@).insert(key@, value.model()),
{
    let member = Member { key: key.to_owned(), value };
    proof {
        lemma_members_push(members@, member);
    }
    members.push(member);
}

/// Writes one line as the JSON object that stands for it.
pub fn encode_item(item: &ReceiptItem) -> (out: Document)
    ensures
        out.model() == item_json(item@),
{
    let mut members: Vec<Member> = Vec::new();
    put(&mut members, "name", text(&item.name));
    put(&mut members, "price", text(&item.price));
    Document::Record(members)
}

/// Writes a receipt as the JSON object that stands for it, its lines in
/// their order. Reading that object gives the receipt back: see
/// `lemma_receipt_round_trip`. A receipt whose confidence is not a finite
/// number has no JSON form, and only such a receipt is refused.
pub fn encode_receipt(receipt: &Receipt) -> (out: Option<Document>)
    ensures
        match out {
            Some(document) => is_finite(receipt.confidence.bits) && document.model()
                == receipt_json(receipt@),
            None => !is_finite(receipt.confidence.bits),
        },
{
    if !receipt.confidence.is_finite() {
        return None;
    }
    let mut lines: Vec<Document> = Vec::new();
    let mut i: usize = 0;
    while i < receipt.items.len()
        invariant
            i <= receipt.items.len(),
            models_of(lines@) == receipt@.items.take(i as int).map_values(
                |item: ItemView| item_json(item),
            ),
        decreases receipt.items.len() - i,
    {
        let line = encode_item(&receipt.items[i]);
        proof {
            lemma_models_push(lines@, line);
            assert(receipt@.items.take(i + 1).map_values(|item: ItemView| item_json(item))
                =~= receipt@.items.take(i as int).map_values(
                |item: ItemView| item_json(item),
            ).push(item_json(receipt@.items[i as int])));
        }
        lines.push(line);
        i += 1;
    }
    assert(receipt@.items.take(receipt.items.len() as int) =~= receipt@.items);
    let mut members: Vec<Member> = Vec::new();
    put(&mut members, "brand", text(&receipt.brand));
    put(&mut members, "store", text(&receipt.store));
    put(&mut members, "date", text(&receipt.date));
    put(&mut members, "items", Document::List(lines));
    put(&mut members, "total", text(&receipt.total));
    put(&mut members, "confidence", Document::Number(receipt.confidence.bits));
    Some(Document::Record(members))
}

} // verus!
