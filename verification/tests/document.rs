use receipt_analyzer::document::{encode_item, encode_receipt, Document};
use receipt_analyzer::reply::{decode_item, decode_receipt, decode_reply};
use receipt_analyzer::{Confidence, Receipt, ReceiptItem};
use serde_json::{Number, Value};

fn value_of(document: &Document) -> Value {
    match document {
        Document::Number(bits) => Value::Number(Number::from_f64(f64::from_bits(*bits)).unwrap()),
        Document::Text(text) => Value::String(text.clone()),
        Document::List(items) => Value::Array(items.iter().map(value_of).collect()),
        Document::Record(members) => {
            let mut map = serde_json::Map::new();
            for member in members {
                map.insert(member.key.clone(), value_of(&member.value));
            }
            Value::Object(map)
        }
    }
}

fn receipt() -> Receipt {
    Receipt {
        brand: "X".to_string(),
        store: "Y".to_string(),
        date: "2024-01-01".to_string(),
        items: vec![
            ReceiptItem { name: "A".to_string(), price: "100".to_string() },
            ReceiptItem { name: "B \"large\"".to_string(), price: "¥250".to_string() },
        ],
        total: "350".to_string(),
        confidence: Confidence { bits: 0.9f64.to_bits() },
    }
}

#[test]
fn encoded_receipt_has_the_six_members() {
    let printed = serde_json::to_string(&value_of(&encode_receipt(&receipt()).unwrap())).unwrap();
    assert_eq!(
        printed,
        "{\"brand\":\"X\",\"confidence\":0.9,\"date\":\"2024-01-01\",\"items\":[{\"name\":\"A\",\"price\":\"100\"},{\"name\":\"B \\\"large\\\"\",\"price\":\"¥250\"}],\"store\":\"Y\",\"total\":\"350\"}"
    );
}

#[test]
fn encoded_receipt_lists_its_members_in_the_order_of_the_fields() {
    let keys: Vec<String> = match encode_receipt(&receipt()) {
        Some(Document::Record(members)) => members.into_iter().map(|member| member.key).collect(),
        _ => Vec::new(),
    };
    assert_eq!(keys, vec!["brand", "store", "date", "items", "total", "confidence"]);
}

#[test]
fn encoded_item_has_a_name_and_a_price() {
    let item = ReceiptItem { name: "A".to_string(), price: "100".to_string() };
    let printed = serde_json::to_string(&value_of(&encode_item(&item))).unwrap();
    assert_eq!(printed, "{\"name\":\"A\",\"price\":\"100\"}");
    assert_eq!(decode_item(&value_of(&encode_item(&item))), Some(item));
}

#[test]
fn encoded_receipt_decodes_to_the_same_receipt() {
    let receipt = receipt();
    assert_eq!(decode_receipt(&value_of(&encode_receipt(&receipt).unwrap())), Some(receipt));
}

#[test]
fn encoded_receipt_without_lines_decodes_to_the_same_receipt() {
    let mut receipt = receipt();
    receipt.items.clear();
    assert_eq!(decode_receipt(&value_of(&encode_receipt(&receipt).unwrap())), Some(receipt));
}

#[test]
fn encoded_receipt_survives_printing_and_parsing() {
    let receipt = receipt();
    let answer = serde_json::to_string(&value_of(&encode_receipt(&receipt).unwrap())).unwrap();
    let mut block = serde_json::Map::new();
    block.insert("text".to_string(), Value::String(answer));
    let mut envelope = serde_json::Map::new();
    envelope.insert("content".to_string(), Value::Array(vec![Value::Object(block)]));
    let body = serde_json::to_vec(&Value::Object(envelope)).unwrap();
    assert_eq!(decode_reply(&body).receipt, Ok(receipt));
}

#[test]
fn confidence_keeps_its_bits_through_the_round_trip() {
    for x in [0.0f64, -0.0, 1.0, 0.1, 0.3333333333333333, 5e-324, 1.7976931348623157e308, -12.5] {
        let mut receipt = receipt();
        receipt.confidence = Confidence { bits: x.to_bits() };
        let back = decode_receipt(&value_of(&encode_receipt(&receipt).unwrap())).unwrap();
        assert_eq!(back.confidence.bits, x.to_bits(), "{}", x);
    }
}

#[test]
fn receipt_with_a_confidence_that_is_no_number_is_not_encoded() {
    for x in [f64::NAN, f64::INFINITY, f64::NEG_INFINITY, -f64::NAN] {
        let mut receipt = receipt();
        receipt.confidence = Confidence { bits: x.to_bits() };
        assert!(!receipt.confidence.is_finite());
        assert!(encode_receipt(&receipt).is_none(), "{}", x);
    }
}

#[test]
fn finite_confidence_is_told_from_the_bits() {
    for x in [0.0f64, -0.0, 0.9, 1.0, -3.5, f64::MAX, f64::MIN, f64::MIN_POSITIVE, 5e-324] {
        assert!(Confidence { bits: x.to_bits() }.is_finite(), "{}", x);
    }
    assert!(!Confidence { bits: 0x7ff0_0000_0000_0000 }.is_finite());
    assert!(!Confidence { bits: 0xfff0_0000_0000_0000 }.is_finite());
    assert!(!Confidence { bits: 0x7ff8_0000_0000_0000 }.is_finite());
    assert!(!Confidence { bits: 0x7ff0_0000_0000_0001 }.is_finite());
    assert!(Confidence { bits: 0x7fef_ffff_ffff_ffff }.is_finite());
}
