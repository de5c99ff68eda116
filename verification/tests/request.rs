use receipt_analyzer::request::{
    request_body, CONTENT_TYPE, IMAGE_BUDGET, INSTRUCTION, REQUEST_HEAD, REQUEST_MEDIA_TYPE, REQUEST_MIDDLE,
    REQUEST_TAIL,
};
use serde_json::Value;

fn parsed_request(image: &[u8]) -> Value {
    serde_json::from_str(&request_body(image, "image/jpeg")).unwrap()
}

fn image_data(image: &[u8]) -> String {
    parsed_request(image)["messages"][0]["content"][0]["source"]["data"].as_str().unwrap().to_string()
}

#[test]
fn budget_is_one_mebibyte() {
    assert_eq!(IMAGE_BUDGET, 1024 * 1024);
}

#[test]
fn request_is_exchanged_as_json() {
    assert_eq!(CONTENT_TYPE, "application/json");
}

#[test]
fn request_has_the_fields_of_the_messages_interface() {
    let request = parsed_request(b"hello");
    assert_eq!(request["anthropic_version"], Value::from("bedrock-2023-05-31"));
    assert_eq!(request["max_tokens"], Value::from(1000u64));
    assert_eq!(request.as_object().unwrap().len(), 3);
    let messages = request["messages"].as_array().unwrap();
    assert_eq!(messages.len(), 1);
    assert_eq!(messages[0]["role"], Value::from("user"));
    let content = messages[0]["content"].as_array().unwrap();
    assert_eq!(content.len(), 2);
    assert_eq!(content[0]["type"], Value::from("image"));
    assert_eq!(content[0]["source"]["type"], Value::from("base64"));
    assert_eq!(content[0]["source"]["media_type"], Value::from("image/jpeg"));
    assert_eq!(content[0]["source"]["data"], Value::from("aGVsbG8="));
    assert_eq!(content[1]["type"], Value::from("text"));
    assert_eq!(content[1]["text"], Value::from(INSTRUCTION));
}

#[test]
fn request_text_is_the_parts_in_order() {
    let body = request_body(b"hello", "image/png");
    let quoted_instruction = serde_json::to_string(INSTRUCTION).unwrap();
    let expected = format!(
        "{}\"aGVsbG8=\"{}\"image/png\"{}{}{}",
        REQUEST_HEAD, REQUEST_MEDIA_TYPE, REQUEST_MIDDLE, quoted_instruction, REQUEST_TAIL
    );
    assert_eq!(body, expected);
}

#[test]
fn request_is_what_the_json_printer_makes_of_its_fields() {
    let request = parsed_request(b"any image");
    assert_eq!(serde_json::to_string(&request).unwrap(), request_body(b"any image", "image/jpeg"));
}

#[test]
fn request_is_built_the_same_every_time() {
    assert_eq!(request_body(b"\x00\x01\x02", "image/gif"), request_body(b"\x00\x01\x02", "image/gif"));
}

#[test]
fn request_is_one_line() {
    let body = request_body(b"hello", "image/jpeg");
    assert!(!body.contains('\n'));
    assert!(body.contains("\\n# 注意\\n"));
    assert!(body.contains("`不明`"));
}

#[test]
fn image_travels_as_standard_base64_with_padding() {
    assert_eq!(image_data(b""), "");
    assert_eq!(image_data(b"f"), "Zg==");
    assert_eq!(image_data(b"fo"), "Zm8=");
    assert_eq!(image_data(b"foo"), "Zm9v");
    assert_eq!(image_data(b"foob"), "Zm9vYg==");
    assert_eq!(image_data(b"fooba"), "Zm9vYmE=");
    assert_eq!(image_data(b"foobar"), "Zm9vYmFy");
    assert_eq!(image_data(&[0xfb, 0xff, 0xbf]), "+/+/");
    assert_eq!(image_data(&[0x00]), "AA==");
    assert_eq!(image_data(&[0xff, 0xff]), "//8=");
}

#[test]
fn every_byte_value_survives_the_request() {
    let image: Vec<u8> = (0..=255u8).collect();
    let data = image_data(&image);
    assert_eq!(data.len(), 344);
    let back = base64::Engine::decode(&base64::engine::general_purpose::STANDARD, data).unwrap();
    assert_eq!(back, image);
}

#[test]
fn instruction_names_the_task_and_its_rules() {
    assert!(INSTRUCTION.starts_with("画像のレシートを解析し"));
    assert!(INSTRUCTION.contains("クレジットカード売上票"));
    assert!(INSTRUCTION.contains("「不明」というアイテムが一つ"));
    assert!(INSTRUCTION.contains("レシートに書いてある合計金額を最も優先し"));
    assert!(INSTRUCTION.contains("不明な箇所には `不明` と出力してください"));
    assert!(INSTRUCTION.contains("結果のみを返してください"));
    assert!(INSTRUCTION.contains("Markdown のマーカーブロックでは囲まないでください"));
    assert!(INSTRUCTION.ends_with("\n```\n"));
}

#[test]
fn instruction_shows_the_shape_of_the_answer() {
    let start = INSTRUCTION.find("```json\n").unwrap() + "```json\n".len();
    let end = INSTRUCTION.rfind("\n```\n").unwrap();
    let example: Value = serde_json::from_str(&INSTRUCTION[start..end]).unwrap();
    let keys: Vec<&str> = example.as_object().unwrap().keys().map(|key| key.as_str()).collect();
    assert_eq!(keys, vec!["brand", "confidence", "date", "items", "store", "total"]);
    let items = example["items"].as_array().unwrap();
    assert_eq!(items.len(), 3);
    for item in items {
        let keys: Vec<&str> = item.as_object().unwrap().keys().map(|key| key.as_str()).collect();
        assert_eq!(keys, vec!["name", "price"]);
    }
    assert_eq!(example["brand"], Value::from("{店の名前}"));
    assert_eq!(items[2]["name"], Value::from("外税"));
}

#[test]
fn image_is_tagged_with_the_media_type_it_is_given() {
    for media_type in ["image/png", "image/jpeg", "image/webp", "image/x-portable-anymap"] {
        let request: Value = serde_json::from_str(&request_body(b"hello", media_type)).unwrap();
        assert_eq!(request["messages"][0]["content"][0]["source"]["media_type"], Value::from(media_type));
        assert_eq!(request["messages"][0]["content"][0]["source"]["data"], Value::from("aGVsbG8="));
    }
}

#[test]
fn media_type_is_escaped_like_any_json_string() {
    let request: Value = serde_json::from_str(&request_body(b"", "a\"b\\c\n")).unwrap();
    assert_eq!(request["messages"][0]["content"][0]["source"]["media_type"], Value::from("a\"b\\c\n"));
    assert!(request_body(b"", "a\"b\\c\n\u{1}").contains("\"a\\\"b\\\\c\\n\\u0001\""));
}
