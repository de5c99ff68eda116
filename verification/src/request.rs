//! The request that is sent to the model: the image as base64 and one block
//! of instructions, as the JSON text that the messages interface takes.

use vstd::prelude::*;
use vstd::string::StringExecFns;
use crate::encoding::{base64, encode, lemma_base64_is_plain};
use crate::json::{quote, quoted};

verus! {

/// The content type of the request and of the response.
pub const CONTENT_TYPE: &'static str = "application/json";

/// The largest image, in bytes, that is put into a request: the service
/// takes no more.
pub const IMAGE_BUDGET: usize = 1_048_576;

/// The instructions to the model, with the example of the JSON shape that
/// the answer must have.
pub const INSTRUCTION: &'static str = "\
画像のレシートを解析し、店名、日付、購入品目と金額、合計金額を抽出してください。\n\
\n\
# 注意\n\
\n\
- レシートではなくクレジットカード売上票や請求書の場合もあります。この場合は内訳は書いていないので、「不明」というアイテムが一つのレシートとみなしてください。\n\
- 円記号を目印にして認識してください。\n\
- 商品は1つしかない場合もあれば複数個ある場合もあります。\n\
- レシートに書いてある合計金額を最も優先し、計算が合わない場合は商品の項目で調整してください。\n\
- 不明な箇所には `不明` と出力してください。\n\
\n\
# 出力フォーマット\n\
\n\
- 以下の形式の JSON フォーマットを返してください。\n\
- 説明は一切不要なので結果のみを返してください。\n\
- Markdown のマーカーブロックでは囲まないでください。\n\
\n\
```json\n\
{\"brand\":\"{店の名前}\",\"confidence\":\"{どれくらい正確に読み取れたと判断できるか、0.0 から 1.0 の間の数値を入れる}\",\"date\":\"{日付 YYYY-MM-DD}\",\"items\":[{\"name\":\"{商品名1}\",\"price\":\"{価格1}\"},{\"name\":\"{商品名2}\",\"price\":\"{価格2}\"},{\"name\":\"外税\",\"price\":\"{外税の項目があれば、アイテムの総和が税込み合計金額と一致するように調整用の外税の合計金額を入れる。なければ外税の項目自体を削除してよい}\"}],\"store\":\"{支店名}\",\"total\":\"{税込み合計金額、アイテムから計算せず、レシートに書いてあるとおりを入れる}\"}\n\
```\n";

/// The request up to the image: the version of the protocol, the limit of a
/// thousand output tokens, and the opening of the one user message.
pub const REQUEST_HEAD: &'static str =
    "{\"anthropic_version\":\"bedrock-2023-05-31\",\"max_tokens\":1000,\"messages\":[{\"content\":[{\"source\":{\"data\":";

/// The request between the image and its media type.
pub const REQUEST_MEDIA_TYPE: &'static str = ",\"media_type\":";

/// The request between the media type and the instructions: the end of the
/// image block and the opening of the text block.
pub const REQUEST_MIDDLE: &'static str =
    ",\"type\":\"base64\"},\"type\":\"image\"},{\"text\":";

/// The end of the request.
pub const REQUEST_TAIL: &'static str = ",\"type\":\"text\"}],\"role\":\"user\"}]}";

/// The text of the request for an image given as base64, tagged with its
/// media type.
pub open spec fn request_text(image_base64: Seq<char>, media_type: Seq<char>) -> Seq<char> {
    REQUEST_HEAD@ + quoted(image_base64) + REQUEST_MEDIA_TYPE@ + quoted(media_type)
        + REQUEST_MIDDLE@ + quoted(INSTRUCTION@) + REQUEST_TAIL@
}

/// Builds the request for an image of the given media type. The image
/// stands in it as base64, which needs no escaping, between quotation marks.
pub fn request_body(image: &[u8], media_type: &str) -> (out: String)
    requires
        (image@.len() + 2) / 3 * 4 <= usize::MAX,
    ensures
        out@ == request_text(base64(image@), media_type@),
        quoted(base64(image@)) == seq!['"'] + base64(image@) + seq!['"'],
{
    let image_base64 = encode(image);
    let mut out = String::from_str(REQUEST_HEAD);
    out.append(quote(image_base64.as_str()).as_str());
    out.append(REQUEST_MEDIA_TYPE);
    out.append(quote(media_type).as_str());
    out.append(REQUEST_MIDDLE);
    out.append(quote(INSTRUCTION).as_str());
    out.append(REQUEST_TAIL);
    proof {
        lemma_base64_is_plain(image@);
    }
    out
}

} // verus!
