//! Base64, the form in which the image travels inside the request. The
//! encoding is done by the `base64` crate; what it produces is stated here.

use vstd::prelude::*;
use crate::json::{escape_of, escaped};

verus! {

/// The character for one group of six bits in the standard alphabet:
/// `A`-`Z`, `a`-`z`, `0`-`9`, `+`, `/`.
pub open spec fn symbol(sextet: int) -> char {
    if sextet < 26 {
        (65 + sextet) as char
    } else if sextet < 52 {
        (71 + sextet) as char
    } else if sextet < 62 {
        (sextet - 4) as char
    } else if sextet == 62 {
        '+'
    } else {
        '/'
    }
}

/// The standard base64 encoding with padding: every three bytes become four
/// characters, and a last group of one or two bytes is filled up with `=`.
pub open spec fn base64(bytes: Seq<u8>) -> Seq<char>
    decreases bytes.len(),
{
    if bytes.len() == 0 {
        Seq::empty()
    } else if bytes.len() == 1 {
        let a = bytes[0] as int;
        seq![symbol(a / 4), symbol(a % 4 * 16), '=', '=']
    } else if bytes.len() == 2 {
        let a = bytes[0] as int;
        let b = bytes[1] as int;
        seq![symbol(a / 4), symbol(a % 4 * 16 + b / 16), symbol(b % 16 * 4), '=']
    } else {
        let a = bytes[0] as int;
        let b = bytes[1] as int;
        let c = bytes[2] as int;
        seq![
            symbol(a / 4),
            symbol(a % 4 * 16 + b / 16),
            symbol(b % 16 * 4 + c / 64),
            symbol(c % 64),
        ] + base64(bytes.skip(3))
    }
}

/// `Engine::encode` of `base64::engine::general_purpose::STANDARD`: the
/// standard alphabet, with padding. The bound keeps the length of the text
/// within `usize`, beyond which the call panics.
#[verifier::external_body]
pub(crate) fn encode(bytes: &[u8]) -> (out: String)
    requires
        (bytes@.len() + 2) / 3 * 4 <= usize::MAX,
    ensures
        out@ == base64(bytes@),
{
    base64::Engine::encode(&base64::engine::general_purpose::STANDARD, bytes)
}

/// The characters of the alphabet and the padding stand for themselves in a
/// JSON string.
proof fn lemma_symbol_is_plain(sextet: int)
    requires
        0 <= sextet < 64,
    ensures
        escape_of(symbol(sextet)) == seq![symbol(sextet)],
        escape_of('=') == seq!['='],
{
}

/// Escaping distributes over concatenation.
pub proof fn lemma_escaped_concat(left: Seq<char>, right: Seq<char>)
    ensures
        escaped(left + right) == escaped(left) + escaped(right),
    decreases right.len(),
{
    if right.len() == 0 {
        assert(left + right =~= left);
        assert(escaped(left) + escaped(right) =~= escaped(left));
    } else {
        lemma_escaped_concat(left, right.drop_last());
        assert((left + right).drop_last() =~= left + right.drop_last());
        assert((left + right).last() == right.last());
        assert(escaped(left) + (escaped(right.drop_last()) + escape_of(right.last())) =~= (escaped(
            left,
        ) + escaped(right.drop_last())) + escape_of(right.last()));
    }
}

/// Base64 text needs no escaping inside a JSON string.
pub proof fn lemma_base64_is_plain(bytes: Seq<u8>)
    ensures
        escaped(base64(bytes)) == base64(bytes),
    decreases bytes.len(),
{
    reveal_with_fuel(escaped, 5);
    if bytes.len() == 0 {
    } else {
        let a = bytes[0] as int;
        lemma_symbol_is_plain(a / 4);
        if bytes.len() == 1 {
            lemma_symbol_is_plain(a % 4 * 16);
            let text = base64(bytes);
            lemma_four_plain(text);
        } else {
            let b = bytes[1] as int;
            lemma_symbol_is_plain(a % 4 * 16 + b / 16);
            if bytes.len() == 2 {
                lemma_symbol_is_plain(b % 16 * 4);
                lemma_four_plain(base64(bytes));
            } else {
                let c = bytes[2] as int;
                lemma_symbol_is_plain(b % 16 * 4 + c / 64);
                lemma_symbol_is_plain(c % 64);
                let head = seq![
                    symbol(a / 4),
                    symbol(a % 4 * 16 + b / 16),
                    symbol(b % 16 * 4 + c / 64),
                    symbol(c % 64),
                ];
                lemma_four_plain(head);
                lemma_base64_is_plain(bytes.skip(3));
                lemma_escaped_concat(head, base64(bytes.skip(3)));
            }
        }
    }
}

/// Four characters that each stand for themselves are unchanged by escaping.
proof fn lemma_four_plain(text: Seq<char>)
    requires
        text.len() == 4,
        forall|i: int| 0 <= i < 4 ==> escape_of(#[trigger] text[i]) == seq![text[i]],
    ensures
        escaped(text) == text,
{
    let t3 = text.drop_last();
    let t2 = t3.drop_last();
    let t1 = t2.drop_last();
    let t0 = t1.drop_last();
    assert(t0.len() == 0);
    assert(escaped(t0) == Seq::<char>::empty());
    assert(escaped(t1) =~= seq![text[0]]);
    assert(escaped(t2) =~= seq![text[0], text[1]]);
    assert(escaped(t3) =~= seq![text[0], text[1], text[2]]);
    assert(escaped(text) =~= text);
}

} // verus!
