//! The structured result of reading one receipt.

use vstd::prelude::*;

verus! {

/// One printed line of a receipt.
#[derive(Debug, Clone, PartialEq, PartialOrd)]
pub struct ReceiptItem {
    pub name: String,
    pub price: String,
}

/// How sure the model was of its reading: a binary64 number, kept as its
/// IEEE 754 bit pattern so that it can be compared and carried without
/// floating-point arithmetic.
#[derive(Debug, Clone, Copy, PartialEq, Eq)]
pub struct Confidence {
    pub bits: u64,
}

/// A receipt as the model read it. The order of `items` is the order of the
/// lines on the paper.
#[derive(Debug, Clone, PartialEq)]
pub struct Receipt {
    pub brand: String,
    pub store: String,
    pub date: String,
    pub items: Vec<ReceiptItem>,
    pub total: String,
    pub confidence: Confidence,
}

/// The mathematical content of a [`ReceiptItem`].
pub ghost struct ItemView {
    pub name: Seq<char>,
    pub price: Seq<char>,
}

/// The mathematical content of a [`Receipt`].
pub ghost struct ReceiptView {
    pub brand: Seq<char>,
    pub store: Seq<char>,
    pub date: Seq<char>,
    pub items: Seq<ItemView>,
    pub total: Seq<char>,
    pub confidence: u64,
}

impl View for ReceiptItem {
    type V = ItemView;

    open spec fn view(&self) -> ItemView {
        ItemView { name: self.name@, price: self.price@ }
    }
}

impl View for Receipt {
    type V = ReceiptView;

    open spec fn view(&self) -> ReceiptView {
        ReceiptView {
            brand: self.brand@,
            store: self.store@,
            date: self.date@,
            items: self.items@.map_values(|item: ReceiptItem| item@),
            total: self.total@,
            confidence: self.confidence.bits,
        }
    }
}

/// The bit pattern of the binary64 number 1.
pub const ONE_BITS: u64 = 0x3FF0_0000_0000_0000;

/// The bit pattern of the binary64 number negative zero.
pub const NEGATIVE_ZERO_BITS: u64 = 0x8000_0000_0000_0000;

/// Whether the binary64 number with this bit pattern lies in [0, 1]. The
/// patterns of the numbers from 0 to 1 are, in order, the integers from 0 to
/// `ONE_BITS`; negative zero compares equal to zero and counts as well; every
/// other pattern is a larger number, a negative one, an infinity or a NaN.
pub open spec fn in_unit_interval(bits: u64) -> bool {
    bits <= ONE_BITS || bits == NEGATIVE_ZERO_BITS
}

/// Whether the bit pattern is that of a finite binary64 number: its eleven
/// exponent bits are not all set. Only a finite number can be written in
/// JSON.
pub open spec fn is_finite(bits: u64) -> bool {
    (bits >> 52) & 0x7ff != 0x7ff
}

/// A number in the unit interval is finite.
pub proof fn lemma_unit_interval_is_finite(bits: u64)
    requires
        in_unit_interval(bits),
    ensures
        is_finite(bits),
{
    assert(bits <= 0x3FF0_0000_0000_0000u64 || bits == 0x8000_0000_0000_0000u64 ==> (bits >> 52)
        & 0x7ff != 0x7ff) by (bit_vector);
}

impl Confidence {
    /// Whether the confidence is a finite number, neither an infinity nor a
    /// NaN.
    pub fn is_finite(&self) -> (out: bool)
        ensures
            out == is_finite(self.bits),
    {
        (self.bits >> 52) & 0x7ff != 0x7ff
    }


    /// Whether the confidence lies between 0 and 1, both included. Decoding
    /// passes the model's number through as it is, so a caller that relies
    /// on the range asks here.
    pub fn is_within_unit_interval(&self) -> (out: bool)
        ensures
            out == in_unit_interval(self.bits),
    {
        self.bits <= ONE_BITS || self.bits == NEGATIVE_ZERO_BITS
    }
}

} // verus!
