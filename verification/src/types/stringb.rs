//! The text that a value holds.

use std::cmp::Ordering;
use vstd::prelude::*;
use vstd::std_specs::cmp::PartialEqSpecImpl;
use vstd::std_specs::cmp::PartialOrdSpecImpl;
use vstd::std_specs::convert::FromSpecImpl;
use vstd::string::StringExecFns;
use vstd::string::StringSliceAdditionalSpecFns;
use vstd::utf8::encode_utf8;

verus! {

/// An owned text. Its view is the sequence of its characters.
#[derive(Debug)]
pub struct StringB {
    pub value: String,
}

impl View for StringB {
    type V = Seq<char>;

    open spec fn view(&self) -> Seq<char> {
        self.value@
    }
}

impl Clone for StringB {
    fn clone(&self) -> (r: Self)
        ensures
            r@ == self@,
    {
        StringB { value: self.value.clone() }
    }
}

impl From<String> for StringB {
    fn from(value: String) -> (r: Self) {
        StringB { value }
    }
}

impl FromSpecImpl<String> for StringB {
    open spec fn obeys_from_spec() -> bool {
        true
    }

    open spec fn from_spec(value: String) -> Self {
        StringB { value }
    }
}

impl StringB {
    /// The text of a string slice.
    pub fn from_str(value: &str) -> (r: Self)
        ensures
            r@ == value@,
    {
        StringB { value: String::from_str(value) }
    }

    /// A copy of the text.
    pub fn as_string(&self) -> (r: String)
        ensures
            r@ == self@,
    {
        self.value.clone()
    }

    /// The text, borrowed.
    pub fn as_str(&self) -> (r: &str)
        ensures
            r@ == self@,
    {
        self.value.as_str()
    }

    /// The text itself, given up by the value.
    pub fn extract(self) -> (r: String)
        ensures
            r@ == self@,
    {
        self.value
    }
}

impl PartialEq for StringB {
    fn eq(&self, other: &Self) -> (r: bool) {
        self.value == other.value
    }
}

impl PartialEqSpecImpl for StringB {
    open spec fn obeys_eq_spec() -> bool {
        true
    }

    open spec fn eq_spec(&self, other: &Self) -> bool {
        self@ == other@
    }
}

impl PartialOrd for StringB {
    fn partial_cmp(&self, other: &Self) -> (r: Option<Ordering>) {
        Some(compare_text(self.as_str(), other.as_str()))
    }
}

impl PartialOrdSpecImpl for StringB {
    open spec fn obeys_partial_cmp_spec() -> bool {
        true
    }

    open spec fn partial_cmp_spec(&self, other: &Self) -> Option<Ordering> {
        Some(text_order(self@, other@))
    }
}

/// How two runs of bytes stand to each other: by the first byte that differs,
/// and a run that is the beginning of another comes before it.
pub open spec fn bytes_order(a: Seq<u8>, b: Seq<u8>) -> Ordering
    decreases a.len(),
{
    if a.len() == 0 {
        if b.len() == 0 {
            Ordering::Equal
        } else {
            Ordering::Less
        }
    } else if b.len() == 0 {
        Ordering::Greater
    } else if a[0] < b[0] {
        Ordering::Less
    } else if a[0] > b[0] {
        Ordering::Greater
    } else {
        bytes_order(a.skip(1), b.skip(1))
    }
}

/// How two texts stand to each other: as their UTF-8 bytes do, which is the
/// order of their characters by code point.
pub open spec fn text_order(a: Seq<char>, b: Seq<char>) -> Ordering {
    bytes_order(encode_utf8(a), encode_utf8(b))
}

/// Two runs of bytes stand as equal just where they are the same run.
pub proof fn lemma_bytes_order_equal(a: Seq<u8>, b: Seq<u8>)
    ensures
        bytes_order(a, b) == Ordering::Equal <==> a == b,
    decreases a.len(),
{
    if a.len() == 0 || b.len() == 0 {
        if a.len() == 0 && b.len() == 0 {
            assert(a =~= b);
        }
    } else if a[0] == b[0] {
        lemma_bytes_order_equal(a.skip(1), b.skip(1));
        if a.skip(1) == b.skip(1) {
            assert(a =~= seq![a[0]] + a.skip(1));
            assert(b =~= seq![b[0]] + b.skip(1));
        }
    }
}

/// Two texts stand as equal just where they are the same text.
pub proof fn lemma_text_order_equal(a: Seq<char>, b: Seq<char>)
    ensures
        text_order(a, b) == Ordering::Equal <==> a == b,
{
    lemma_bytes_order_equal(encode_utf8(a), encode_utf8(b));
    vstd::utf8::encode_utf8_decode_utf8(a);
    vstd::utf8::encode_utf8_decode_utf8(b);
}

/// A count of bytes as an integer without bound.
pub open spec fn place(i: usize) -> int {
    i as int
}

/// Past a byte that two runs share, the runs stand as before.
proof fn lemma_bytes_order_skips(a: Seq<u8>, b: Seq<u8>, k: int)
    requires
        0 <= k < a.len(),
        k < b.len(),
        a[k] == b[k],
    ensures
        bytes_order(a.skip(k), b.skip(k)) == bytes_order(a.skip(k + 1), b.skip(k + 1)),
{
    assert(a.skip(k)[0] == a[k]);
    assert(b.skip(k)[0] == b[k]);
    assert(a.skip(k).skip(1) =~= a.skip(k + 1));
    assert(b.skip(k).skip(1) =~= b.skip(k + 1));
}

/// Where two runs first differ, the byte of that place decides. Where one
/// ends, the lengths decide.
proof fn lemma_bytes_order_decides(a: Seq<u8>, b: Seq<u8>, k: int)
    requires
        0 <= k <= a.len(),
        k <= b.len(),
    ensures
        k < a.len() && k < b.len() && a[k] < b[k] ==> bytes_order(a.skip(k), b.skip(k))
            == Ordering::Less,
        k < a.len() && k < b.len() && a[k] > b[k] ==> bytes_order(a.skip(k), b.skip(k))
            == Ordering::Greater,
        k == a.len() && k < b.len() ==> bytes_order(a.skip(k), b.skip(k)) == Ordering::Less,
        k < a.len() && k == b.len() ==> bytes_order(a.skip(k), b.skip(k)) == Ordering::Greater,
        k == a.len() && k == b.len() ==> bytes_order(a.skip(k), b.skip(k)) == Ordering::Equal,
{
    if k < a.len() {
        assert(a.skip(k)[0] == a[k]);
    }
    if k < b.len() {
        assert(b.skip(k)[0] == b[k]);
    }
}

/// Compares two texts byte by byte.
pub fn compare_text(a: &str, b: &str) -> (r: Ordering)
    ensures
        r == text_order(a@, b@),
{
    let x = a.as_bytes();
    let y = b.as_bytes();
    let mut i: usize = 0;
    assert(x@.skip(0) =~= x@);
    assert(y@.skip(0) =~= y@);
    while i < x.len() && i < y.len()
        invariant
            i <= x.len(),
            i <= y.len(),
            x@ == a.spec_bytes(),
            y@ == b.spec_bytes(),
            bytes_order(x@, y@) == bytes_order(x@.skip(place(i)), y@.skip(place(i))),
        decreases x.len() - i,
    {
        proof {
            lemma_bytes_order_decides(x@, y@, place(i));
        }
        if x[i] < y[i] {
            return Ordering::Less;
        }
        if x[i] > y[i] {
            return Ordering::Greater;
        }
        proof {
            lemma_bytes_order_skips(x@, y@, place(i));
        }
        i = i + 1;
    }
    proof {
        lemma_bytes_order_decides(x@, y@, place(i));
    }
    if i < y.len() {
        Ordering::Less
    } else if i < x.len() {
        Ordering::Greater
    } else {
        Ordering::Equal
    }
}

/// Whether two texts are the same.
pub fn text_equal(a: &str, b: &str) -> (r: bool)
    ensures
        r == (a@ == b@),
{
    proof {
        lemma_text_order_equal(a@, b@);
    }
    match compare_text(a, b) {
        Ordering::Equal => true,
        _ => false,
    }
}

} // verus!
