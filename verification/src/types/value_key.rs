//! The keys of maps and the places of lists, under one type.

use std::cmp::Ordering;
use vstd::prelude::*;
use vstd::std_specs::cmp::PartialEqSpecImpl;
use vstd::std_specs::cmp::PartialOrdSpecImpl;
use crate::decimal::decimal;
use crate::decimal::unsigned_to_string;
use crate::float_order::order_of;
use crate::types::stringb::compare_text;
use crate::types::stringb::text_order;
use crate::types::stringb::StringB;

verus! {

/// A key: a text, as the keys of a map are, or a number, as the places of a
/// list are.
#[derive(Debug)]
pub enum ValueKey {
    String(StringB),
    Number(usize),
}

/// A `ValueKey` with its text as a sequence of characters.
pub enum KeyModel {
    String(Seq<char>),
    Number(usize),
}

impl View for ValueKey {
    type V = KeyModel;

    open spec fn view(&self) -> KeyModel {
        match self {
            ValueKey::String(s) => KeyModel::String(s@),
            ValueKey::Number(n) => KeyModel::Number(*n),
        }
    }
}

impl Clone for ValueKey {
    fn clone(&self) -> (r: Self)
        ensures
            r@ == self@,
    {
        match self {
            ValueKey::String(s) => ValueKey::String(s.clone()),
            ValueKey::Number(n) => ValueKey::Number(*n),
        }
    }
}

/// The text of a key: that of a text key as it is, that of a number key in
/// decimal.
pub open spec fn key_text(key: KeyModel) -> Seq<char> {
    match key {
        KeyModel::String(s) => s,
        KeyModel::Number(n) => decimal(count(n)),
    }
}

/// A `usize` as a natural number.
pub open spec fn count(n: usize) -> nat {
    n as nat
}

/// A `usize` as an integer without bound.
pub open spec fn place_of(n: usize) -> int {
    n as int
}

/// How two keys stand to each other: a text key comes before a number key,
/// two text keys stand as their texts do, two number keys as their numbers.
pub open spec fn key_order(a: KeyModel, b: KeyModel) -> Ordering {
    match (a, b) {
        (KeyModel::String(x), KeyModel::String(y)) => text_order(x, y),
        (KeyModel::String(_), KeyModel::Number(_)) => Ordering::Less,
        (KeyModel::Number(_), KeyModel::String(_)) => Ordering::Greater,
        (KeyModel::Number(x), KeyModel::Number(y)) => order_of(place_of(x), place_of(y)),
    }
}

impl ValueKey {
    /// The key as a text.
    pub fn as_string_b(&self) -> (r: StringB)
        ensures
            r@ == key_text(self@),
    {
        match self {
            ValueKey::String(s) => s.clone(),
            ValueKey::Number(n) => {
                let wide: u128 = *n as u128;
                StringB { value: unsigned_to_string(wide) }
            },
        }
    }

    /// The text of the key, owned.
    pub fn to_string(&self) -> (r: String)
        ensures
            r@ == key_text(self@),
    {
        self.as_string_b().extract()
    }
}

impl PartialEq for ValueKey {
    fn eq(&self, other: &Self) -> (r: bool) {
        match (self, other) {
            (ValueKey::String(x), ValueKey::String(y)) => x == y,
            (ValueKey::Number(x), ValueKey::Number(y)) => *x == *y,
            _ => false,
        }
    }
}

impl PartialEqSpecImpl for ValueKey {
    open spec fn obeys_eq_spec() -> bool {
        true
    }

    open spec fn eq_spec(&self, other: &Self) -> bool {
        self@ == other@
    }
}

impl PartialOrd for ValueKey {
    fn partial_cmp(&self, other: &Self) -> (r: Option<Ordering>) {
        match (self, other) {
            (ValueKey::String(x), ValueKey::String(y)) => Some(
                compare_text(x.as_str(), y.as_str()),
            ),
            (ValueKey::String(_), ValueKey::Number(_)) => Some(Ordering::Less),
            (ValueKey::Number(_), ValueKey::String(_)) => Some(Ordering::Greater),
            (ValueKey::Number(x), ValueKey::Number(y)) => {
                if *x < *y {
                    Some(Ordering::Less)
                } else if *x == *y {
                    Some(Ordering::Equal)
                } else {
                    Some(Ordering::Greater)
                }
            },
        }
    }
}

impl PartialOrdSpecImpl for ValueKey {
    open spec fn obeys_partial_cmp_spec() -> bool {
        true
    }

    open spec fn partial_cmp_spec(&self, other: &Self) -> Option<Ordering> {
        Some(key_order(self@, other@))
    }
}

/// What can serve as a key: it gives its `ValueKey`, says what place of a list
/// it names, and its type says whether it names places at all.
pub trait ValueKeyBehavior: Clone {
    /// The key that the value stands for.
    spec fn key(&self) -> KeyModel;

    fn to_value_key(&self) -> (r: ValueKey)
        ensures
            r@ == self.key(),
    ;

    /// The place of a list that the key names. A type that says nothing of
    /// its own gives zero, as a key that is a text does.
    fn as_usize(&self) -> (r: usize)
        ensures
            self.key() is String ==> r == 0,
        default_ensures
            r == 0,
    {
        0
    }

    /// Whether keys of this type name places of a list. A type that says
    /// nothing of its own does not.
    fn is_usize() -> (r: bool)
        ensures
            r ==> forall|k: Self| #[trigger] k.key() is Number,
        default_ensures
            !r,
    {
        false
    }
}

impl ValueKeyBehavior for String {
    open spec fn key(&self) -> KeyModel {
        KeyModel::String(self@)
    }

    fn to_value_key(&self) -> (r: ValueKey) {
        ValueKey::String(StringB::from(self.clone()))
    }
}

impl ValueKeyBehavior for usize {
    open spec fn key(&self) -> KeyModel {
        KeyModel::Number(*self)
    }

    fn to_value_key(&self) -> (r: ValueKey) {
        ValueKey::Number(*self)
    }

    fn as_usize(&self) -> (r: usize)
        ensures
            r == *self,
    {
        *self
    }

    fn is_usize() -> (r: bool)
        ensures
            r,
    {
        true
    }
}

impl ValueKeyBehavior for &str {
    open spec fn key(&self) -> KeyModel {
        KeyModel::String(self@)
    }

    fn to_value_key(&self) -> (r: ValueKey) {
        ValueKey::String(StringB::from_str(*self))
    }
}

} // verus!
