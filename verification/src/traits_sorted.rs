//! Between sorted maps of native items and `Value`.

use std::cmp::Ordering;
use vstd::prelude::*;
use crate::entries::has_key;
use crate::entries::lemma_key_place;
use crate::traits::ExactConversion;
use crate::traits::FromValueBehavior;
use crate::traits::ToValueBehavior;
use crate::traits_map::written;
use crate::types::object::Object;
use crate::types::sorted_text_map::holds_text;
use crate::types::sorted_text_map::lemma_lower_place;
use crate::types::sorted_text_map::lower_place;
use crate::types::sorted_text_map::sorted_keys;
use crate::types::sorted_text_map::sorted_with;
use crate::types::sorted_text_map::SortedTextMap;
use crate::types::stringb::lemma_text_order_equal;
use crate::types::stringb::place;
use crate::types::stringb::text_order;
use crate::types::value_key::key_text;
use crate::types::value_key::KeyModel;
use crate::value::Value;
use crate::value::ValueModel;

verus! {

/// The sorted map that comes of giving the text of each key, in turn, the
/// item that the value of the key converted to. Two keys with one text make
/// one entry, and the later item stays.
pub open spec fn sorted_filled<I>(entries: Seq<(KeyModel, ValueModel)>, items: Seq<I>) -> Seq<
    (Seq<char>, I),
>
    decreases entries.len(),
{
    if entries.len() == 0 || items.len() != entries.len() {
        Seq::empty()
    } else {
        sorted_with(
            sorted_filled(entries.drop_last(), items.drop_last()),
            key_text(entries.last().0),
            items.last(),
        )
    }
}

/// Whether the keys are texts in their order, each before the next.
pub open spec fn keys_in_order(entries: Seq<(KeyModel, ValueModel)>) -> bool {
    &&& forall|i: int| 0 <= i < entries.len() ==> (#[trigger] entries[i]).0 is String
    &&& forall|i: int, j: int|
        0 <= i < j < entries.len() ==> text_order(
            key_text((#[trigger] entries[i]).0),
            key_text((#[trigger] entries[j]).0),
        ) == Ordering::Less
}

impl<T: FromValueBehavior> FromValueBehavior for SortedTextMap<T> {
    type Item = SortedTextMap<T::Item>;

    open spec fn defined_on(value: ValueModel) -> bool {
        value matches ValueModel::Object(entries) ==> forall|i: int|
            0 <= i < entries.len() ==> T::defined_on((#[trigger] entries[i]).1) && T::accepts(
                entries[i].1,
            )
    }

    open spec fn accepts(value: ValueModel) -> bool {
        value is Object
    }

    open spec fn yields(value: ValueModel, item: SortedTextMap<T::Item>) -> bool {
        value matches ValueModel::Object(entries) && exists|items: Seq<T::Item>|
            {
                &&& items.len() == entries.len()
                &&& forall|i: int|
                    0 <= i < entries.len() ==> T::yields((#[trigger] entries[i]).1, items[i])
                &&& item@ == #[trigger] sorted_filled(entries, items)
            }
    }

    fn from_value(value: Value) -> (r: Option<SortedTextMap<T::Item>>) {
        let ghost whole = value@;
        if let Value::Object(object) = value {
            let ghost models = object@;
            assert(whole == ValueModel::Object(models));
            assert(whole matches ValueModel::Object(entries) && entries == models);
            let entries = object.into_entries();
            let mut map: SortedTextMap<T::Item> = SortedTextMap::new();
            let ghost mut items: Seq<T::Item> = Seq::empty();
            assert(models.take(0) =~= Seq::empty());
            for entry in it: entries
                invariant
                    it.seq().len() == models.len(),
                    forall|j: int|
                        0 <= j < models.len() ==> (#[trigger] it.seq()[j]).0@ == models[j].0
                            && it.seq()[j].1@ == models[j].1,
                    forall|j: int|
                        0 <= j < models.len() ==> T::defined_on((#[trigger] models[j]).1)
                            && T::accepts(models[j].1),
                    items.len() == it.index(),
                    forall|j: int|
                        0 <= j < it.index() ==> T::yields((#[trigger] models[j]).1, items[j]),
                    map@ == sorted_filled(models.take(it.index()), items),
            {
                let ghost before = items;
                let ghost n = it.index();
                let text = entry.0.to_string();
                let item = T::from_value(entry.1);
                let inner = item.unwrap();
                proof {
                    items = items.push(inner);
                    assert(models.take(n + 1).drop_last() =~= models.take(n));
                    assert(items.drop_last() =~= before);
                    assert(models.take(n + 1).last() == models[n]);
                }
                map.insert(text, inner);
            }
            proof {
                assert(models.take(place(entries.len())) =~= models);
            }
            Some(map)
        } else {
            None
        }
    }

    fn is_defined_on(value: &Value) -> (r: bool) {
        match value {
            Value::Object(object) => {
                assert(value@ == ValueModel::Object(object@));
                let n = object.len();
                let mut i: usize = 0;
                while i < n
                    invariant
                        n == object@.len(),
                        i <= n,
                        value@ == ValueModel::Object(object@),
                        forall|j: int|
                            0 <= j < i ==> T::defined_on((#[trigger] object@[j]).1) && T::accepts(
                                object@[j].1,
                            ),
                    decreases n - i,
                {
                    let inner = object.value_at(i);
                    if !T::is_defined_on(inner) || !T::is_accepted(inner) {
                        assert(value@ matches ValueModel::Object(entries) && entries == object@);
                        assert(!(T::defined_on(object@[place(i)].1) && T::accepts(
                            object@[place(i)].1,
                        )));
                        return false;
                    }
                    i = i + 1;
                }
                true
            },
            _ => true,
        }
    }

    fn is_accepted(value: &Value) -> (r: bool) {
        match value {
            Value::Object(_) => true,
            _ => false,
        }
    }
}

impl<T: ToValueBehavior> ToValueBehavior for SortedTextMap<T> {
    open spec fn value_of(&self) -> ValueModel {
        ValueModel::Object(written(self@))
    }

    fn to_value(&self) -> (r: Value) {
        let mut object = Object::new();
        let n = self.len();
        let mut i: usize = 0;
        while i < n
            invariant
                n == self@.len(),
                sorted_keys(self@),
                i <= n,
                object@ == written(self@.take(place(i))),
            decreases n - i,
        {
            let key = self.key_at(i).clone();
            let value = self.value_at(i).to_value();
            proof {
                let so_far = written(self@.take(place(i)));
                let key_model = KeyModel::String(self@[place(i)].0);
                if has_key(so_far, key_model) {
                    lemma_key_place(so_far, key_model);
                    let k = crate::entries::key_place(so_far, key_model);
                    assert(self@[k].0 == self@[place(i)].0);
                    lemma_text_order_equal(self@[k].0, self@[place(i)].0);
                }
                assert(!has_key(so_far, key_model));
                assert(written(self@.take(place(i) + 1)) =~= so_far.push((key_model, value@)));
            }
            object.insert(key, value);
            i = i + 1;
        }
        proof {
            assert(self@.take(place(n)) =~= self@);
        }
        let r = Value::Object(object);
        assert(r@ == ValueModel::Object(object@));
        r
    }
}

/// Where the keys are texts in their order, each key makes an entry of its
/// own, at the end of those before it.
pub proof fn lemma_sorted_filled_in_order<I>(entries: Seq<(KeyModel, ValueModel)>, items: Seq<I>)
    requires
        items.len() == entries.len(),
        keys_in_order(entries),
    ensures
        sorted_filled(entries, items).len() == entries.len(),
        forall|i: int|
            0 <= i < entries.len() ==> #[trigger] sorted_filled(entries, items)[i] == (
                key_text(entries[i].0),
                items[i],
            ),
    decreases entries.len(),
{
    if entries.len() > 0 {
        let head = entries.drop_last();
        let head_items = items.drop_last();
        assert(keys_in_order(head)) by {
            assert forall|i: int| 0 <= i < head.len() implies (#[trigger] head[i]).0 is String by {
                assert(head[i] == entries[i]);
            }
            assert forall|i: int, j: int| 0 <= i < j < head.len() implies text_order(
                key_text((#[trigger] head[i]).0),
                key_text((#[trigger] head[j]).0),
            ) == Ordering::Less by {
                assert(head[i] == entries[i]);
                assert(head[j] == entries[j]);
            }
        }
        lemma_sorted_filled_in_order(head, head_items);
        let so_far = sorted_filled(head, head_items);
        let text = key_text(entries.last().0);
        assert(sorted_keys(so_far)) by {
            assert forall|i: int, j: int| 0 <= i < j < so_far.len() implies text_order(
                (#[trigger] so_far[i]).0,
                (#[trigger] so_far[j]).0,
            ) == Ordering::Less by {
                assert(head[i] == entries[i]);
                assert(head[j] == entries[j]);
            }
        }
        lemma_lower_place(so_far, text);
        let p = lower_place(so_far, text);
        if p < so_far.len() {
            assert(head[p] == entries[p]);
            assert(text_order(so_far[p].0, text) == Ordering::Less);
        }
        assert(p == so_far.len());
        assert(!holds_text(so_far, text));
        assert(sorted_filled(entries, items) =~= so_far.push((text, items.last())));
    }
}

impl<T: ExactConversion> ExactConversion for SortedTextMap<T> where
    <T as FromValueBehavior>::Item: ToValueBehavior,
 {
    /// A map whose keys are texts in their order, each before the next, and
    /// whose values are of the shape of the inner type.
    open spec fn exact(value: ValueModel) -> bool {
        value matches ValueModel::Object(entries) && keys_in_order(entries) && forall|i: int|
            0 <= i < entries.len() ==> T::exact((#[trigger] entries[i]).1)
    }

    proof fn lemma_there_and_back(value: ValueModel, item: SortedTextMap<T::Item>) {
        let entries = value->Object_0;
        assert forall|i: int| 0 <= i < entries.len() implies T::defined_on(
            (#[trigger] entries[i]).1,
        ) && T::accepts(entries[i].1) by {
            let any: T::Item = arbitrary();
            T::lemma_there_and_back(entries[i].1, any);
        }
        if Self::yields(value, item) {
            let items = choose|items: Seq<T::Item>|
                {
                    &&& items.len() == entries.len()
                    &&& forall|i: int|
                        0 <= i < entries.len() ==> T::yields((#[trigger] entries[i]).1, items[i])
                    &&& item@ == #[trigger] sorted_filled(entries, items)
                };
            lemma_sorted_filled_in_order(entries, items);
            assert forall|i: int| 0 <= i < entries.len() implies written(item@)[i]
                == #[trigger] entries[i] by {
                T::lemma_there_and_back(entries[i].1, items[i]);
                assert(sorted_filled(entries, items)[i] == (key_text(entries[i].0), items[i]));
                assert(entries[i].0 == KeyModel::String(key_text(entries[i].0)));
            }
            assert(written(item@) =~= entries);
        }
    }
}

} // verus!
