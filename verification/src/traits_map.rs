//! Between maps of native items and `Value`.

use vstd::prelude::*;
use crate::entries::distinct_keys;
use crate::entries::has_key;
use crate::entries::lemma_key_place;
use crate::entries::with_entry;
use crate::traits::ExactConversion;
use crate::traits::FromValueBehavior;
use crate::traits::ToValueBehavior;
use crate::types::object::Object;
use crate::types::text_map::TextMap;
use crate::types::value_key::key_text;
use crate::types::value_key::KeyModel;
use crate::value::Value;
use crate::value::ValueModel;

verus! {

/// The map that comes of giving the text of each key, in turn, the item that
/// the value of the key converted to. Two keys with one text, as a number and
/// the text of its digits, make one entry, and the later item stays.
pub open spec fn filled<I>(entries: Seq<(KeyModel, ValueModel)>, items: Seq<I>) -> Seq<
    (Seq<char>, I),
>
    decreases entries.len(),
{
    if entries.len() == 0 || items.len() != entries.len() {
        Seq::empty()
    } else {
        with_entry(
            filled(entries.drop_last(), items.drop_last()),
            key_text(entries.last().0),
            items.last(),
        )
    }
}

/// The entries that a map of items is written as: each text as a key, each
/// item as the value that it converts to.
pub open spec fn written<T: ToValueBehavior>(entries: Seq<(Seq<char>, T)>) -> Seq<
    (KeyModel, ValueModel),
> {
    Seq::new(entries.len(), |i: int| (KeyModel::String(entries[i].0), entries[i].1.value_of()))
}

impl<T: FromValueBehavior> FromValueBehavior for TextMap<T> {
    type Item = TextMap<T::Item>;

    open spec fn defined_on(value: ValueModel) -> bool {
        value matches ValueModel::Object(entries) ==> forall|i: int|
            0 <= i < entries.len() ==> T::defined_on((#[trigger] entries[i]).1) && T::accepts(
                entries[i].1,
            )
    }

    open spec fn accepts(value: ValueModel) -> bool {
        value is Object
    }

    open spec fn yields(value: ValueModel, item: TextMap<T::Item>) -> bool {
        value matches ValueModel::Object(entries) && exists|items: Seq<T::Item>|
            {
                &&& items.len() == entries.len()
                &&& forall|i: int|
                    0 <= i < entries.len() ==> T::yields((#[trigger] entries[i]).1, items[i])
                &&& item@ == #[trigger] filled(entries, items)
            }
    }

    fn from_value(value: Value) -> (r: Option<TextMap<T::Item>>) {
        let ghost whole = value@;
        if let Value::Object(object) = value {
            let ghost models = object@;
            assert(whole == ValueModel::Object(models));
            assert(whole matches ValueModel::Object(entries) && entries == models);
            let entries = object.into_entries();
            let mut map: TextMap<T::Item> = TextMap::new();
            let ghost mut items: Seq<T::Item> = Seq::empty();
            assert(models.take(0) =~= Seq::empty());
            for entry in it: entries
                invariant
                    it.seq().len() == models.len(),
                    forall|j: int|
                        0 <= j < models.len() ==> (#[trigger] it.seq()[j]).0@ == models[j].0
                            && it.seq()[j].1@ == models[j].1,
                    forall|j: int|
                        0 <= j < models.len() ==> T::defined_on((#[trigger] models[j]).1)
                            && T::accepts(models[j].1),
                    items.len() == it.index(),
                    forall|j: int|
                        0 <= j < it.index() ==> T::yields((#[trigger] models[j]).1, items[j]),
                    map@ == filled(models.take(it.index() as int), items),
            {
                let ghost before = items;
                let ghost n = it.index() as int;
                let text = entry.0.to_string();
                let item = T::from_value(entry.1);
                let inner = item.unwrap();
                proof {
                    items = items.push(inner);
                    assert(models.take(n + 1).drop_last() =~= models.take(n));
                    assert(items.drop_last() =~= before);
                    assert(models.take(n + 1).last() == models[n]);
                }
                map.insert(text, inner);
            }
            proof {
                assert(models.take(models.len() as int) =~= models);
            }
            Some(map)
        } else {
            None
        }
    }

    fn is_defined_on(value: &Value) -> (r: bool) {
        match value {
            Value::Object(object) => {
                assert(value@ == ValueModel::Object(object@));
                let n = object.len();
                let mut i: usize = 0;
                while i < n
                    invariant
                        n == object@.len(),
                        i <= n,
                        value@ == ValueModel::Object(object@),
                        forall|j: int|
                            0 <= j < i ==> T::defined_on((#[trigger] object@[j]).1) && T::accepts(
                                object@[j].1,
                            ),
                    decreases n - i,
                {
                    let inner = object.value_at(i);
                    if !T::is_defined_on(inner) || !T::is_accepted(inner) {
                        assert(value@ matches ValueModel::Object(entries) && entries == object@);
                        assert(!(T::defined_on(object@[i as int].1) && T::accepts(
                            object@[i as int].1,
                        )));
                        return false;
                    }
                    i = i + 1;
                }
                true
            },
            _ => true,
        }
    }

    fn is_accepted(value: &Value) -> (r: bool) {
        match value {
            Value::Object(_) => true,
            _ => false,
        }
    }
}

impl<T: ToValueBehavior> ToValueBehavior for TextMap<T> {
    open spec fn value_of(&self) -> ValueModel {
        ValueModel::Object(written(self@))
    }

    fn to_value(&self) -> (r: Value) {
        let mut object = Object::new();
        let n = self.len();
        let mut i: usize = 0;
        while i < n
            invariant
                n == self@.len(),
                distinct_keys(self@),
                i <= n,
                object@ == written(self@.take(i as int)),
            decreases n - i,
        {
            let key = self.key_at(i).clone();
            let value = self.value_at(i).to_value();
            proof {
                let so_far = written(self@.take(i as int));
                let key_model = KeyModel::String(self@[i as int].0);
                if has_key(so_far, key_model) {
                    lemma_key_place(so_far, key_model);
                }
                assert(!has_key(so_far, key_model));
                assert(written(self@.take(i + 1)) =~= so_far.push((key_model, value@)));
            }
            object.insert(key, value);
            i = i + 1;
        }
        proof {
            assert(self@.take(n as int) =~= self@);
        }
        let r = Value::Object(object);
        assert(r@ == ValueModel::Object(object@));
        r
    }
}

/// Where no two keys have one text, each key makes an entry of its own, in
/// the order of the keys.
pub proof fn lemma_filled_apart<I>(entries: Seq<(KeyModel, ValueModel)>, items: Seq<I>)
    requires
        items.len() == entries.len(),
        forall|i: int, j: int|
            0 <= i < entries.len() && 0 <= j < entries.len() && i != j ==> key_text(
                (#[trigger] entries[i]).0,
            ) != key_text((#[trigger] entries[j]).0),
    ensures
        filled(entries, items).len() == entries.len(),
        forall|i: int|
            0 <= i < entries.len() ==> #[trigger] filled(entries, items)[i] == (
                key_text(entries[i].0),
                items[i],
            ),
    decreases entries.len(),
{
    if entries.len() > 0 {
        let head = entries.drop_last();
        let head_items = items.drop_last();
        lemma_filled_apart(head, head_items);
        let so_far = filled(head, head_items);
        let text = key_text(entries.last().0);
        if has_key(so_far, text) {
            lemma_key_place(so_far, text);
            let k = crate::entries::key_place(so_far, text);
            assert(so_far[k].0 == key_text(entries[k].0));
            assert(entries[k] == head[k]);
        }
        assert(filled(entries, items) =~= so_far.push((text, items.last())));
    }
}

impl<T: ExactConversion> ExactConversion for TextMap<T> where
    <T as FromValueBehavior>::Item: ToValueBehavior,
 {
    /// A map whose keys are texts, no two of them the same, and whose values
    /// are of the shape of the inner type.
    open spec fn exact(value: ValueModel) -> bool {
        value matches ValueModel::Object(entries) && distinct_keys(entries) && forall|i: int|
            0 <= i < entries.len() ==> (#[trigger] entries[i]).0 is String && T::exact(entries[i].1)
    }

    proof fn lemma_there_and_back(value: ValueModel, item: TextMap<T::Item>) {
        let entries = value->Object_0;
        assert forall|i: int| 0 <= i < entries.len() implies T::defined_on(
            (#[trigger] entries[i]).1,
        ) && T::accepts(entries[i].1) by {
            let any: T::Item = arbitrary();
            T::lemma_there_and_back(entries[i].1, any);
        }
        if Self::yields(value, item) {
            let items = choose|items: Seq<T::Item>|
                {
                    &&& items.len() == entries.len()
                    &&& forall|i: int|
                        0 <= i < entries.len() ==> T::yields((#[trigger] entries[i]).1, items[i])
                    &&& item@ == #[trigger] filled(entries, items)
                };
            assert forall|i: int, j: int|
                0 <= i < entries.len() && 0 <= j < entries.len() && i != j implies key_text(
                (#[trigger] entries[i]).0,
            ) != key_text((#[trigger] entries[j]).0) by {
                assert(entries[i].0 == KeyModel::String(key_text(entries[i].0)));
                assert(entries[j].0 == KeyModel::String(key_text(entries[j].0)));
            }
            lemma_filled_apart(entries, items);
            assert forall|i: int| 0 <= i < entries.len() implies written(item@)[i]
                == #[trigger] entries[i] by {
                T::lemma_there_and_back(entries[i].1, items[i]);
                assert(filled(entries, items)[i] == (key_text(entries[i].0), items[i]));
            }
            assert(written(item@) =~= entries);
        }
    }
}

} // verus!
