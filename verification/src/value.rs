//! The value itself: one of eight kinds.

use vstd::prelude::*;
use vstd::string::StringExecFns;
use crate::rendering::JsonMode;
use crate::rendering::Rendering;
use crate::rendering::RenderingView;
use crate::types::array::Array;
use crate::types::datetime::DateTime;
use crate::types::number::Number;
use crate::types::object::Object;
use crate::types::stringb::StringB;
use crate::types::value_key::KeyModel;

verus! {

/// A value of one of eight kinds. A list and a map own the values in them,
/// so a value is a tree.
#[derive(Debug)]
pub enum Value {
    String(StringB),
    Number(Number),
    Boolean(bool),
    Array(Array),
    Object(Object),
    /// Data that is stated to be absent.
    Null,
    /// No data at all: what a place or a key that does not exist holds.
    Undefined,
    DateTime(DateTime),
}

/// A value as mathematics has it: texts as sequences of characters, a list as
/// the sequence of its values, a map as the sequence of its entries in the
/// order in which their keys came in.
pub enum ValueModel {
    String(Seq<char>),
    Number(Number),
    Boolean(bool),
    Array(Seq<ValueModel>),
    Object(Seq<(KeyModel, ValueModel)>),
    Null,
    Undefined,
    DateTime(DateTime),
}

impl View for Value {
    type V = ValueModel;

    open spec fn view(&self) -> ValueModel
        decreases self,
    {
        match self {
            Value::String(s) => ValueModel::String(s@),
            Value::Number(n) => ValueModel::Number(*n),
            Value::Boolean(b) => ValueModel::Boolean(*b),
            Value::Array(a) => ValueModel::Array(a.view()),
            Value::Object(o) => ValueModel::Object(o.view()),
            Value::Null => ValueModel::Null,
            Value::Undefined => ValueModel::Undefined,
            Value::DateTime(d) => ValueModel::DateTime(*d),
        }
    }
}

impl Default for Value {
    fn default() -> (r: Self)
        ensures
            r == Value::Null,
    {
        Value::Null
    }
}

/// What a value is written as: a text as it is, a number as `Number::shown`
/// has it, a boolean as `true` or `false`, the two absences as `null` and
/// `undefined`, a date or time as `DateTime::shown` has it. A list and a map
/// are for a JSON renderer to write, indented.
pub open spec fn shown(value: ValueModel) -> RenderingView {
    match value {
        ValueModel::String(s) => RenderingView::Text(s),
        ValueModel::Number(n) => n.shown(),
        ValueModel::Boolean(b) => RenderingView::Text(
            if b {
                seq!['t', 'r', 'u', 'e']
            } else {
                seq!['f', 'a', 'l', 's', 'e']
            },
        ),
        ValueModel::Array(_) => RenderingView::Json(JsonMode::Indented),
        ValueModel::Object(_) => RenderingView::Json(JsonMode::Indented),
        ValueModel::Null => RenderingView::Text(seq!['n', 'u', 'l', 'l']),
        ValueModel::Undefined => RenderingView::Text(
            seq!['u', 'n', 'd', 'e', 'f', 'i', 'n', 'e', 'd'],
        ),
        ValueModel::DateTime(d) => RenderingView::Text(d.shown()),
    }
}

/// The text of a string slice that is written in the program.
fn literal(text: &'static str) -> (r: Rendering)
    ensures
        r@ == RenderingView::Text(text@),
{
    Rendering::Text(String::from_str(text))
}

impl Value {
    /// Writes the value. What the library does not write itself comes back
    /// as what is to be written: a float, or the word that a list or a map is
    /// for a JSON renderer.
    pub fn display(&self) -> (r: Rendering)
        ensures
            r@ == shown(self@),
    {
        match self {
            Value::String(s) => Rendering::Text(s.as_string()),
            Value::Number(n) => n.display(),
            Value::Boolean(b) => {
                proof {
                    reveal_strlit("true");
                    reveal_strlit("false");
                }
                let r = if *b {
                    literal("true")
                } else {
                    literal("false")
                };
                assert(r@ =~= shown(self@)) by {
                    assert("true"@ =~= seq!['t', 'r', 'u', 'e']);
                    assert("false"@ =~= seq!['f', 'a', 'l', 's', 'e']);
                }
                r
            },
            Value::Array(_) => Rendering::Json(JsonMode::Indented),
            Value::Object(_) => Rendering::Json(JsonMode::Indented),
            Value::Null => {
                proof {
                    reveal_strlit("null");
                }
                let r = literal("null");
                assert("null"@ =~= seq!['n', 'u', 'l', 'l']);
                r
            },
            Value::Undefined => {
                proof {
                    reveal_strlit("undefined");
                }
                let r = literal("undefined");
                assert("undefined"@ =~= seq!['u', 'n', 'd', 'e', 'f', 'i', 'n', 'e', 'd']);
                r
            },
            Value::DateTime(d) => Rendering::Text(d.display()),
        }
    }
}

} // verus!
