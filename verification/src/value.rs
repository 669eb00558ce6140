use vstd::prelude::*;

use crate::assoc::{find, lemma_find_absent, lemma_find_at};
use crate::text::position;

verus! {

/// An argument as a script hands it over, before it is given a type.
#[derive(Debug)]
pub enum ScriptValue {
    /// No value.
    Nil,
    /// A truth value.
    Boolean(bool),
    /// A piece of text.
    Text(String),
    /// A sequence of values.
    List(Vec<ScriptValue>),
    /// Named values.
    Table(Vec<(String, ScriptValue)>),
    /// Anything else: a number, a function, a foreign object.
    Other,
}

/// The named values of a table, by the model of their names.
pub open spec fn bindings(entries: Seq<(String, ScriptValue)>) -> Seq<(Seq<char>, ScriptValue)> {
    Seq::new(entries.len(), |i: int| (entries[i].0@, entries[i].1))
}

/// What `name` is bound to in a table; of two values with one name the
/// later counts.
pub open spec fn field(entries: Seq<(String, ScriptValue)>, name: Seq<char>) -> Option<
    ScriptValue,
> {
    find(bindings(entries), name)
}

/// The texts of a sequence that holds nothing but text.
pub open spec fn texts(items: Seq<ScriptValue>) -> Option<Seq<Seq<char>>> {
    if forall|i: int| 0 <= i < items.len() ==> #[trigger] items[i] is Text {
        Some(Seq::new(items.len(), |i: int| items[i]->Text_0@))
    } else {
        None
    }
}

/// Looks `name` up in a table.
pub fn get_field<'a>(entries: &'a Vec<(String, ScriptValue)>, name: &str) -> (value: Option<
    &'a ScriptValue,
>)
    ensures
        match value {
            Some(v) => field(entries@, name@) == Some(*v),
            None => field(entries@, name@) is None,
        },
{
    let ghost model = bindings(entries@);
    match position(entries, name) {
        Some(i) => {
            proof {
                assert forall|j: int| i < j < model.len() implies (#[trigger] model[j]).0
                    != model[i as int].0 by {
                    assert(entries[j].0@ != name@);
                }
                lemma_find_at(model, i as int);
            }
            Some(&entries[i].1)
        },
        None => {
            proof {
                assert forall|j: int| 0 <= j < model.len() implies (#[trigger] model[j]).0
                    != name@ by {
                    assert(entries[j].0@ != name@);
                }
                lemma_find_absent(model, name@);
            }
            None
        },
    }
}

/// Copies the texts out of a sequence, if it holds nothing but text.
pub fn get_texts(items: &Vec<ScriptValue>) -> (out: Option<Vec<String>>)
    ensures
        out.deep_view() == texts(items@),
{
    let mut out: Vec<String> = Vec::new();
    let mut i: usize = 0;
    while i < items.len()
        invariant
            i <= items.len(),
            out.len() == i,
            forall|j: int| 0 <= j < i ==> #[trigger] items[j] is Text,
            forall|j: int| 0 <= j < i ==> (#[trigger] out[j])@ == items[j]->Text_0@,
        decreases items.len() - i,
    {
        match &items[i] {
            ScriptValue::Text(s) => {
                out.push(s.clone());
            },
            _ => {
                return None;
            },
        }
        i = i + 1;
    }
    proof {
        assert(out.deep_view() =~= texts(items@)->0);
    }
    Some(out)
}

} // verus!
