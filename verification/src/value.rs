//! The loosely typed tree in which payloads arrive and leave.
use crate::decimal::{Decimal, DecimalView};
use crate::text::str_eq;
use vstd::prelude::*;

verus! {

/// A payload: what a JSON document holds, with numbers kept exactly.
#[derive(Debug)]
pub enum Value {
    Null,
    Bool(bool),
    Number(Decimal),
    Text(String),
    List(Vec<Value>),
    /// Named fields in wire order. Where a name occurs twice the first
    /// occurrence counts.
    Object(Vec<(String, Value)>),
}

/// What a [`Value`] holds, as mathematical values.
pub enum ValueView {
    Null,
    Bool(bool),
    Number(DecimalView),
    Text(Seq<char>),
    List(Seq<ValueView>),
    Object(Seq<(Seq<char>, ValueView)>),
}

impl Value {
    /// The tree that this payload denotes.
    pub open spec fn model(self) -> ValueView
        decreases self,
    {
        match self {
            Value::Null => ValueView::Null,
            Value::Bool(b) => ValueView::Bool(b),
            Value::Number(d) => ValueView::Number(d@),
            Value::Text(s) => ValueView::Text(s@),
            Value::List(items) => ValueView::List(
                Seq::new(
                    items@.len(),
                    |i: int|
                        if 0 <= i < items@.len() {
                            items@[i].model()
                        } else {
                            ValueView::Null
                        },
                ),
            ),
            Value::Object(fields) => ValueView::Object(
                Seq::new(
                    fields@.len(),
                    |i: int|
                        if 0 <= i < fields@.len() {
                            (fields@[i].0@, fields@[i].1.model())
                        } else {
                            (Seq::empty(), ValueView::Null)
                        },
                ),
            ),
        }
    }
}

impl Value {
    /// A copy of the payload.
    pub fn duplicate(&self) -> (copy: Value)
        ensures
            copy@ == self@,
        decreases self,
    {
        broadcast use {
            lemma_list_view,
            lemma_object_view,
            vstd::std_specs::vec::axiom_vec_index_decreases,
        };

        match self {
            Value::Null => Value::Null,
            Value::Bool(b) => Value::Bool(*b),
            Value::Number(d) => Value::Number(*d),
            Value::Text(s) => Value::Text(s.clone()),
            Value::List(items) => {
                let mut copies: Vec<Value> = Vec::new();
                let mut i: usize = 0;
                while i < items.len()
                    invariant
                        i <= items.len(),
                        copies.len() == i,
                        self matches Value::List(own) && own == items,
                        forall|j: int| 0 <= j < i ==> (#[trigger] copies@[j])@ == items@[j]@,
                    decreases items.len() - i,
                {
                    let item = &items[i];
                    assert(decreases_to!(self => items@[i as int]));
                    copies.push(item.duplicate());
                    i += 1;
                }
                assert(items_view(copies@) =~= items_view(items@));
                Value::List(copies)
            },
            Value::Object(fields) => {
                let mut copies: Vec<(String, Value)> = Vec::new();
                let mut i: usize = 0;
                while i < fields.len()
                    invariant
                        i <= fields.len(),
                        copies.len() == i,
                        self matches Value::Object(own) && own == fields,
                        forall|j: int|
                            0 <= j < i ==> (#[trigger] copies@[j]).0@ == fields@[j].0@
                                && copies@[j].1@ == fields@[j].1@,
                    decreases fields.len() - i,
                {
                    let entry = &fields[i];
                    assert(decreases_to!(self => fields@[i as int].1));
                    copies.push((entry.0.clone(), entry.1.duplicate()));
                    i += 1;
                }
                assert(fields_view(copies@) =~= fields_view(fields@));
                Value::Object(copies)
            },
        }
    }
}

impl View for Value {
    type V = ValueView;

    open spec fn view(&self) -> ValueView {
        self.model()
    }
}

/// The views of a list's items, in order.
pub open spec fn items_view(items: Seq<Value>) -> Seq<ValueView> {
    Seq::new(items.len(), |i: int| items[i]@)
}

/// The views of an object's fields, in order.
pub open spec fn fields_view(fields: Seq<(String, Value)>) -> Seq<(Seq<char>, ValueView)> {
    Seq::new(fields.len(), |i: int| (fields[i].0@, fields[i].1@))
}

/// Whether a field named `a` is the field that `b` asks for.
pub open spec fn same_name(a: Seq<char>, b: Seq<char>) -> bool {
    a == b
}

/// The value of the first field named `key`, if there is one.
#[verifier::opaque]
pub open spec fn field(fields: Seq<(Seq<char>, ValueView)>, key: Seq<char>) -> Option<ValueView>
    decreases fields.len(),
{
    if fields.len() == 0 {
        None
    } else {
        match field(fields.drop_last(), key) {
            Some(v) => Some(v),
            None => if same_name(fields.last().0, key) {
                Some(fields.last().1)
            } else {
                None
            },
        }
    }
}

/// A list's view is the views of its items.
pub broadcast proof fn lemma_list_view(items: Vec<Value>)
    ensures
        #[trigger] Value::List(items)@ == ValueView::List(items_view(items@)),
{
    reveal_with_fuel(Value::model, 2);
    assert(Value::List(items)@->List_0 =~= items_view(items@));
}

/// An object's view is the views of its fields.
pub broadcast proof fn lemma_object_view(fields: Vec<(String, Value)>)
    ensures
        #[trigger] Value::Object(fields)@ == ValueView::Object(fields_view(fields@)),
{
    reveal_with_fuel(Value::model, 2);
    assert(Value::Object(fields)@->Object_0 =~= fields_view(fields@));
}

/// Looking a name up after one more field was appended: the new field
/// answers only if it has that name and no earlier field has.
pub broadcast proof fn lemma_field_push(
    fields: Seq<(Seq<char>, ValueView)>,
    name: Seq<char>,
    value: ValueView,
    key: Seq<char>,
)
    ensures
        #[trigger] field(fields.push((name, value)), key) == if same_name(name, key) && field(
            fields,
            key,
        ) is None {
            Some(value)
        } else {
            field(fields, key)
        },
{
    reveal(field);
    assert(fields.push((name, value)).drop_last() =~= fields);
}

/// No name is found among no fields.
pub broadcast proof fn lemma_field_empty(key: Seq<char>)
    ensures
        #[trigger] field(Seq::empty(), key) is None,
{
    reveal(field);
}

/// The length of a name and its first eight characters.
pub open spec fn initials(name: Seq<char>) -> (nat, char, char, char, char, char, char, char, char) {
    (name.len(), name[0], name[1], name[2], name[3], name[4], name[5], name[6], name[7])
}

/// Spells out the initials of a name. Called for a literal whose characters
/// are revealed, it makes them known wherever the literal is compared.
pub proof fn lemma_initials(name: Seq<char>)
    ensures
        initials(name) == (
            name.len(),
            name[0],
            name[1],
            name[2],
            name[3],
            name[4],
            name[5],
            name[6],
            name[7],
        ),
{
}

/// Names that are the same have the same initials; so names with different
/// initials differ.
pub broadcast proof fn lemma_same_name(a: Seq<char>, b: Seq<char>)
    ensures
        #[trigger] same_name(a, b) ==> initials(a) == initials(b),
{
}

/// The first field of `fields` named `key`, if there is one.
pub fn find<'a>(fields: &'a Vec<(String, Value)>, key: &str) -> (r: Option<&'a Value>)
    ensures
        match r {
            Some(v) => field(fields_view(fields@), key@) == Some(v@),
            None => field(fields_view(fields@), key@) is None,
        },
{
    reveal(field);
    let ghost all = fields_view(fields@);
    let mut i: usize = 0;
    while i < fields.len()
        invariant
            i <= fields.len(),
            all == fields_view(fields@),
            field(all.take(i as int), key@) is None,
        decreases fields.len() - i,
    {
        reveal(field);
        assert(all.take(i + 1).drop_last() =~= all.take(i as int));
        assert(all.take(i + 1).last() == all[i as int]);
        if str_eq(fields[i].0.as_str(), key) {
            proof {
                lemma_field_extends(all, i + 1, key@);
            }
            return Some(&fields[i].1);
        }
        i += 1;
    }
    assert(all.take(fields.len() as int) =~= all);
    None
}

/// What the first `k` fields hold under a name, all the fields hold under it.
pub proof fn lemma_field_extends(fields: Seq<(Seq<char>, ValueView)>, k: int, key: Seq<char>)
    requires
        0 <= k <= fields.len(),
        field(fields.take(k), key) is Some,
    ensures
        field(fields, key) == field(fields.take(k), key),
    decreases fields.len() - k,
{
    reveal(field);
    if k < fields.len() {
        assert(fields.take(k + 1).drop_last() =~= fields.take(k));
        lemma_field_extends(fields, k + 1, key);
    } else {
        assert(fields.take(k) =~= fields);
    }
}

/// An object's fields, with none yet.
pub fn no_fields() -> (fields: Vec<(String, Value)>)
    ensures
        fields_view(fields@) == Seq::<(Seq<char>, ValueView)>::empty(),
{
    let fields: Vec<(String, Value)> = Vec::new();
    assert(fields_view(fields@) =~= Seq::<(Seq<char>, ValueView)>::empty());
    fields
}

/// Appends the field `key: value`.
pub fn put(fields: &mut Vec<(String, Value)>, key: &str, value: Value)
    ensures
        fields_view(final(fields)@) == fields_view(old(fields)@).push((key@, value@)),
{
    fields.push((key.to_owned(), value));
    assert(fields_view(fields@) =~= fields_view(old(fields)@).push((key@, value@)));
}

} // verus!
