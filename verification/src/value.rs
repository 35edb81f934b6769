//! The dynamic document value: what a field of a stored document can hold,
//! and the document itself as a mapping from keys to such values.

use vstd::prelude::*;

verus! {

/// An instant on the UTC time line: whole seconds since the Unix epoch and
/// the nanoseconds past that second.
#[derive(Copy, Debug, PartialEq, Eq, Structural)]
pub struct Timestamp {
    pub seconds: i64,
    pub nanos: u32,
}

impl Timestamp {
    /// The zero timestamp: the Unix epoch itself.
    pub open spec fn zero() -> Timestamp {
        Timestamp { seconds: 0, nanos: 0 }
    }
}

impl Clone for Timestamp {
    fn clone(&self) -> (copy: Timestamp)
        ensures
            copy == *self,
    {
        *self
    }
}

impl Default for Timestamp {
    fn default() -> (zero: Timestamp)
        ensures
            zero == Timestamp::zero(),
    {
        Timestamp { seconds: 0, nanos: 0 }
    }
}

/// A reference to a record: the collection it lives in and its identifier
/// within that collection.
#[derive(Debug, PartialEq, Eq)]
pub struct Thing {
    pub collection: String,
    pub identifier: String,
}

impl Clone for Thing {
    fn clone(&self) -> (copy: Thing)
        ensures
            copy == *self,
    {
        Thing { collection: self.collection.clone(), identifier: self.identifier.clone() }
    }
}

/// Any value that a field of a stored document can hold.
#[derive(Debug)]
pub enum Value {
    Null,
    Bool(bool),
    Num(i64),
    Str(String),
    Timestamp(Timestamp),
    Array(Vec<Value>),
    Object(Object),
    Thing(Thing),
}

/// A document: a mapping from keys to values.
///
/// The entries are kept in insertion order; where a key was inserted more
/// than once, the latest entry is the one the mapping holds.
#[derive(Debug)]
pub struct Object {
    entries: Vec<(String, Value)>,
}

/// The mathematical content of a [`Value`].
pub ghost enum ValueView {
    Null,
    Bool(bool),
    Num(int),
    Str(Seq<char>),
    Timestamp(Timestamp),
    Array(Seq<ValueView>),
    Object(Map<Seq<char>, ValueView>),
    Thing { collection: Seq<char>, identifier: Seq<char> },
}

/// The mathematical content of an [`Object`]: a mapping from keys to the
/// contents of their values.
pub type ObjectView = Map<Seq<char>, ValueView>;

impl View for Value {
    type V = ValueView;

    open spec fn view(&self) -> ValueView
        decreases self,
    {
        match self {
            Value::Null => ValueView::Null,
            Value::Bool(b) => ValueView::Bool(*b),
            Value::Num(n) => ValueView::Num(*n as int),
            Value::Str(s) => ValueView::Str(s@),
            Value::Timestamp(t) => ValueView::Timestamp(*t),
            Value::Array(items) => ValueView::Array(
                Seq::new(
                    items@.len(),
                    |i: int|
                        if 0 <= i < items@.len() {
                            items@[i].view()
                        } else {
                            ValueView::Null
                        },
                ),
            ),
            Value::Object(object) => ValueView::Object(object.view()),
            Value::Thing(thing) => ValueView::Thing {
                collection: thing.collection@,
                identifier: thing.identifier@,
            },
        }
    }
}

impl View for Object {
    type V = ObjectView;

    closed spec fn view(&self) -> ObjectView
        decreases self,
    {
        entries_view(self.entries@)
    }
}

/// The mapping that a sequence of entries stands for: each entry in turn is
/// written into the mapping, so a later entry replaces an earlier one with
/// the same key.
pub open spec fn entries_view(entries: Seq<(String, Value)>) -> ObjectView
    decreases entries,
{
    if entries.len() == 0 {
        Map::empty()
    } else {
        entries_view(entries.drop_last()).insert(entries.last().0@, entries.last().1.view())
    }
}

/// The view of an array holds the view of each item, in the same order.
pub proof fn lemma_array_view(items: Vec<Value>)
    ensures
        Value::Array(items)@ == ValueView::Array(items@.map_values(|item: Value| item@)),
{
    reveal_with_fuel(<Value as View>::view, 2);
    assert(Value::Array(items)@->Array_0 =~= items@.map_values(|item: Value| item@));
}

impl Object {
    /// An object without entries.
    pub fn new() -> (object: Object)
        ensures
            object@ == Map::<Seq<char>, ValueView>::empty(),
    {
        Object { entries: Vec::new() }
    }

    /// Sets the value of `key`, replacing the one it had.
    pub fn insert(&mut self, key: String, value: Value)
        ensures
            final(self)@ == old(self)@.insert(key@, value@),
    {
        proof {
            assert(self.entries@.push((key, value)).drop_last() == self.entries@);
        }
        self.entries.push((key, value));
    }

    /// The value of `key`, if the object has one.
    pub fn get(&self, key: &str) -> (found: Option<&Value>)
        ensures
            found is Some <==> self@.contains_key(key@),
            found matches Some(value) ==> value@ == self@[key@],
    {
        let wanted = key.to_owned();
        let mut i = self.entries.len();
        proof {
            assert(self.entries@.take(i as int) == self.entries@);
        }
        while i > 0
            invariant
                i <= self.entries@.len(),
                wanted@ == key@,
                self@.contains_key(key@) <==> entries_view(self.entries@.take(i as int)).contains_key(
                    key@,
                ),
                self@.contains_key(key@) ==> self@[key@] == entries_view(
                    self.entries@.take(i as int),
                )[key@],
            decreases i,
        {
            proof {
                let prefix = self.entries@.take(i as int);
                assert(prefix.drop_last() == self.entries@.take(i - 1));
                assert(entries_view(prefix) == entries_view(prefix.drop_last()).insert(
                    prefix.last().0@,
                    prefix.last().1@,
                ));
            }
            i -= 1;
            if self.entries[i].0 == wanted {
                return Some(&self.entries[i].1);
            }
        }
        None
    }

    /// Whether the object has a value for `key`.
    pub fn contains_key(&self, key: &str) -> (found: bool)
        ensures
            found == self@.contains_key(key@),
    {
        self.get(key).is_some()
    }
}

impl Clone for Value {
    fn clone(&self) -> (copy: Value)
        ensures
            copy@ == self@,
        decreases self,
    {
        match self {
            Value::Null => Value::Null,
            Value::Bool(flag) => Value::Bool(*flag),
            Value::Num(number) => Value::Num(*number),
            Value::Str(text) => Value::Str(text.clone()),
            Value::Timestamp(instant) => Value::Timestamp(*instant),
            Value::Array(items) => {
                let mut copies: Vec<Value> = Vec::new();
                let mut i: usize = 0;
                while i < items.len()
                    invariant
                        i <= items@.len(),
                        copies@.len() == i,
                        self is Array,
                        self->Array_0 == *items,
                        forall|j: int| 0 <= j < i ==> copies@[j]@ == items@[j]@,
                    decreases items@.len() - i,
                {
                    copies.push(items[i].clone());
                    i += 1;
                }
                proof {
                    lemma_array_view(copies);
                    lemma_array_view(*items);
                    assert(copies@.map_values(|item: Value| item@) =~= items@.map_values(
                        |item: Value| item@,
                    ));
                }
                Value::Array(copies)
            },
            Value::Object(object) => Value::Object(object.clone()),
            Value::Thing(thing) => Value::Thing(thing.clone()),
        }
    }
}

impl Clone for Object {
    fn clone(&self) -> (copy: Object)
        ensures
            copy@ == self@,
        decreases self,
    {
        let mut copies: Vec<(String, Value)> = Vec::new();
        let mut i: usize = 0;
        while i < self.entries.len()
            invariant
                i <= self.entries@.len(),
                entries_view(copies@) == entries_view(self.entries@.take(i as int)),
            decreases self.entries@.len() - i,
        {
            let key = self.entries[i].0.clone();
            let value = self.entries[i].1.clone();
            proof {
                assert(self.entries@.take(i + 1).drop_last() == self.entries@.take(i as int));
                assert(copies@.push((key, value)).drop_last() == copies@);
            }
            copies.push((key, value));
            i += 1;
        }
        proof {
            assert(self.entries@.take(i as int) == self.entries@);
        }
        Object { entries: copies }
    }
}

impl Default for Object {
    fn default() -> (object: Object)
        ensures
            object@ == Map::<Seq<char>, ValueView>::empty(),
    {
        Object::new()
    }
}

} // verus!
