//! Attribute records: the rows of the table, as a mapping from attribute names
//! to typed scalars.

use vstd::prelude::*;
use crate::text::text_eq;

verus! {

/// A stored value. The table's own values have more kinds than these; this
/// crate reads and writes strings and numbers and keeps of any other kind only
/// that it is one.
#[derive(Debug)]
pub enum AttributeValue {
    /// A string.
    S(String),
    /// A number, in its decimal text.
    N(String),
    /// A value of another kind.
    Other,
}

/// A stored value, as a mathematical value.
pub ghost enum Scalar {
    S(Seq<char>),
    N(Seq<char>),
    Other,
}

impl View for AttributeValue {
    type V = Scalar;

    open spec fn view(&self) -> Scalar {
        match self {
            AttributeValue::S(s) => Scalar::S(s@),
            AttributeValue::N(n) => Scalar::N(n@),
            AttributeValue::Other => Scalar::Other,
        }
    }
}

impl Clone for AttributeValue {
    fn clone(&self) -> (copy: Self)
        ensures
            copy == *self,
    {
        match self {
            AttributeValue::S(s) => AttributeValue::S(s.clone()),
            AttributeValue::N(n) => AttributeValue::N(n.clone()),
            AttributeValue::Other => AttributeValue::Other,
        }
    }
}

impl AttributeValue {
    /// Whether the value is a string.
    pub fn is_s(&self) -> (yes: bool)
        ensures
            yes == (self@ is S),
    {
        match self {
            AttributeValue::S(_) => true,
            _ => false,
        }
    }

    /// Whether the value is a number.
    pub fn is_n(&self) -> (yes: bool)
        ensures
            yes == (self@ is N),
    {
        match self {
            AttributeValue::N(_) => true,
            _ => false,
        }
    }

    /// The string that the value holds, if it is a string.
    pub fn as_s(&self) -> (text: Option<&String>)
        ensures
            text.is_some() == (self@ is S),
            text matches Some(s) ==> self@ == Scalar::S(s@),
    {
        match self {
            AttributeValue::S(s) => Some(s),
            _ => None,
        }
    }

    /// The decimal text that the value holds, if it is a number.
    pub fn as_n(&self) -> (text: Option<&String>)
        ensures
            text.is_some() == (self@ is N),
            text matches Some(n) ==> self@ == Scalar::N(n@),
    {
        match self {
            AttributeValue::N(n) => Some(n),
            _ => None,
        }
    }
}

/// One attribute of a record: its name and its value.
#[derive(Debug)]
pub struct Attribute {
    pub name: String,
    pub value: AttributeValue,
}

impl Clone for Attribute {
    fn clone(&self) -> (copy: Self)
        ensures
            copy == *self,
    {
        Attribute { name: self.name.clone(), value: self.value.clone() }
    }
}

/// The mapping that a list of attributes stands for: where a name occurs more
/// than once, its last occurrence counts.
pub open spec fn map_of(entries: Seq<Attribute>) -> Map<Seq<char>, Scalar>
    decreases entries.len(),
{
    if entries.len() == 0 {
        Map::empty()
    } else {
        map_of(entries.drop_last()).insert(entries.last().name@, entries.last().value@)
    }
}

/// A name that no attribute of the list carries is not in the mapping.
pub proof fn lemma_map_of_absent(entries: Seq<Attribute>, name: Seq<char>)
    requires
        forall|i: int| 0 <= i < entries.len() ==> entries[i].name@ != name,
    ensures
        !map_of(entries).contains_key(name),
    decreases entries.len(),
{
    if entries.len() > 0 {
        lemma_map_of_absent(entries.drop_last(), name);
    }
}

/// The mapping gives a name the value of its last occurrence in the list.
pub proof fn lemma_map_of_last(entries: Seq<Attribute>, at: int)
    requires
        0 <= at < entries.len(),
        forall|i: int| at < i < entries.len() ==> entries[i].name@ != entries[at].name@,
    ensures
        map_of(entries).contains_key(entries[at].name@),
        map_of(entries)[entries[at].name@] == entries[at].value@,
    decreases entries.len(),
{
    if at < entries.len() - 1 {
        lemma_map_of_last(entries.drop_last(), at);
    }
}

/// Every name of the list is in the mapping.
pub proof fn lemma_map_of_contains(entries: Seq<Attribute>, at: int)
    requires
        0 <= at < entries.len(),
    ensures
        map_of(entries).contains_key(entries[at].name@),
    decreases entries.len(),
{
    if at < entries.len() - 1 {
        lemma_map_of_contains(entries.drop_last(), at);
    }
}

/// A record: a mapping from attribute names to values.
#[derive(Debug)]
pub struct Record {
    entries: Vec<Attribute>,
}

impl View for Record {
    type V = Map<Seq<char>, Scalar>;

    closed spec fn view(&self) -> Map<Seq<char>, Scalar> {
        map_of(self.entries@)
    }
}

impl Clone for Record {
    fn clone(&self) -> (copy: Self)
        ensures
            copy@ == self@,
    {
        let mut entries: Vec<Attribute> = Vec::new();
        let mut i: usize = 0;
        while i < self.entries.len()
            invariant
                0 <= i <= self.entries.len(),
                entries@ == self.entries@.take(i as int),
            decreases self.entries.len() - i,
        {
            entries.push(self.entries[i].clone());
            assert(entries@ =~= self.entries@.take(i + 1));
            i += 1;
        }
        assert(entries@ =~= self.entries@);
        Record { entries }
    }
}

impl Record {
    /// The record without attributes.
    pub fn new() -> (record: Self)
        ensures
            record@ == Map::<Seq<char>, Scalar>::empty(),
    {
        Record { entries: Vec::new() }
    }

    /// The record that a list of attributes stands for.
    pub fn from_entries(entries: Vec<Attribute>) -> (record: Self)
        ensures
            record@ == map_of(entries@),
    {
        Record { entries }
    }

    /// The attributes of the record as a list that stands for it.
    pub fn entries(&self) -> (entries: &Vec<Attribute>)
        ensures
            map_of(entries@) == self@,
    {
        &self.entries
    }

    /// Sets the attribute `name` to `value`, whether or not the record had it.
    pub fn insert(&mut self, name: String, value: AttributeValue)
        ensures
            final(self)@ == old(self)@.insert(name@, value@),
    {
        self.entries.push(Attribute { name, value });
        assert(self.entries@.drop_last() =~= old(self).entries@);
    }

    /// The value of the attribute `name`, if the record has it.
    pub fn get(&self, name: &str) -> (value: Option<&AttributeValue>)
        ensures
            value.is_some() == self@.contains_key(name@),
            value matches Some(v) ==> v@ == self@[name@],
    {
        let mut i: usize = self.entries.len();
        while i > 0
            invariant
                0 <= i <= self.entries.len(),
                forall|k: int| i <= k < self.entries.len() ==> self.entries[k].name@ != name@,
            decreases i,
        {
            i -= 1;
            if text_eq(self.entries[i].name.as_str(), name) {
                proof {
                    lemma_map_of_last(self.entries@, i as int);
                }
                return Some(&self.entries[i].value);
            }
        }
        proof {
            lemma_map_of_absent(self.entries@, name@);
        }
        None
    }

    /// Whether the record has the attribute `name`.
    pub fn contains_key(&self, name: &str) -> (yes: bool)
        ensures
            yes == self@.contains_key(name@),
    {
        self.get(name).is_some()
    }
}

} // verus!
