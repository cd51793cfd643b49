//! Power-source records: descriptive fields reported by the platform, looked
//! up by key and checked for their type.

use vstd::prelude::*;
use vstd::string::*;

verus! {

/// A value that a record holds under a key.
#[derive(Clone, Debug, PartialEq, Eq)]
pub enum TypedValue {
    Text(String),
    Integer(i64),
    Boolean(bool),
}

/// One entry of a record.
#[derive(Clone, Debug, PartialEq, Eq)]
pub struct Field {
    pub key: String,
    pub value: TypedValue,
}

/// The description of one power source. Where a key occurs more than once,
/// its first entry counts.
#[derive(Clone, Debug, PartialEq, Eq)]
pub struct Record {
    pub fields: Vec<Field>,
}

/// Why a record could not be turned into a snapshot.
#[derive(Clone, Debug, PartialEq, Eq)]
pub enum ReadError {
    /// The record has no entry under this key.
    FieldMissing(String),
    /// The entry under this key is not of the type asked for.
    TypeMismatch(String),
    /// The maximum capacity is zero, so no percentage exists.
    DivisionByZero,
}

/// A `ReadError` with its key as a sequence of characters.
pub enum ReadErrorView {
    FieldMissing(Seq<char>),
    TypeMismatch(Seq<char>),
    DivisionByZero,
}

impl View for ReadError {
    type V = ReadErrorView;

    open spec fn view(&self) -> ReadErrorView {
        match self {
            ReadError::FieldMissing(key) => ReadErrorView::FieldMissing(key@),
            ReadError::TypeMismatch(key) => ReadErrorView::TypeMismatch(key@),
            ReadError::DivisionByZero => ReadErrorView::DivisionByZero,
        }
    }
}

/// The value of the first entry under `key` among `fields[start..]`.
pub open spec fn lookup_from(fields: Seq<Field>, key: Seq<char>, start: int) -> Option<TypedValue>
    decreases fields.len() - start,
{
    if start < 0 || start >= fields.len() {
        None
    } else if fields[start].key@ == key {
        Some(fields[start].value)
    } else {
        lookup_from(fields, key, start + 1)
    }
}

/// The text under `key`, or the reason why there is none.
pub open spec fn text_of(value: Option<TypedValue>, key: Seq<char>) -> Result<Seq<char>, ReadErrorView> {
    match value {
        None => Err(ReadErrorView::FieldMissing(key)),
        Some(TypedValue::Text(text)) => Ok(text@),
        Some(_) => Err(ReadErrorView::TypeMismatch(key)),
    }
}

/// The integer under `key`, or the reason why there is none.
pub open spec fn integer_of(value: Option<TypedValue>, key: Seq<char>) -> Result<i64, ReadErrorView> {
    match value {
        None => Err(ReadErrorView::FieldMissing(key)),
        Some(TypedValue::Integer(number)) => Ok(number),
        Some(_) => Err(ReadErrorView::TypeMismatch(key)),
    }
}

/// A lookup in fields with one more entry at the end finds what it found
/// before, and the new entry only where it found nothing.
pub proof fn lemma_lookup_push(fields: Seq<Field>, field: Field, key: Seq<char>, start: int)
    requires
        0 <= start <= fields.len(),
    ensures
        lookup_from(fields.push(field), key, start) == if lookup_from(fields, key, start) is Some {
            lookup_from(fields, key, start)
        } else if field.key@ == key {
            Some(field.value)
        } else {
            None
        },
    decreases fields.len() - start,
{
    let longer = fields.push(field);
    if start < fields.len() {
        assert(longer[start] == fields[start]);
        if fields[start].key@ != key {
            lemma_lookup_push(fields, field, key, start + 1);
        }
    } else {
        assert(longer[start] == field);
        assert(lookup_from(longer, key, start + 1) is None);
    }
}

impl Record {
    /// The value that the record holds under `key`, if any.
    pub open spec fn value_of(&self, key: Seq<char>) -> Option<TypedValue> {
        lookup_from(self.fields@, key, 0)
    }

    /// What `get_string` returns for `key`.
    pub open spec fn string_at(&self, key: Seq<char>) -> Result<Seq<char>, ReadErrorView> {
        text_of(self.value_of(key), key)
    }

    /// What `get_int` returns for `key`.
    pub open spec fn int_at(&self, key: Seq<char>) -> Result<i64, ReadErrorView> {
        integer_of(self.value_of(key), key)
    }

    /// A record without entries.
    pub fn new() -> (record: Record)
        ensures
            record.fields@.len() == 0,
            forall|key: Seq<char>| record.value_of(key) is None,
    {
        Record { fields: Vec::new() }
    }

    /// Adds an entry at the end, behind those the record already holds: a
    /// key that the record held keeps its value, and `key` gets `value` if
    /// the record did not hold it.
    pub fn push(&mut self, key: &str, value: TypedValue)
        ensures
            final(self).fields@.len() == old(self).fields@.len() + 1,
            forall|i: int|
                0 <= i < old(self).fields@.len() ==> final(self).fields@[i] == old(self).fields@[i],
            final(self).fields@.last().key@ == key@,
            final(self).fields@.last().value == value,
            forall|other: Seq<char>| #[trigger]
                final(self).value_of(other) == if old(self).value_of(other) is Some {
                    old(self).value_of(other)
                } else if other == key@ {
                    Some(value)
                } else {
                    None
                },
    {
        let field = Field { key: String::from_str(key), value };
        proof {
            assert forall|other: Seq<char>| #[trigger]
                lookup_from(self.fields@.push(field), other, 0) == if lookup_from(
                    self.fields@,
                    other,
                    0,
                ) is Some {
                    lookup_from(self.fields@, other, 0)
                } else if other == key@ {
                    Some(value)
                } else {
                    None
                } by {
                lemma_lookup_push(self.fields@, field, other, 0);
            }
        }
        self.fields.push(field);
    }

    /// Looks `key` up: the value of its first entry, or `None` where the
    /// record has no such entry.
    pub fn get(&self, key: &str) -> (found: Option<&TypedValue>)
        ensures
            match found {
                Some(value) => self.value_of(key@) == Some(*value),
                None => self.value_of(key@) is None,
            },
    {
        let wanted = String::from_str(key);
        let mut i: usize = 0;
        while i < self.fields.len()
            invariant
                i <= self.fields@.len(),
                wanted@ == key@,
                self.value_of(key@) == lookup_from(self.fields@, key@, i as int),
            decreases self.fields@.len() - i,
        {
            if self.fields[i].key == wanted {
                return Some(&self.fields[i].value);
            }
            i += 1;
        }
        None
    }

    /// The text under `key`: `FieldMissing` where the key is absent,
    /// `TypeMismatch` where its value is no text.
    pub fn get_string(&self, key: &str) -> (found: Result<String, ReadError>)
        ensures
            match found {
                Ok(text) => self.string_at(key@) == Ok::<Seq<char>, ReadErrorView>(text@),
                Err(error) => self.string_at(key@) == Err::<Seq<char>, ReadErrorView>(error@),
            },
    {
        match self.get(key) {
            None => Err(ReadError::FieldMissing(String::from_str(key))),
            Some(TypedValue::Text(text)) => Ok(text.clone()),
            Some(_) => Err(ReadError::TypeMismatch(String::from_str(key))),
        }
    }

    /// The integer under `key`: `FieldMissing` where the key is absent,
    /// `TypeMismatch` where its value is no integer.
    pub fn get_int(&self, key: &str) -> (found: Result<i64, ReadError>)
        ensures
            match found {
                Ok(number) => self.int_at(key@) == Ok::<i64, ReadErrorView>(number),
                Err(error) => self.int_at(key@) == Err::<i64, ReadErrorView>(error@),
            },
    {
        match self.get(key) {
            None => Err(ReadError::FieldMissing(String::from_str(key))),
            Some(TypedValue::Integer(number)) => Ok(*number),
            Some(_) => Err(ReadError::TypeMismatch(String::from_str(key))),
        }
    }
}

} // verus!
