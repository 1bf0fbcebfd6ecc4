use vstd::prelude::*;
use vstd::string::*;

use crate::millis::{DateTime, DoubleText, Timestamp};

verus! {

/// The twelve-byte primary key that the store gives each document.
#[derive(Clone, Copy, Debug, PartialEq, Eq)]
pub struct ObjectId {
    pub bytes: [u8; 12],
}

/// One stored value of a schema-less document.
#[derive(Debug)]
pub enum Value {
    Null,
    Boolean(bool),
    Int32(i32),
    Int64(i64),
    Double(DoubleText),
    Text(String),
    DateTime(DateTime),
    Timestamp(Timestamp),
    ObjectId(ObjectId),
    Array(Vec<Value>),
    Document(Record),
    /// A representation that no field of the schema accepts (binary, regex, ...).
    Other,
}

#[derive(Debug)]
pub struct Field {
    pub key: String,
    pub value: Value,
}

/// A schema-less document: its fields in stored order.
#[derive(Debug)]
pub struct Record {
    pub fields: Vec<Field>,
}

/// Index of the first field named `key`, or -1.
pub open spec fn key_index(fields: Seq<Field>, key: Seq<char>) -> int
    decreases fields.len(),
{
    if fields.len() == 0 {
        -1
    } else {
        let i = key_index(fields.drop_last(), key);
        if i >= 0 {
            i
        } else if fields.last().key@ == key {
            fields.len() - 1
        } else {
            -1
        }
    }
}

proof fn lemma_key_index_range(fields: Seq<Field>, key: Seq<char>)
    ensures
        -1 <= key_index(fields, key) < fields.len(),
        key_index(fields, key) >= 0 ==> fields[key_index(fields, key)].key@ == key,
    decreases fields.len(),
{
    if fields.len() > 0 {
        lemma_key_index_range(fields.drop_last(), key);
    }
}

proof fn lemma_key_index_prefix(fields: Seq<Field>, key: Seq<char>, j: int, k: int)
    requires
        0 <= j <= k <= fields.len(),
        key_index(fields.take(j), key) >= 0,
    ensures
        key_index(fields.take(k), key) == key_index(fields.take(j), key),
    decreases k - j,
{
    if j < k {
        lemma_key_index_prefix(fields, key, j, k - 1);
        assert(fields.take(k).drop_last() =~= fields.take(k - 1));
    }
}

/// The value of the first field of `fields` named `key`.
pub open spec fn seq_get(fields: Seq<Field>, key: Seq<char>) -> Option<Value> {
    let i = key_index(fields, key);
    if 0 <= i < fields.len() {
        Some(fields[i].value)
    } else {
        None
    }
}

proof fn lemma_seq_get_push(fields: Seq<Field>, f: Field, key: Seq<char>)
    ensures
        seq_get(fields.push(f), key) == if seq_get(fields, key) is Some {
            seq_get(fields, key)
        } else if f.key@ == key {
            Some(f.value)
        } else {
            None
        },
{
    let s = fields.push(f);
    assert(s.drop_last() =~= fields);
    lemma_key_index_range(fields, key);
    lemma_key_index_range(s, key);
    if key_index(fields, key) >= 0 {
        assert(s[key_index(fields, key)] == fields[key_index(fields, key)]);
    }
}

/// How many fields of `fields` are named `key`.
pub open spec fn key_count(fields: Seq<Field>, key: Seq<char>) -> nat
    decreases fields.len(),
{
    if fields.len() == 0 {
        0
    } else {
        key_count(fields.drop_last(), key) + if fields.last().key@ == key {
            1nat
        } else {
            0nat
        }
    }
}

proof fn lemma_key_count_prefix(fields: Seq<Field>, key: Seq<char>, j: int, k: int)
    requires
        0 <= j <= k <= fields.len(),
    ensures
        key_count(fields.take(j), key) <= key_count(fields.take(k), key),
    decreases k - j,
{
    if j < k {
        lemma_key_count_prefix(fields, key, j, k - 1);
        assert(fields.take(k).drop_last() =~= fields.take(k - 1));
    }
}

impl Record {
    /// No two fields are named `key`.
    pub open spec fn unrepeated(&self, key: Seq<char>) -> bool {
        key_count(self.fields@, key) <= 1
    }

    /// Whether at most one field is named `key`.
    pub fn is_unrepeated(&self, key: &str) -> (r: bool)
        ensures
            r == self.unrepeated(key@),
    {
        let k = String::from_str(key);
        let mut count: usize = 0;
        let mut i: usize = 0;
        while i < self.fields.len()
            invariant
                k@ == key@,
                i <= self.fields@.len(),
                count <= 1,
                count == key_count(self.fields@.take(i as int), key@),
            decreases self.fields@.len() - i,
        {
            proof {
                assert(self.fields@.take(i + 1).drop_last() =~= self.fields@.take(i as int));
                assert(self.fields@.take(i + 1).last() == self.fields@[i as int]);
            }
            if self.fields[i].key == k {
                if count == 1 {
                    proof {
                        assert(self.fields@.take(i + 1).last() == self.fields@[i as int]);
                        assert(key_count(self.fields@.take(i + 1), key@) == 2);
                        lemma_key_count_prefix(self.fields@, key@, i + 1, self.fields@.len() as int);
                        assert(self.fields@.take(self.fields@.len() as int) =~= self.fields@);
                    }
                    return false;
                }
                count = count + 1;
            }
            i = i + 1;
        }
        assert(self.fields@.take(i as int) =~= self.fields@);
        true
    }

    pub open spec fn index_of(&self, key: Seq<char>) -> int {
        key_index(self.fields@, key)
    }

    /// The value of the first field named `key`.
    pub open spec fn get_spec(&self, key: Seq<char>) -> Option<Value> {
        seq_get(self.fields@, key)
    }

    /// Removes every field named `key`.
    pub fn remove(&mut self, key: &str)
        ensures
            forall|k: Seq<char>| #[trigger] final(self).get_spec(k) == if k == key@ {
                None
            } else {
                old(self).get_spec(k)
            },
    {
        let k = String::from_str(key);
        let mut rest: Vec<Field> = Vec::new();
        core::mem::swap(&mut rest, &mut self.fields);
        let ghost orig = rest@;
        let ghost mut i: int = 0;
        assert(orig.take(0) =~= Seq::<Field>::empty());
        while rest.len() > 0
            invariant
                k@ == key@,
                0 <= i <= orig.len(),
                rest@ == orig.skip(i),
                forall|q: Seq<char>| #[trigger] seq_get(self.fields@, q) == if q == key@ {
                    None
                } else {
                    seq_get(orig.take(i), q)
                },
            decreases rest@.len(),
        {
            let f = rest.remove(0);
            let ghost before = self.fields@;
            proof {
                assert(f == orig[i]);
                assert(orig.take(i + 1) =~= orig.take(i).push(f));
            }
            let keep = !(f.key == k);
            let ghost gf = f;
            if keep {
                self.fields.push(f);
            }
            proof {
                assert forall|q: Seq<char>| #[trigger] seq_get(self.fields@, q) == if q == key@ {
                    None
                } else {
                    seq_get(orig.take(i + 1), q)
                } by {
                    lemma_seq_get_push(orig.take(i), gf, q);
                    if keep {
                        lemma_seq_get_push(before, gf, q);
                    }
                }
                i = i + 1;
                assert(rest@ =~= orig.skip(i));
            }
        }
        proof {
            assert(orig.take(i) =~= orig);
        }
    }

    /// Sets the field `key` to `value`, replacing any field of that name.
    pub fn insert(&mut self, key: String, value: Value)
        ensures
            final(self).get_spec(key@) == Some(value),
            forall|k: Seq<char>| k != key@ ==> #[trigger] final(self).get_spec(k) == old(self).get_spec(k),
    {
        let ghost gk = key@;
        let ghost start = *self;
        self.remove(key.as_str());
        let ghost mid = *self;
        let ghost before = self.fields@;
        assert(mid.get_spec(gk) is None);
        let f = Field { key, value };
        let ghost gf = f;
        self.fields.push(f);
        proof {
            lemma_seq_get_push(before, gf, gk);
            assert forall|k: Seq<char>| k != gk implies #[trigger] self.get_spec(k) == start.get_spec(k) by {
                lemma_seq_get_push(before, gf, k);
                assert(mid.get_spec(k) == start.get_spec(k));
            }
        }
    }

    pub fn new() -> (r: Record)
        ensures
            r.fields@.len() == 0,
    {
        Record { fields: Vec::new() }
    }

    /// Finds the first field named `key`.
    pub fn find(&self, key: &str) -> (r: Option<usize>)
        ensures
            match r {
                Some(i) => i == self.index_of(key@) && i < self.fields@.len()
                    && self.fields@[i as int].key@ == key@,
                None => self.index_of(key@) == -1,
            },
    {
        let k = String::from_str(key);
        let mut i: usize = 0;
        while i < self.fields.len()
            invariant
                k@ == key@,
                i <= self.fields@.len(),
                key_index(self.fields@.take(i as int), key@) == -1,
            decreases self.fields@.len() - i,
        {
            proof {
                assert(self.fields@.take(i + 1).drop_last() =~= self.fields@.take(i as int));
            }
            if self.fields[i].key == k {
                proof {
                    lemma_key_index_prefix(self.fields@, key@, i + 1, self.fields@.len() as int);
                    assert(self.fields@.take(self.fields@.len() as int) =~= self.fields@);
                }
                return Some(i);
            }
            i = i + 1;
        }
        assert(self.fields@.take(i as int) =~= self.fields@);
        None
    }

    /// The value of the first field named `key`.
    pub fn get(&self, key: &str) -> (r: Option<&Value>)
        ensures
            match r {
                Some(v) => self.get_spec(key@) == Some(*v),
                None => self.get_spec(key@) is None,
            },
    {
        proof {
            lemma_key_index_range(self.fields@, key@);
        }
        match self.find(key) {
            Some(i) => Some(&self.fields[i].value),
            None => None,
        }
    }

    /// The identity of the document: its `_id` field when that holds an ObjectId.
    pub open spec fn identity_spec(&self) -> Option<ObjectId> {
        match self.get_spec("_id"@) {
            Some(Value::ObjectId(id)) => Some(id),
            _ => None,
        }
    }

    pub fn identity(&self) -> (r: Option<ObjectId>)
        ensures
            r == self.identity_spec(),
    {
        match self.get("_id") {
            Some(Value::ObjectId(id)) => Some(*id),
            _ => None,
        }
    }
}

} // verus!
