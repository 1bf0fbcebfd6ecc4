use vstd::prelude::*;
use vstd::string::*;

use crate::document::{Record, Value};
use crate::hex::{upper_hex, upper_hex_of};

verus! {

/// Relies on rand's `random`: a value drawn from the thread's generator.
/// Nothing is known of which value it is.
pub assume_specification<T>[ rand::random::<T> ]() -> (r: T)
    where
        rand::distributions::Standard: rand::distributions::Distribution<T>,
;

/// Writes gathered per bulk insert when seeding.
pub const SEED_BATCH: usize = 500;

/// The user name, and unsubscribe id, of the copy seeded with `n`.
pub open spec fn seed_name(n: u64) -> Seq<char> {
    "fcc_"@ + upper_hex(n as nat)
}

/// The contact address of the copy seeded with `n`.
pub open spec fn seed_email(n: u64) -> Seq<char> {
    seed_name(n) + "@gmail.com"@
}

/// `r` is `doc` without identity, with the contact address, user name and
/// unsubscribe id made unique by `n`; its other fields are those of `doc`.
pub open spec fn seeded_copy(doc: Record, n: u64, r: Record) -> bool {
    &&& r.get_spec("_id"@) is None
    &&& r.get_spec("email"@) matches Some(Value::Text(s)) && s@ == seed_email(n)
    &&& r.get_spec("username"@) matches Some(Value::Text(s)) && s@ == seed_name(n)
    &&& r.get_spec("unsubscribeId"@) matches Some(Value::Text(s)) && s@ == seed_name(n)
    &&& forall|k: Seq<char>|
        k != "_id"@ && k != "email"@ && k != "username"@ && k != "unsubscribeId"@
            ==> #[trigger] r.get_spec(k) == doc.get_spec(k)
}

/// A copy of a user record for seeding a test collection, made unique by `n`.
pub fn seed_copy(doc: Record, n: u64) -> (r: Record)
    ensures
        seeded_copy(doc, n, r),
{
    proof {
        reveal_strlit("_id");
        reveal_strlit("email");
        reveal_strlit("username");
        reveal_strlit("unsubscribeId");
    }
    let ghost start = doc;
    let mut r = doc;
    let h = upper_hex_of(n);
    let mut name = String::from_str("fcc_");
    name.append(h.as_str());
    let mut email = name.clone();
    email.append("@gmail.com");
    let unsubscribe_id = name.clone();
    r.remove("_id");
    let ghost a = r;
    r.insert(String::from_str("email"), Value::Text(email));
    let ghost b = r;
    r.insert(String::from_str("username"), Value::Text(name));
    let ghost c = r;
    r.insert(String::from_str("unsubscribeId"), Value::Text(unsubscribe_id));
    proof {
        assert("_id"@.len() == 3 && "email"@.len() == 5 && "username"@.len() == 8
            && "unsubscribeId"@.len() == 13);
        assert("_id"@ != "email"@ && "_id"@ != "username"@ && "_id"@ != "unsubscribeId"@);
        assert("email"@ != "username"@ && "email"@ != "unsubscribeId"@);
        assert("username"@ != "unsubscribeId"@);
        assert(r.get_spec("_id"@) == c.get_spec("_id"@));
        assert(c.get_spec("_id"@) == b.get_spec("_id"@));
        assert(b.get_spec("_id"@) == a.get_spec("_id"@));
        assert(r.get_spec("email"@) == c.get_spec("email"@));
        assert(c.get_spec("email"@) == b.get_spec("email"@));
        assert(r.get_spec("username"@) == c.get_spec("username"@));
        assert forall|k: Seq<char>|
            k != "_id"@ && k != "email"@ && k != "username"@ && k != "unsubscribeId"@
                implies #[trigger] r.get_spec(k) == start.get_spec(k) by {
            assert(r.get_spec(k) == c.get_spec(k));
            assert(c.get_spec(k) == b.get_spec(k));
            assert(b.get_spec(k) == a.get_spec(k));
            assert(a.get_spec(k) == start.get_spec(k));
        }
    }
    r
}

/// A copy of a user record made unique by a random number.
pub fn seed_duplicate(doc: Record) -> (r: Record)
    ensures
        exists|n: u64| seeded_copy(doc, n, r),
{
    let n: u64 = rand::random::<u64>();
    seed_copy(doc, n)
}

/// Copies gathered for one bulk insert.
pub struct SeedBatch {
    pub docs: Vec<Record>,
}

impl SeedBatch {
    pub fn new() -> (r: SeedBatch)
        ensures
            r.docs@.len() == 0,
    {
        SeedBatch { docs: Vec::new() }
    }

    /// Adds a copy; hands out the gathered copies once there are `SEED_BATCH`.
    pub fn add(&mut self, doc: Record) -> (r: Option<Vec<Record>>)
        requires
            old(self).docs@.len() < SEED_BATCH,
        ensures
            final(self).docs@.len() < SEED_BATCH,
            old(self).docs@.len() + 1 == SEED_BATCH ==> final(self).docs@.len() == 0 && (r matches Some(
                b,
            ) && b@ == old(self).docs@.push(doc)),
            old(self).docs@.len() + 1 < SEED_BATCH ==> r is None && final(self).docs@ == old(
                self,
            ).docs@.push(doc),
    {
        self.docs.push(doc);
        if self.docs.len() == SEED_BATCH {
            let mut out = Vec::new();
            core::mem::swap(&mut out, &mut self.docs);
            Some(out)
        } else {
            None
        }
    }

    /// Hands out what is left once the source is exhausted.
    pub fn drain(&mut self) -> (r: Option<Vec<Record>>)
        ensures
            final(self).docs@.len() == 0,
            r matches Some(b) ==> b@ == old(self).docs@ && b@.len() > 0,
            r is None ==> old(self).docs@.len() == 0,
    {
        let mut out = Vec::new();
        core::mem::swap(&mut out, &mut self.docs);
        if out.len() > 0 {
            Some(out)
        } else {
            None
        }
    }
}

} // verus!
