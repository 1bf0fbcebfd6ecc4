use vstd::prelude::*;
use vstd::string::*;

use crate::document::{Record, Value};
use crate::millis::{
    datetime_millis, int_millis, millis_from_text, text_millis, text_millis_defined,
    text_whole_u32, timestamp_millis, whole_u32_from_text, ToMillis,
};
use crate::millis::{DateTime, DoubleText};
use crate::record::{
    CompletedChallenge, CompletedExam, ExamResults, File, NOption, PartiallyCompletedChallenge, Portfolio, SavedChallenge,
};

verus! {

/// The text held by a field that must be a string.
pub open spec fn required_text(o: Option<Value>) -> Option<String> {
    match o {
        Some(Value::Text(s)) => Some(s),
        _ => None,
    }
}

pub fn required_text_of(d: &Record, key: &str) -> (r: Option<String>)
    ensures
        r == required_text(d.get_spec(key@)),
{
    match d.get(key) {
        Some(Value::Text(s)) => Some(s.clone()),
        _ => None,
    }
}

/// The text of a field that defaults to the empty string when absent or null;
/// `None` when it holds another type.
pub open spec fn text_or_empty(o: Option<Value>) -> Option<Seq<char>> {
    match o {
        None => Some(Seq::empty()),
        Some(Value::Null) => Some(Seq::empty()),
        Some(Value::Text(s)) => Some(s@),
        _ => None,
    }
}

pub fn text_or_empty_of(d: &Record, key: &str) -> (r: Option<String>)
    ensures
        match r {
            Some(s) => text_or_empty(d.get_spec(key@)) == Some(s@),
            None => text_or_empty(d.get_spec(key@)) is None,
        },
{
    match d.get(key) {
        None => Some(String::new()),
        Some(Value::Null) => Some(String::new()),
        Some(Value::Text(s)) => Some(s.clone()),
        _ => None,
    }
}

/// A flag that defaults to `dflt` when absent or null; `None` when it holds
/// another type.
pub open spec fn flag_or(o: Option<Value>, dflt: bool) -> Option<bool> {
    match o {
        None => Some(dflt),
        Some(Value::Null) => Some(dflt),
        Some(Value::Boolean(b)) => Some(b),
        _ => None,
    }
}

pub fn flag_or_of(d: &Record, key: &str, dflt: bool) -> (r: Option<bool>)
    ensures
        r == flag_or(d.get_spec(key@), dflt),
{
    match d.get(key) {
        None => Some(dflt),
        Some(Value::Null) => Some(dflt),
        Some(Value::Boolean(b)) => Some(*b),
        _ => None,
    }
}

/// A nullable text field: absent stays absent, a string is kept, and anything
/// else reads as cleared.
pub open spec fn nullable_text(o: Option<Value>) -> NOption<String> {
    match o {
        None => NOption::Undefined,
        Some(Value::Text(s)) => NOption::Present(s),
        _ => NOption::Null,
    }
}

pub fn nullable_text_of(d: &Record, key: &str) -> (r: NOption<String>)
    ensures
        r == nullable_text(d.get_spec(key@)),
{
    match d.get(key) {
        None => NOption::Undefined,
        Some(Value::Text(s)) => NOption::Present(s.clone()),
        _ => NOption::Null,
    }
}

/// A nullable flag, read as `nullable_text` reads text.
pub open spec fn nullable_flag(o: Option<Value>) -> NOption<bool> {
    match o {
        None => NOption::Undefined,
        Some(Value::Boolean(b)) => NOption::Present(b),
        _ => NOption::Null,
    }
}

pub fn nullable_flag_of(d: &Record, key: &str) -> (r: NOption<bool>)
    ensures
        r == nullable_flag(d.get_spec(key@)),
{
    match d.get(key) {
        None => NOption::Undefined,
        Some(Value::Boolean(b)) => NOption::Present(*b),
        _ => NOption::Null,
    }
}

/// A time value read as canonical epoch milliseconds, trying each stored
/// representation: a date-time, a whole number, a double, a replication
/// timestamp. `None` for any other value, and for a double too large to read.
pub open spec fn value_millis(v: Value) -> Option<nat> {
    match v {
        Value::DateTime(dt) => Some(datetime_millis(dt.millis)),
        Value::Int64(n) => Some(int_millis(n as int)),
        Value::Int32(n) => Some(int_millis(n as int)),
        Value::Double(t) => if text_millis_defined(t.text@) {
            Some(text_millis(t.text@))
        } else {
            None
        },
        Value::Timestamp(ts) => Some(timestamp_millis(ts.time)),
        _ => None,
    }
}

pub fn millis_of_value(v: &Value) -> (r: Option<u64>)
    ensures
        match r {
            Some(m) => value_millis(*v) == Some(m as nat),
            None => value_millis(*v) is None,
        },
{
    match v {
        Value::DateTime(dt) => Some(dt.to_millis()),
        Value::Int64(n) => Some(n.to_millis()),
        Value::Int32(n) => Some(n.to_millis()),
        Value::Double(t) => millis_from_text(t.text.as_str()),
        Value::Timestamp(ts) => Some(ts.to_millis()),
        _ => None,
    }
}

/// A whole number read as `u32` with the casts of its stored representation.
pub open spec fn value_u32(v: Value) -> Option<nat> {
    match v {
        Value::Int32(n) => Some((n as u32) as nat),
        Value::Int64(n) => Some((n as u32) as nat),
        Value::Double(t) => Some(text_whole_u32(t.text@)),
        _ => None,
    }
}

pub fn u32_of_value(v: &Value) -> (r: Option<u32>)
    ensures
        match r {
            Some(n) => value_u32(*v) == Some(n as nat),
            None => value_u32(*v) is None,
        },
{
    match v {
        Value::Int32(n) => Some(*n as u32),
        Value::Int64(n) => Some(*n as u32),
        Value::Double(t) => Some(whole_u32_from_text(t.text.as_str())),
        _ => None,
    }
}

/// Conversion of one element of a stored array to a typed value.
pub trait FromValue: Sized {
    /// Whether `v` converts at all.
    spec fn coercible(v: Value, now: u64) -> bool;

    /// Whether `v` converts to `r`.
    spec fn coerces_to(v: Value, now: u64, r: Self) -> bool;

    fn from_value(v: &Value, now: u64) -> (r: Option<Self>)
        ensures
            match r {
                Some(x) => Self::coercible(*v, now) && Self::coerces_to(*v, now, x),
                None => !Self::coercible(*v, now),
            },
    ;
}

/// `out` holds the converted elements of `s` that convert, in order; the
/// others are left out.
pub open spec fn coerces_all<T: FromValue>(s: Seq<Value>, now: u64, out: Seq<T>) -> bool
    decreases s.len(),
{
    if s.len() == 0 {
        out.len() == 0
    } else if T::coercible(s.last(), now) {
        out.len() > 0 && T::coerces_to(s.last(), now, out.last()) && coerces_all(s.drop_last(), now, out.drop_last())
    } else {
        coerces_all(s.drop_last(), now, out)
    }
}

/// Converts each element of `items`, dropping those that do not convert.
pub fn collect_array<T: FromValue>(items: &Vec<Value>, now: u64) -> (r: Vec<T>)
    ensures
        coerces_all(items@, now, r@),
{
    let mut out: Vec<T> = Vec::new();
    let mut i: usize = 0;
    while i < items.len()
        invariant
            i <= items@.len(),
            coerces_all(items@.take(i as int), now, out@),
        decreases items@.len() - i,
    {
        let ghost before = out@;
        proof {
            assert(items@.take(i + 1).drop_last() =~= items@.take(i as int));
            assert(items@.take(i + 1).last() == items@[i as int]);
        }
        match T::from_value(&items[i], now) {
            Some(x) => {
                out.push(x);
                assert(out@.drop_last() =~= before);
            },
            None => {},
        }
        i = i + 1;
    }
    assert(items@.take(i as int) =~= items@);
    out
}

proof fn lemma_coerces_all_concat<T: FromValue>(
    a: Seq<Value>,
    oa: Seq<T>,
    b: Seq<Value>,
    ob: Seq<T>,
    now: u64,
)
    requires
        coerces_all(a, now, oa),
        coerces_all(b, now, ob),
    ensures
        coerces_all(a + b, now, oa + ob),
    decreases b.len(),
{
    if b.len() == 0 {
        assert(a + b =~= a);
        assert(oa + ob =~= oa);
    } else {
        assert((a + b).drop_last() =~= a + b.drop_last());
        assert((a + b).last() == b.last());
        if T::coercible(b.last(), now) {
            lemma_coerces_all_concat(a, oa, b.drop_last(), ob.drop_last(), now);
            assert((oa + ob).drop_last() =~= oa + ob.drop_last());
            assert((oa + ob).last() == ob.last());
        } else {
            lemma_coerces_all_concat(a, oa, b.drop_last(), ob, now);
        }
    }
}

/// An array element that does not convert is left out of the result, while
/// the elements before and after it convert exactly as they would alone.
pub proof fn lemma_failed_element_omitted<T: FromValue>(
    before: Seq<Value>,
    out_before: Seq<T>,
    bad: Value,
    after: Seq<Value>,
    out_after: Seq<T>,
    now: u64,
)
    requires
        coerces_all(before, now, out_before),
        !T::coercible(bad, now),
        coerces_all(after, now, out_after),
    ensures
        coerces_all(before.push(bad) + after, now, out_before + out_after),
{
    assert(before.push(bad).drop_last() =~= before);
    assert(coerces_all(before.push(bad), now, out_before));
    lemma_coerces_all_concat(before.push(bad), out_before, after, out_after, now);
}

/// Dropping an element that does not convert changes nothing: the array
/// with it converts to exactly the results of the array without it.
pub proof fn lemma_failed_element_irrelevant<T: FromValue>(
    before: Seq<Value>,
    bad: Value,
    after: Seq<Value>,
    now: u64,
    out: Seq<T>,
)
    requires
        !T::coercible(bad, now),
    ensures
        coerces_all(before.push(bad) + after, now, out) <==> coerces_all(before + after, now, out),
    decreases after.len(),
{
    if after.len() == 0 {
        assert(before.push(bad) + after =~= before.push(bad));
        assert(before + after =~= before);
        assert(before.push(bad).drop_last() =~= before);
    } else {
        let with = before.push(bad) + after;
        let without = before + after;
        assert(with.drop_last() =~= before.push(bad) + after.drop_last());
        assert(without.drop_last() =~= before + after.drop_last());
        assert(with.last() == after.last());
        assert(without.last() == after.last());
        lemma_failed_element_irrelevant(before, bad, after.drop_last(), now, out);
        if out.len() > 0 {
            lemma_failed_element_irrelevant(before, bad, after.drop_last(), now, out.drop_last());
        }
    }
}

/// The elements of an array field; an absent or non-array field has none.
pub open spec fn array_items(o: Option<Value>) -> Seq<Value> {
    match o {
        Some(Value::Array(items)) => items@,
        _ => Seq::empty(),
    }
}

pub fn collect_field<T: FromValue>(d: &Record, key: &str, now: u64) -> (r: Vec<T>)
    ensures
        coerces_all(array_items(d.get_spec(key@)), now, r@),
{
    match d.get(key) {
        Some(Value::Array(items)) => collect_array(items, now),
        _ => Vec::new(),
    }
}

impl FromValue for File {
    open spec fn coercible(v: Value, now: u64) -> bool {
        match v {
            Value::Document(d) => {
                &&& d.unrepeated("contents"@)
                &&& d.unrepeated("ext"@)
                &&& d.unrepeated("key"@)
                &&& d.unrepeated("name"@)
                &&& d.unrepeated("path"@)
                &&& required_text(d.get_spec("contents"@)) is Some
                &&& required_text(d.get_spec("ext"@)) is Some
                &&& required_text(d.get_spec("key"@)) is Some
                &&& required_text(d.get_spec("name"@)) is Some
                &&& required_text(d.get_spec("path"@)) is Some
            },
            _ => false,
        }
    }

    open spec fn coerces_to(v: Value, now: u64, r: File) -> bool {
        match v {
            Value::Document(d) => {
                &&& required_text(d.get_spec("contents"@)) == Some(r.contents)
                &&& required_text(d.get_spec("ext"@)) == Some(r.ext)
                &&& required_text(d.get_spec("key"@)) == Some(r.key)
                &&& required_text(d.get_spec("name"@)) == Some(r.name)
                &&& required_text(d.get_spec("path"@)) == Some(r.path)
            },
            _ => false,
        }
    }

    fn from_value(v: &Value, now: u64) -> (r: Option<File>) {
        match v {
            Value::Document(d) => {
                if !(d.is_unrepeated("contents") && d.is_unrepeated("ext") && d.is_unrepeated("key") && d.is_unrepeated("name") && d.is_unrepeated("path")) {
                    return None;
                }
                let contents = match required_text_of(d, "contents") {
                    Some(s) => s,
                    None => return None,
                };
                let ext = match required_text_of(d, "ext") {
                    Some(s) => s,
                    None => return None,
                };
                let key = match required_text_of(d, "key") {
                    Some(s) => s,
                    None => return None,
                };
                let name = match required_text_of(d, "name") {
                    Some(s) => s,
                    None => return None,
                };
                let path = match required_text_of(d, "path") {
                    Some(s) => s,
                    None => return None,
                };
                Some(File { contents, ext, key, name, path })
            },
            _ => None,
        }
    }
}

/// The challenge type of a completed challenge: absent stays absent, a number
/// is cast, and anything else reads as cleared.
pub open spec fn challenge_type_of(o: Option<Value>) -> NOption<u32> {
    match o {
        None => NOption::Undefined,
        Some(v) => match value_u32(v) {
            Some(n) => NOption::Present(n as u32),
            None => NOption::Null,
        },
    }
}

/// A time field read as epoch milliseconds, or `now` when it is absent or
/// holds no readable time.
pub open spec fn millis_or(o: Option<Value>, now: u64) -> nat {
    match o {
        Some(v) => match value_millis(v) {
            Some(m) => m,
            None => now as nat,
        },
        None => now as nat,
    }
}

impl FromValue for CompletedChallenge {
    open spec fn coercible(v: Value, now: u64) -> bool {
        match v {
            Value::Document(d) => {
                &&& d.unrepeated("challengeType"@)
                &&& d.unrepeated("completedDate"@)
                &&& d.unrepeated("examResults"@)
                &&& d.unrepeated("files"@)
                &&& d.unrepeated("githubLink"@)
                &&& d.unrepeated("id"@)
                &&& d.unrepeated("isManuallyApproved"@)
                &&& d.unrepeated("solution"@)
                &&& required_text(d.get_spec("id"@)) is Some
            },
            _ => false,
        }
    }

    open spec fn coerces_to(v: Value, now: u64, r: CompletedChallenge) -> bool {
        match v {
            Value::Document(d) => {
                &&& r.completed_date as nat == millis_or(d.get_spec("completedDate"@), now)
                &&& required_text(d.get_spec("id"@)) == Some(r.id)
                &&& r.challenge_type == challenge_type_of(d.get_spec("challengeType"@))
                &&& coerces_all(array_items(d.get_spec("files"@)), now, r.files@)
                &&& r.github_link == nullable_text(d.get_spec("githubLink"@))
                &&& r.is_manually_approved == nullable_flag(d.get_spec("isManuallyApproved"@))
                &&& r.solution == nullable_text(d.get_spec("solution"@))
            },
            _ => false,
        }
    }

    fn from_value(v: &Value, now: u64) -> (r: Option<CompletedChallenge>) {
        match v {
            Value::Document(d) => {
                if !(d.is_unrepeated("challengeType") && d.is_unrepeated("completedDate") && d.is_unrepeated("examResults") && d.is_unrepeated("files") && d.is_unrepeated("githubLink") && d.is_unrepeated("id") && d.is_unrepeated("isManuallyApproved") && d.is_unrepeated("solution")) {
                    return None;
                }
                let completed_date = match d.get("completedDate") {
                    Some(x) => match millis_of_value(x) {
                        Some(m) => m,
                        None => now,
                    },
                    None => now,
                };
                let id = match required_text_of(d, "id") {
                    Some(s) => s,
                    None => return None,
                };
                let challenge_type = match d.get("challengeType") {
                    None => NOption::Undefined,
                    Some(x) => match u32_of_value(x) {
                        Some(n) => NOption::Present(n),
                        None => NOption::Null,
                    },
                };
                let files = collect_field::<File>(d, "files", now);
                let github_link = nullable_text_of(d, "githubLink");
                let is_manually_approved = nullable_flag_of(d, "isManuallyApproved");
                let solution = nullable_text_of(d, "solution");
                Some(
                    CompletedChallenge {
                        challenge_type,
                        completed_date,
                        files,
                        github_link,
                        id,
                        is_manually_approved,
                        solution,
                    },
                )
            },
            _ => None,
        }
    }
}

impl FromValue for PartiallyCompletedChallenge {
    open spec fn coercible(v: Value, now: u64) -> bool {
        match v {
            Value::Document(d) => {
                &&& d.unrepeated("completedDate"@)
                &&& d.unrepeated("id"@)
                &&& d.get_spec("completedDate"@) is Some
                &&& value_millis(d.get_spec("completedDate"@)->0) is Some
                &&& required_text(d.get_spec("id"@)) is Some
            },
            _ => false,
        }
    }

    open spec fn coerces_to(v: Value, now: u64, r: PartiallyCompletedChallenge) -> bool {
        match v {
            Value::Document(d) => {
                &&& value_millis(d.get_spec("completedDate"@)->0) == Some(r.completed_date as nat)
                &&& required_text(d.get_spec("id"@)) == Some(r.id)
            },
            _ => false,
        }
    }

    fn from_value(v: &Value, now: u64) -> (r: Option<PartiallyCompletedChallenge>) {
        match v {
            Value::Document(d) => {
                if !(d.is_unrepeated("completedDate") && d.is_unrepeated("id")) {
                    return None;
                }
                let completed_date = match d.get("completedDate") {
                    Some(x) => match millis_of_value(x) {
                        Some(m) => m,
                        None => return None,
                    },
                    None => return None,
                };
                let id = match required_text_of(d, "id") {
                    Some(s) => s,
                    None => return None,
                };
                Some(PartiallyCompletedChallenge { completed_date, id })
            },
            _ => None,
        }
    }
}

impl FromValue for SavedChallenge {
    open spec fn coercible(v: Value, now: u64) -> bool {
        match v {
            Value::Document(d) => {
                &&& d.unrepeated("challengeType"@)
                &&& d.unrepeated("files"@)
                &&& d.unrepeated("id"@)
                &&& d.unrepeated("lastSavedDate"@)
                &&& d.get_spec("challengeType"@) is Some
                &&& value_u32(d.get_spec("challengeType"@)->0) is Some
                &&& d.get_spec("lastSavedDate"@) is Some
                &&& value_millis(d.get_spec("lastSavedDate"@)->0) is Some
                &&& required_text(d.get_spec("id"@)) is Some
            },
            _ => false,
        }
    }

    open spec fn coerces_to(v: Value, now: u64, r: SavedChallenge) -> bool {
        match v {
            Value::Document(d) => {
                &&& value_u32(d.get_spec("challengeType"@)->0) == Some(r.challenge_type as nat)
                &&& value_millis(d.get_spec("lastSavedDate"@)->0) == Some(
                    r.last_saved_date as nat,
                )
                &&& required_text(d.get_spec("id"@)) == Some(r.id)
                &&& coerces_all(array_items(d.get_spec("files"@)), now, r.files@)
            },
            _ => false,
        }
    }

    fn from_value(v: &Value, now: u64) -> (r: Option<SavedChallenge>) {
        match v {
            Value::Document(d) => {
                if !(d.is_unrepeated("challengeType") && d.is_unrepeated("files") && d.is_unrepeated("id") && d.is_unrepeated("lastSavedDate")) {
                    return None;
                }
                let challenge_type = match d.get("challengeType") {
                    Some(x) => match u32_of_value(x) {
                        Some(n) => n,
                        None => return None,
                    },
                    None => return None,
                };
                let last_saved_date = match d.get("lastSavedDate") {
                    Some(x) => match millis_of_value(x) {
                        Some(m) => m,
                        None => return None,
                    },
                    None => return None,
                };
                let id = match required_text_of(d, "id") {
                    Some(s) => s,
                    None => return None,
                };
                let files = collect_field::<File>(d, "files", now);
                Some(SavedChallenge { challenge_type, files, id, last_saved_date })
            },
            _ => None,
        }
    }
}

impl FromValue for Portfolio {
    open spec fn coercible(v: Value, now: u64) -> bool {
        match v {
            Value::Document(d) => {
                &&& d.unrepeated("description"@)
                &&& d.unrepeated("id"@)
                &&& d.unrepeated("image"@)
                &&& d.unrepeated("title"@)
                &&& d.unrepeated("url"@)
                &&& required_text(d.get_spec("id"@)) is Some
                &&& text_or_empty(d.get_spec("description"@)) is Some
                &&& text_or_empty(d.get_spec("image"@)) is Some
                &&& text_or_empty(d.get_spec("title"@)) is Some
                &&& text_or_empty(d.get_spec("url"@)) is Some
            },
            _ => false,
        }
    }

    open spec fn coerces_to(v: Value, now: u64, r: Portfolio) -> bool {
        match v {
            Value::Document(d) => {
                &&& required_text(d.get_spec("id"@)) == Some(r.id)
                &&& text_or_empty(d.get_spec("description"@)) == Some(r.description@)
                &&& text_or_empty(d.get_spec("image"@)) == Some(r.image@)
                &&& text_or_empty(d.get_spec("title"@)) == Some(r.title@)
                &&& text_or_empty(d.get_spec("url"@)) == Some(r.url@)
            },
            _ => false,
        }
    }

    fn from_value(v: &Value, now: u64) -> (r: Option<Portfolio>) {
        match v {
            Value::Document(d) => {
                if !(d.is_unrepeated("description") && d.is_unrepeated("id") && d.is_unrepeated("image") && d.is_unrepeated("title") && d.is_unrepeated("url")) {
                    return None;
                }
                let id = match required_text_of(d, "id") {
                    Some(s) => s,
                    None => return None,
                };
                let description = match text_or_empty_of(d, "description") {
                    Some(s) => s,
                    None => return None,
                };
                let image = match text_or_empty_of(d, "image") {
                    Some(s) => s,
                    None => return None,
                };
                let title = match text_or_empty_of(d, "title") {
                    Some(s) => s,
                    None => return None,
                };
                let url = match text_or_empty_of(d, "url") {
                    Some(s) => s,
                    None => return None,
                };
                Some(Portfolio { description, id, image, title, url })
            },
            _ => None,
        }
    }
}

impl FromValue for u64 {
    open spec fn coercible(v: Value, now: u64) -> bool {
        value_millis(v) is Some
    }

    open spec fn coerces_to(v: Value, now: u64, r: u64) -> bool {
        value_millis(v) == Some(r as nat)
    }

    fn from_value(v: &Value, now: u64) -> (r: Option<u64>) {
        millis_of_value(v)
    }
}

/// The rendering of a field that must hold a double.
pub open spec fn double_text(o: Option<Value>) -> Option<Seq<char>> {
    match o {
        Some(Value::Double(t)) => Some(t.text@),
        _ => None,
    }
}

fn double_text_of(d: &Record, key: &str) -> (r: Option<DoubleText>)
    ensures
        match r {
            Some(t) => double_text(d.get_spec(key@)) == Some(t.text@),
            None => double_text(d.get_spec(key@)) is None,
        },
{
    match d.get(key) {
        Some(Value::Double(t)) => Some(DoubleText { text: t.text.clone() }),
        _ => None,
    }
}

/// A number field read as `u32`; `None` when absent or not a number.
pub open spec fn required_u32(o: Option<Value>) -> Option<nat> {
    match o {
        Some(v) => value_u32(v),
        None => None,
    }
}

fn required_u32_of(d: &Record, key: &str) -> (r: Option<u32>)
    ensures
        match r {
            Some(n) => required_u32(d.get_spec(key@)) == Some(n as nat),
            None => required_u32(d.get_spec(key@)) is None,
        },
{
    match d.get(key) {
        Some(v) => u32_of_value(v),
        None => None,
    }
}

/// A time field read as epoch milliseconds; `None` when absent or unreadable.
pub open spec fn required_millis(o: Option<Value>) -> Option<nat> {
    match o {
        Some(v) => value_millis(v),
        None => None,
    }
}

fn required_millis_of(d: &Record, key: &str) -> (r: Option<u64>)
    ensures
        match r {
            Some(n) => required_millis(d.get_spec(key@)) == Some(n as nat),
            None => required_millis(d.get_spec(key@)) is None,
        },
{
    match d.get(key) {
        Some(v) => millis_of_value(v),
        None => None,
    }
}

/// The exam scores that a sub-document holds, when every score is present
/// with its type.
pub open spec fn exam_results_match(o: Option<Value>, e: ExamResults) -> bool {
    o matches Some(Value::Document(er)) && {
        &&& required_u32(er.get_spec("examTimeInSeconds"@)) == Some(e.exam_time_in_seconds as nat)
        &&& required_u32(er.get_spec("numberOfCorrectAnswers"@)) == Some(
            e.number_of_correct_answers as nat,
        )
        &&& required_u32(er.get_spec("numberOfQuestionsInExam"@)) == Some(
            e.number_of_questions_in_exam as nat,
        )
        &&& er.get_spec("passed"@) == Some(Value::Boolean(e.passed))
        &&& double_text(er.get_spec("passingPercent"@)) == Some(e.passing_percent.text@)
        &&& double_text(er.get_spec("percentCorrect"@)) == Some(e.percent_correct.text@)
    }
}

pub open spec fn exam_results_readable(o: Option<Value>) -> bool {
    o matches Some(Value::Document(er)) && {
        &&& required_u32(er.get_spec("examTimeInSeconds"@)) is Some
        &&& required_u32(er.get_spec("numberOfCorrectAnswers"@)) is Some
        &&& required_u32(er.get_spec("numberOfQuestionsInExam"@)) is Some
        &&& er.get_spec("passed"@) is Some
        &&& er.get_spec("passed"@)->0 is Boolean
        &&& double_text(er.get_spec("passingPercent"@)) is Some
        &&& double_text(er.get_spec("percentCorrect"@)) is Some
    }
}

fn exam_results_of(d: &Record) -> (r: Option<ExamResults>)
    ensures
        match r {
            Some(e) => exam_results_readable(d.get_spec("examResults"@)) && exam_results_match(
                d.get_spec("examResults"@),
                e,
            ),
            None => !exam_results_readable(d.get_spec("examResults"@)),
        },
{
    let er = match d.get("examResults") {
        Some(Value::Document(er)) => er,
        _ => return None,
    };
    let exam_time_in_seconds = match required_u32_of(er, "examTimeInSeconds") {
        Some(n) => n,
        None => return None,
    };
    let number_of_correct_answers = match required_u32_of(er, "numberOfCorrectAnswers") {
        Some(n) => n,
        None => return None,
    };
    let number_of_questions_in_exam = match required_u32_of(er, "numberOfQuestionsInExam") {
        Some(n) => n,
        None => return None,
    };
    let passed = match er.get("passed") {
        Some(Value::Boolean(b)) => *b,
        _ => return None,
    };
    let passing_percent = match double_text_of(er, "passingPercent") {
        Some(t) => t,
        None => return None,
    };
    let percent_correct = match double_text_of(er, "percentCorrect") {
        Some(t) => t,
        None => return None,
    };
    Some(
        ExamResults {
            exam_time_in_seconds,
            number_of_correct_answers,
            number_of_questions_in_exam,
            passed,
            passing_percent,
            percent_correct,
        },
    )
}

impl FromValue for CompletedExam {
    open spec fn coercible(v: Value, now: u64) -> bool {
        match v {
            Value::Document(d) => {
                &&& d.unrepeated("challengeType"@)
                &&& d.unrepeated("completedDate"@)
                &&& d.unrepeated("examResults"@)
                &&& d.unrepeated("id"@)
                &&& required_u32(d.get_spec("challengeType"@)) is Some
                &&& required_millis(d.get_spec("completedDate"@)) is Some
                &&& required_text(d.get_spec("id"@)) is Some
                &&& exam_results_readable(d.get_spec("examResults"@))
            },
            _ => false,
        }
    }

    open spec fn coerces_to(v: Value, now: u64, r: CompletedExam) -> bool {
        match v {
            Value::Document(d) => {
                &&& required_u32(d.get_spec("challengeType"@)) == Some(r.challenge_type as nat)
                &&& required_millis(d.get_spec("completedDate"@)) == Some(r.completed_date as nat)
                &&& required_text(d.get_spec("id"@)) == Some(r.id)
                &&& exam_results_match(d.get_spec("examResults"@), r.exam_results)
            },
            _ => false,
        }
    }

    fn from_value(v: &Value, now: u64) -> (r: Option<CompletedExam>) {
        match v {
            Value::Document(d) => {
                if !(d.is_unrepeated("challengeType") && d.is_unrepeated("completedDate") && d.is_unrepeated("examResults") && d.is_unrepeated("id")) {
                    return None;
                }
                let challenge_type = match required_u32_of(d, "challengeType") {
                    Some(n) => n,
                    None => return None,
                };
                let completed_date = match required_millis_of(d, "completedDate") {
                    Some(m) => m,
                    None => return None,
                };
                let id = match required_text_of(d, "id") {
                    Some(s) => s,
                    None => return None,
                };
                let exam_results = match exam_results_of(d) {
                    Some(e) => e,
                    None => return None,
                };
                Some(CompletedExam { challenge_type, completed_date, exam_results, id })
            },
            _ => None,
        }
    }
}

impl FromValue for String {
    open spec fn coercible(v: Value, now: u64) -> bool {
        v is Text
    }

    open spec fn coerces_to(v: Value, now: u64, r: String) -> bool {
        v == Value::Text(r)
    }

    fn from_value(v: &Value, now: u64) -> (r: Option<String>) {
        match v {
            Value::Text(s) => Some(s.clone()),
            _ => None,
        }
    }
}

impl FromValue for u32 {
    open spec fn coercible(v: Value, now: u64) -> bool {
        value_u32(v) is Some
    }

    open spec fn coerces_to(v: Value, now: u64, r: u32) -> bool {
        value_u32(v) == Some(r as nat)
    }

    fn from_value(v: &Value, now: u64) -> (r: Option<u32>) {
        u32_of_value(v)
    }
}

/// A nullable date-time: absent stays absent, a date-time is kept, and
/// anything else reads as cleared.
pub open spec fn nullable_datetime(o: Option<Value>) -> NOption<DateTime> {
    match o {
        None => NOption::Undefined,
        Some(Value::DateTime(d)) => NOption::Present(d),
        _ => NOption::Null,
    }
}

pub fn nullable_datetime_of(d: &Record, key: &str) -> (r: NOption<DateTime>)
    ensures
        r == nullable_datetime(d.get_spec(key@)),
{
    match d.get(key) {
        None => NOption::Undefined,
        Some(Value::DateTime(t)) => NOption::Present(*t),
        _ => NOption::Null,
    }
}

/// The rendering of a double field that reads as 0 when absent or null;
/// `None` when it holds another type.
pub open spec fn double_or_zero(o: Option<Value>) -> Option<Seq<char>> {
    match o {
        None => Some(seq!['0']),
        Some(Value::Null) => Some(seq!['0']),
        Some(Value::Double(t)) => Some(t.text@),
        _ => None,
    }
}

pub fn double_or_zero_of(d: &Record, key: &str) -> (r: Option<DoubleText>)
    ensures
        match r {
            Some(t) => double_or_zero(d.get_spec(key@)) == Some(t.text@),
            None => double_or_zero(d.get_spec(key@)) is None,
        },
{
    match d.get(key) {
        None | Some(Value::Null) => {
            let zero = String::from_str("0");
            proof {
                reveal_strlit("0");
            }
            assert(zero@ =~= seq!['0']);
            Some(DoubleText { text: zero })
        },
        Some(Value::Double(t)) => Some(DoubleText { text: t.text.clone() }),
        _ => None,
    }
}

} // verus!
