use vstd::prelude::*;
use vstd::string::*;

verus! {

/// Lower bound (inclusive) of the values whose decimal rendering has ten digits.
pub const TEN_DIGIT_LOW: u64 = 1_000_000_000;

/// Upper bound (exclusive) of the values whose decimal rendering has ten digits.
pub const TEN_DIGIT_HIGH: u64 = 10_000_000_000;

pub open spec fn is_digit(c: char) -> bool {
    '0' <= c && c <= '9'
}

pub open spec fn digit_value(c: char) -> nat {
    (c as nat - '0' as nat) as nat
}

pub open spec fn all_digits(s: Seq<char>) -> bool {
    forall|i: int| 0 <= i < s.len() ==> #[trigger] is_digit(s[i])
}

/// The number that a string of decimal digits denotes.
pub open spec fn digits_value(s: Seq<char>) -> nat
    decreases s.len(),
{
    if s.len() == 0 {
        0
    } else {
        digits_value(s.drop_last()) * 10 + digit_value(s.last())
    }
}

pub open spec fn digit_char(d: nat) -> char {
    ((d + '0' as nat) as u32) as char
}

/// The decimal rendering of a natural number, without leading zeros.
pub open spec fn decimal(n: nat) -> Seq<char>
    decreases n,
{
    if n < 10 {
        seq![digit_char(n)]
    } else {
        decimal(n / 10).push(digit_char(n % 10))
    }
}

/// Index of the first `.` of `s`, or its length when it has none.
pub open spec fn first_dot(s: Seq<char>) -> nat
    decreases s.len(),
{
    if s.len() == 0 {
        0
    } else if s[0] == '.' {
        0
    } else {
        1 + first_dot(s.drop_first())
    }
}

/// What precedes the decimal point of a rendered number.
pub open spec fn integer_part(s: Seq<char>) -> Seq<char> {
    s.take(first_dot(s) as int)
}

/// A whole number of ten digits is read as seconds, any other as milliseconds.
pub open spec fn scale_seconds(n: nat) -> nat {
    if TEN_DIGIT_LOW <= n < TEN_DIGIT_HIGH {
        n * 1000
    } else {
        n
    }
}

/// Milliseconds read from the decimal rendering of a number: the fraction is
/// cut off, and an integer part that is empty or holds anything but digits
/// (a sign, `NaN`, `inf`) gives 0.
pub open spec fn text_millis(s: Seq<char>) -> nat {
    let p = integer_part(s);
    if p.len() == 0 || !all_digits(p) {
        0
    } else if p.len() == 10 {
        digits_value(p) * 1000
    } else {
        digits_value(p)
    }
}

/// The integer part of the rendering fits in a `u64`.
pub open spec fn text_millis_defined(s: Seq<char>) -> bool {
    all_digits(integer_part(s)) ==> digits_value(integer_part(s)) <= u64::MAX
}

/// Milliseconds read from a whole number: negative numbers give 0.
pub open spec fn int_millis(n: int) -> nat {
    if n < 0 {
        0
    } else {
        scale_seconds(n as nat)
    }
}

/// Milliseconds read from a date-time's millisecond count: the count is taken
/// as unsigned, and one below ten billion is read as seconds.
pub open spec fn datetime_millis(millis: i64) -> nat {
    let m = (millis as u64) as nat;
    if m < TEN_DIGIT_HIGH {
        m * 1000
    } else {
        m
    }
}

/// Milliseconds read from a replication timestamp, whose time is always in
/// seconds.
pub open spec fn timestamp_millis(time: u32) -> nat {
    time as nat * 1000
}

/// A point in time as a signed count of milliseconds since the Unix epoch.
#[derive(Clone, Copy, Debug, PartialEq, Eq)]
pub struct DateTime {
    pub millis: i64,
}

impl DateTime {
    pub fn from_millis(millis: i64) -> (r: DateTime)
        ensures
            r.millis == millis,
    {
        DateTime { millis }
    }

    pub fn timestamp_millis(&self) -> (r: i64)
        ensures
            r == self.millis,
    {
        self.millis
    }
}

/// A replication timestamp: seconds since the epoch and an ordinal.
#[derive(Clone, Copy, Debug, PartialEq, Eq)]
pub struct Timestamp {
    pub time: u32,
    pub increment: u32,
}

/// A double-precision number held as its decimal rendering.
#[derive(Clone, Debug, PartialEq, Eq)]
pub struct DoubleText {
    pub text: String,
}

impl DoubleText {
    pub fn new(text: String) -> (r: DoubleText)
        ensures
            r.text@ == text@,
    {
        DoubleText { text }
    }
}

/// Conversion of a stored time value to a canonical millisecond epoch.
pub trait ToMillis {
    spec fn millis_defined(&self) -> bool;

    spec fn millis_value(&self) -> nat;

    fn to_millis(&self) -> (r: u64)
        requires
            self.millis_defined(),
        ensures
            r as nat == self.millis_value(),
    ;
}

fn scale_seconds_u64(n: u64) -> (r: u64)
    ensures
        r as nat == scale_seconds(n as nat),
{
    if TEN_DIGIT_LOW <= n && n < TEN_DIGIT_HIGH {
        n * 1000
    } else {
        n
    }
}

impl ToMillis for i64 {
    open spec fn millis_defined(&self) -> bool {
        true
    }

    open spec fn millis_value(&self) -> nat {
        int_millis(*self as int)
    }

    fn to_millis(&self) -> (r: u64) {
        assert(self.millis_value() == int_millis(*self as int));
        if *self < 0 {
            0
        } else {
            scale_seconds_u64(*self as u64)
        }
    }
}

impl ToMillis for u64 {
    open spec fn millis_defined(&self) -> bool {
        true
    }

    open spec fn millis_value(&self) -> nat {
        int_millis(*self as int)
    }

    fn to_millis(&self) -> (r: u64) {
        assert(self.millis_value() == int_millis(*self as int));
        scale_seconds_u64(*self)
    }
}

impl ToMillis for i32 {
    open spec fn millis_defined(&self) -> bool {
        true
    }

    open spec fn millis_value(&self) -> nat {
        int_millis(*self as int)
    }

    fn to_millis(&self) -> (r: u64) {
        assert(self.millis_value() == int_millis(*self as int));
        if *self < 0 {
            0
        } else {
            scale_seconds_u64(*self as u64)
        }
    }
}

impl ToMillis for DateTime {
    open spec fn millis_defined(&self) -> bool {
        true
    }

    open spec fn millis_value(&self) -> nat {
        datetime_millis(self.millis)
    }

    fn to_millis(&self) -> (r: u64) {
        assert(self.millis_value() == datetime_millis(self.millis));
        let m = #[verifier::truncate] (self.millis as u64);
        if m < TEN_DIGIT_HIGH {
            m * 1000
        } else {
            m
        }
    }
}

impl ToMillis for Timestamp {
    open spec fn millis_defined(&self) -> bool {
        true
    }

    open spec fn millis_value(&self) -> nat {
        timestamp_millis(self.time)
    }

    fn to_millis(&self) -> (r: u64) {
        assert(self.millis_value() == timestamp_millis(self.time));
        (self.time as u64) * 1000
    }
}

proof fn lemma_first_dot(s: Seq<char>, e: int)
    requires
        0 <= e <= s.len(),
        forall|j: int| 0 <= j < e ==> s[j] != '.',
        e == s.len() || s[e] == '.',
    ensures
        first_dot(s) == e,
    decreases s.len(),
{
    if s.len() > 0 && s[0] != '.' {
        let t = s.drop_first();
        assert forall|j: int| 0 <= j < e - 1 implies t[j] != '.' by {
            assert(t[j] == s[j + 1]);
        }
        if e - 1 < t.len() {
            assert(t[e - 1] == s[e]);
        }
        lemma_first_dot(t, e - 1);
    }
}

proof fn lemma_digits_value_prefix(s: Seq<char>, i: int, j: int)
    requires
        0 <= i <= j <= s.len(),
    ensures
        digits_value(s.take(i)) <= digits_value(s.take(j)),
    decreases j - i,
{
    if i < j {
        lemma_digits_value_prefix(s, i, j - 1);
        assert(s.take(j).drop_last() =~= s.take(j - 1));
    }
}

proof fn lemma_digits_value_bound(s: Seq<char>)
    requires
        all_digits(s),
    ensures
        digits_value(s) < pow10(s.len()),
    decreases s.len(),
{
    if s.len() > 0 {
        let t = s.drop_last();
        assert(all_digits(t)) by {
            assert forall|i: int| 0 <= i < t.len() implies is_digit(t[i]) by {
                assert(t[i] == s[i]);
            }
        }
        lemma_digits_value_bound(t);
        assert(is_digit(s[s.len() - 1]));
        assert(digits_value(s) < pow10(s.len())) by (nonlinear_arith)
            requires
                digits_value(s) == digits_value(t) * 10 + digit_value(s.last()),
                digits_value(t) < pow10(t.len()),
                digits_value(t) + 1 <= pow10(t.len()),
                digit_value(s.last()) < 10,
                pow10(s.len()) == pow10(t.len()) * 10,
        ;
    }
}

pub open spec fn pow10(n: nat) -> nat
    decreases n,
{
    if n == 0 {
        1
    } else {
        pow10((n - 1) as nat) * 10
    }
}

/// Position of the first `.` of `s`, or its length.
fn dot_position(s: &str) -> (r: usize)
    ensures
        r == first_dot(s@),
        r <= s@.len(),
{
    let n = s.unicode_len();
    let mut end: usize = 0;
    while end < n && s.get_char(end) != '.'
        invariant
            n == s@.len(),
            end <= n,
            forall|j: int| 0 <= j < end ==> s@[j] != '.',
        decreases n - end,
    {
        end = end + 1;
    }
    proof {
        lemma_first_dot(s@, end as int);
    }
    end
}

/// Whether the first `end` characters of `s` are all decimal digits.
fn digits_only(s: &str, end: usize) -> (r: bool)
    requires
        end <= s@.len(),
    ensures
        r == all_digits(s@.take(end as int)),
{
    let ghost p = s@.take(end as int);
    let mut i: usize = 0;
    while i < end
        invariant
            end <= s@.len(),
            p == s@.take(end as int),
            i <= end,
            forall|j: int| 0 <= j < i ==> is_digit(#[trigger] p[j]),
        decreases end - i,
    {
        let c = s.get_char(i);
        if !('0' <= c && c <= '9') {
            assert(p[i as int] == c);
            assert(!is_digit(p[i as int]));
            return false;
        }
        i = i + 1;
    }
    true
}

/// Reads milliseconds from the decimal rendering of a number; `None` when its
/// integer part is too large for a `u64`.
pub fn millis_from_text(s: &str) -> (r: Option<u64>)
    ensures
        r == (if text_millis_defined(s@) {
            Some(text_millis(s@) as u64)
        } else {
            None::<u64>
        }),
        r is Some ==> r->0 as nat == text_millis(s@),
{
    let end = dot_position(s);
    let ghost p = integer_part(s@);
    assert(p.len() == end);
    if end == 0 {
        return Some(0);
    }
    if !digits_only(s, end) {
        return Some(0);
    }
    let mut v: u64 = 0;
    let mut k: usize = 0;
    while k < end
        invariant
            end <= s@.len(),
            p == s@.take(end as int),
            p == integer_part(s@),
            p.len() == end,
            all_digits(p),
            k <= end,
            v as nat == digits_value(p.take(k as int)),
        decreases end - k,
    {
        let c = s.get_char(k);
        proof {
            assert(p[k as int] == c);
            assert(is_digit(p[k as int]));
            assert(p.take(k + 1).drop_last() =~= p.take(k as int));
            lemma_digits_value_prefix(p, k + 1, end as int);
            assert(p.take(end as int) =~= p);
        }
        let d = (c as u32 - '0' as u32) as u64;
        let w: u128 = v as u128 * 10 + d as u128;
        if w > u64::MAX as u128 {
            return None;
        }
        v = w as u64;
        k = k + 1;
    }
    assert(p.take(end as int) =~= p);
    if end == 10 {
        proof {
            lemma_digits_value_bound(p);
            reveal_with_fuel(pow10, 11);
            assert(pow10(10) == 10_000_000_000);
        }
        Some(v * 1000)
    } else {
        Some(v)
    }
}

/// The date-time that the rendering of a number denotes: a ten-digit integer
/// part is read as seconds, any other as milliseconds; `None` when the integer
/// part is empty, holds anything but digits, or is too large for a `u64`.
pub fn num_to_datetime(s: &str) -> (r: Option<DateTime>)
    ensures
        r is Some <==> integer_part(s@).len() > 0 && all_digits(integer_part(s@))
            && text_millis_defined(s@),
        r matches Some(d) ==> d.millis == text_millis(s@) as i64,
{
    let end = dot_position(s);
    if end == 0 || !digits_only(s, end) {
        return None;
    }
    match millis_from_text(s) {
        Some(m) => Some(DateTime { millis: #[verifier::truncate] (m as i64) }),
        None => None,
    }
}

/// What a double-precision number rendered as `s` becomes when cast to `u32`:
/// the fraction is cut off, and the cast saturates.
pub open spec fn text_whole_u32(s: Seq<char>) -> nat {
    let p = integer_part(s);
    if p == "inf"@ {
        u32::MAX as nat
    } else if p.len() == 0 || !all_digits(p) {
        0
    } else if digits_value(p) > u32::MAX {
        u32::MAX as nat
    } else {
        digits_value(p)
    }
}

/// The cast to `u32` of the double-precision number rendered as `s`.
pub fn whole_u32_from_text(s: &str) -> (r: u32)
    ensures
        r as nat == text_whole_u32(s@),
{
    let end = dot_position(s);
    let ghost p = integer_part(s@);
    assert(p.len() == end);
    if end == 3 && s.get_char(0) == 'i' && s.get_char(1) == 'n' && s.get_char(2) == 'f' {
        assert(p =~= "inf"@) by {
            reveal_strlit("inf");
        }
        return u32::MAX;
    }
    assert(p != "inf"@) by {
        reveal_strlit("inf");
        if p == "inf"@ {
            assert(p[0] == s@[0] && p[1] == s@[1] && p[2] == s@[2]);
        }
    }
    if end == 0 || !digits_only(s, end) {
        return 0;
    }
    let cap: u64 = u32::MAX as u64;
    let mut v: u64 = 0;
    let mut k: usize = 0;
    while k < end
        invariant
            end <= s@.len(),
            p == s@.take(end as int),
            p.len() == end,
            all_digits(p),
            k <= end,
            cap == u32::MAX,
            v <= cap,
            v as nat == (if digits_value(p.take(k as int)) > cap {
                cap as nat
            } else {
                digits_value(p.take(k as int))
            }),
        decreases end - k,
    {
        let c = s.get_char(k);
        proof {
            assert(p[k as int] == c);
            assert(is_digit(p[k as int]));
            assert(p.take(k + 1).drop_last() =~= p.take(k as int));
        }
        let d = (c as u32 - '0' as u32) as u64;
        let w = v * 10 + d;
        proof {
            let a = digits_value(p.take(k as int));
            let b = digits_value(p.take(k + 1));
            assert(b == a * 10 + d);
            if a > cap {
                assert(b > cap) by (nonlinear_arith)
                    requires
                        b == a * 10 + d,
                        a > cap,
                ;
                assert(w >= cap) by (nonlinear_arith)
                    requires
                        w == v * 10 + d,
                        v == cap,
                ;
            }
        }
        v = if w > cap {
            cap
        } else {
            w
        };
        k = k + 1;
    }
    assert(p.take(end as int) =~= p);
    v as u32
}

impl ToMillis for DoubleText {
    open spec fn millis_defined(&self) -> bool {
        text_millis_defined(self.text@)
    }

    open spec fn millis_value(&self) -> nat {
        text_millis(self.text@)
    }

    fn to_millis(&self) -> (r: u64) {
        match millis_from_text(self.text.as_str()) {
            Some(m) => m,
            None => 0,
        }
    }
}

proof fn lemma_decimal_digits(n: nat)
    ensures
        all_digits(decimal(n)),
        digits_value(decimal(n)) == n,
        decimal(n).len() >= 1,
    decreases n,
{
    if n < 10 {
        let d = decimal(n);
        assert(d.drop_last() =~= Seq::<char>::empty());
        assert(digit_value(digit_char(n)) == n);
        assert(digits_value(d) == digits_value(d.drop_last()) * 10 + digit_value(d.last()));
        assert(digits_value(d.drop_last()) == 0);
    } else {
        lemma_decimal_digits(n / 10);
        let p = decimal(n / 10);
        let d = decimal(n);
        assert(d.drop_last() =~= p);
        assert(d.last() == digit_char(n % 10));
        assert(digit_value(digit_char(n % 10)) == n % 10);
        assert(digits_value(d) == digits_value(p) * 10 + digit_value(d.last()));
        assert((n / 10) * 10 + n % 10 == n);
        assert forall|i: int| 0 <= i < d.len() implies #[trigger] is_digit(d[i]) by {
            if i < p.len() {
                assert(d[i] == p[i]);
            }
        }
    }
}

proof fn lemma_decimal_len(n: nat, k: nat)
    requires
        k >= 1,
        pow10((k - 1) as nat) <= n < pow10(k),
    ensures
        decimal(n).len() == k,
    decreases k,
{
    if k > 1 {
        let k1 = (k - 1) as nat;
        let k2 = (k - 2) as nat;
        assert(pow10(k1) == pow10(k2) * 10);
        assert(pow10(k) == pow10(k1) * 10);
        assert(pow10(k2) >= 1) by {
            lemma_pow10_positive(k2);
        }
        assert(n >= 10);
        assert(pow10(k2) <= n / 10 < pow10(k1)) by (nonlinear_arith)
            requires
                pow10(k1) == pow10(k2) * 10,
                pow10(k) == pow10(k1) * 10,
                pow10(k1) <= n < pow10(k),
        ;
        lemma_decimal_len(n / 10, k1);
    }
}

proof fn lemma_pow10_positive(k: nat)
    ensures
        pow10(k) >= 1,
    decreases k,
{
    if k > 0 {
        lemma_pow10_positive((k - 1) as nat);
    }
}

proof fn lemma_digits_no_dot(s: Seq<char>)
    requires
        all_digits(s),
    ensures
        first_dot(s) == s.len(),
{
    assert forall|j: int| 0 <= j < s.len() implies s[j] != '.' by {
        assert(is_digit(s[j]));
    }
    lemma_first_dot(s, s.len() as int);
}

/// Equivalent instants read the same in every stored representation: a
/// ten-digit count of seconds, the same instant in milliseconds, either count
/// as a date-time, the seconds as a replication timestamp, and a double whose
/// integer part is either count, with or without a fraction, all give the
/// seconds times 1000.
pub proof fn lemma_equivalent_instants(secs: u64, fraction: Seq<char>)
    requires
        TEN_DIGIT_LOW <= secs < TEN_DIGIT_HIGH,
    ensures
        int_millis(secs as int) == secs * 1000,
        int_millis(secs * 1000) == secs * 1000,
        datetime_millis(secs as i64) == secs * 1000,
        datetime_millis((secs * 1000) as i64) == secs * 1000,
        secs <= u32::MAX ==> timestamp_millis(secs as u32) == secs * 1000,
        text_millis_defined(decimal(secs as nat)),
        text_millis(decimal(secs as nat)) == secs * 1000,
        text_millis_defined(decimal(secs as nat) + seq!['.'] + fraction),
        text_millis(decimal(secs as nat) + seq!['.'] + fraction) == secs * 1000,
        text_millis_defined(decimal(secs as nat * 1000)),
        text_millis(decimal(secs as nat * 1000)) == secs * 1000,
{
    reveal_with_fuel(pow10, 14);
    let d = decimal(secs as nat);
    lemma_decimal_digits(secs as nat);
    lemma_decimal_len(secs as nat, 10);
    lemma_digits_no_dot(d);
    assert(integer_part(d) =~= d);
    let t = d + seq!['.'] + fraction;
    assert forall|j: int| 0 <= j < d.len() implies t[j] != '.' by {
        assert(t[j] == d[j]);
        assert(is_digit(d[j]));
    }
    lemma_first_dot(t, d.len() as int);
    assert(integer_part(t) =~= d);
    let m = decimal(secs as nat * 1000);
    lemma_decimal_digits(secs as nat * 1000);
    lemma_decimal_len(secs as nat * 1000, 13);
    lemma_digits_no_dot(m);
    assert(integer_part(m) =~= m);
}

} // verus!
