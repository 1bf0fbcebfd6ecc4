use vstd::prelude::*;
use vstd::string::*;

verus! {

/// The hexadecimal digit of `d` (below 16), in upper or lower case.
pub open spec fn hex_char(d: nat, upper: bool) -> char {
    if d < 10 {
        ((d + '0' as nat) as u32) as char
    } else if upper {
        ((d - 10 + 'A' as nat) as u32) as char
    } else {
        ((d - 10 + 'a' as nat) as u32) as char
    }
}

/// Two lower-case digits for each byte, high digit first.
pub open spec fn bytes_hex(b: Seq<u8>) -> Seq<char>
    decreases b.len(),
{
    if b.len() == 0 {
        Seq::empty()
    } else {
        bytes_hex(b.drop_last()) + seq![
            hex_char(b.last() as nat / 16, false),
            hex_char(b.last() as nat % 16, false),
        ]
    }
}

/// The upper-case hexadecimal rendering of `n`, without leading zeros.
pub open spec fn upper_hex(n: nat) -> Seq<char>
    decreases n,
{
    if n < 16 {
        seq![hex_char(n, true)]
    } else {
        upper_hex(n / 16).push(hex_char(n % 16, true))
    }
}

fn push_hex_digit(s: &mut String, d: u64, upper: bool)
    requires
        d < 16,
    ensures
        final(s)@ == old(s)@.push(hex_char(d as nat, upper)),
{
    let digits = if upper {
        "0123456789ABCDEF"
    } else {
        "0123456789abcdef"
    };
    proof {
        reveal_strlit("0123456789ABCDEF");
        reveal_strlit("0123456789abcdef");
    }
    assert(digits@.len() == 16);
    let one = digits.substring_char(d as usize, d as usize + 1);
    assert(one@ =~= seq![digits@[d as int]]);
    assert(digits@[d as int] == hex_char(d as nat, upper));
    s.append(one);
    assert(final(s)@ =~= old(s)@.push(hex_char(d as nat, upper)));
}

/// Lower-case hexadecimal of a byte string.
pub fn hex_of_bytes(b: &[u8]) -> (r: String)
    ensures
        r@ == bytes_hex(b@),
{
    let mut s = String::new();
    let mut i: usize = 0;
    while i < b.len()
        invariant
            i <= b@.len(),
            s@ == bytes_hex(b@.take(i as int)),
        decreases b@.len() - i,
    {
        proof {
            assert(b@.take(i + 1).drop_last() =~= b@.take(i as int));
        }
        let x = b[i] as u64;
        push_hex_digit(&mut s, x / 16, false);
        push_hex_digit(&mut s, x % 16, false);
        i = i + 1;
        assert(s@ =~= bytes_hex(b@.take(i as int)));
    }
    assert(b@.take(i as int) =~= b@);
    s
}

/// Upper-case hexadecimal of `n`, without leading zeros.
pub fn upper_hex_of(n: u64) -> (r: String)
    ensures
        r@ == upper_hex(n as nat),
    decreases n,
{
    if n < 16 {
        let mut s = String::new();
        push_hex_digit(&mut s, n, true);
        assert(s@ =~= seq![hex_char(n as nat, true)]);
        s
    } else {
        let mut s = upper_hex_of(n / 16);
        push_hex_digit(&mut s, n % 16, true);
        s
    }
}

} // verus!
