//! Decimal rendering of ids and joining of path components, as the runtime
//! directory layout needs them.
use vstd::prelude::*;

verus! {

/// The character of decimal digit `d` (`d < 10`).
pub open spec fn digit_char(d: nat) -> char {
    ('0' as nat + d) as char
}

/// The decimal rendering of `n`, most significant digit first, with no
/// leading zeros.
pub open spec fn decimal(n: nat) -> Seq<char>
    decreases n,
{
    if n < 10 {
        seq![digit_char(n)]
    } else {
        decimal(n / 10).push(digit_char(n % 10))
    }
}

/// The number that a string of decimal digits denotes.
pub open spec fn digits_value(s: Seq<char>) -> int
    decreases s.len(),
{
    if s.len() == 0 {
        0
    } else {
        digits_value(s.drop_last()) * 10 + (s.last() as int - '0' as int)
    }
}

/// The decimal rendering of `n` is a string of decimal digits that denotes
/// `n`.
pub proof fn lemma_decimal_value(n: nat)
    ensures
        digits_value(decimal(n)) == n,
        decimal(n).len() > 0,
        forall|i: int| 0 <= i < decimal(n).len() ==> '0' <= #[trigger] decimal(n)[i] <= '9',
    decreases n,
{
    if n < 10 {
        let s = decimal(n);
        assert(s.drop_last() =~= Seq::<char>::empty());
        assert(digit_char(n) as int == '0' as int + n);
        assert(digits_value(s.drop_last()) == 0);
        assert(digits_value(s) == digits_value(s.drop_last()) * 10 + n);
    } else {
        assert(digit_char(n % 10) as int == '0' as int + n % 10);
        lemma_decimal_value(n / 10);
        let s = decimal(n);
        assert(s == decimal(n / 10).push(digit_char(n % 10)));
        assert(s.drop_last() =~= decimal(n / 10));
        assert(s.last() == digit_char(n % 10));
        assert(digits_value(s) == digits_value(decimal(n / 10)) * 10 + (n % 10));
        assert((n / 10) * 10 + n % 10 == n) by (nonlinear_arith);
    }
}

/// `s` is the decimal numeral of `n`: one or more decimal digits, with no
/// leading zero unless it is the single digit `0`, that denote `n`.
pub open spec fn is_decimal_of(s: Seq<char>, n: nat) -> bool {
    &&& s.len() > 0
    &&& forall|i: int| 0 <= i < s.len() ==> '0' <= #[trigger] s[i] <= '9'
    &&& (s.len() == 1 || s[0] != '0')
    &&& digits_value(s) == n
}

/// The decimal rendering of a positive number does not start with `0`.
proof fn lemma_decimal_no_leading_zero(n: nat)
    requires
        n >= 1,
    ensures
        decimal(n)[0] != '0',
    decreases n,
{
    if n < 10 {
        assert(digit_char(n) as int == '0' as int + n);
    } else {
        lemma_decimal_no_leading_zero(n / 10);
        lemma_decimal_value(n / 10);
        assert(decimal(n)[0] == decimal(n / 10)[0]);
    }
}

/// The decimal rendering of `n` is the decimal numeral of `n`.
pub proof fn lemma_decimal_is_numeral(n: nat)
    ensures
        is_decimal_of(decimal(n), n),
{
    lemma_decimal_value(n);
    if n >= 1 {
        lemma_decimal_no_leading_zero(n);
    } else {
        assert(decimal(n).len() == 1);
    }
}

/// Different numbers have different decimal renderings.
pub proof fn lemma_decimal_injective(n: nat, m: nat)
    requires
        n != m,
    ensures
        decimal(n) != decimal(m),
{
    lemma_decimal_value(n);
    lemma_decimal_value(m);
}

/// `base` joined with `part` as a Unix path: an absolute `part` replaces
/// `base`; otherwise a `/` separates them unless `base` is empty or already
/// ends with one.
pub open spec fn joined(base: Seq<char>, part: Seq<char>) -> Seq<char> {
    if part.len() > 0 && part[0] == '/' {
        part
    } else if base.len() > 0 && base.last() != '/' {
        base + seq!['/'] + part
    } else {
        base + part
    }
}

/// Calls `String::push`, which appends one character to the string.
#[verifier::external_body]
fn string_push(s: &mut String, c: char)
    ensures
        final(s)@ == old(s)@.push(c),
{
    s.push(c)
}

/// Appends the decimal rendering of `n` to `out`.
pub fn push_decimal(out: &mut String, n: u32)
    ensures
        final(out)@ == old(out)@ + decimal(n as nat),
    decreases n,
{
    if n >= 10 {
        push_decimal(out, n / 10);
    }
    let d: u32 = n % 10;
    let c = ((48u32 + d) as u8) as char;
    assert(c == digit_char(d as nat));
    string_push(out, c);
    assert(out@ =~= old(out)@ + decimal(n as nat));
}

/// The decimal rendering of `n`.
pub fn decimal_string(n: u32) -> (s: String)
    ensures
        s@ == decimal(n as nat),
{
    let mut s = String::new();
    push_decimal(&mut s, n);
    assert(s@ =~= decimal(n as nat));
    s
}

/// `base` joined with `part` as `std::path::Path::join` joins them on Unix.
pub fn path_join(base: &str, part: &str) -> (r: String)
    ensures
        r@ == joined(base@, part@),
{
    let part_len = part.unicode_len();
    if part_len > 0 && part.get_char(0) == '/' {
        return part.to_string();
    }
    let base_len = base.unicode_len();
    let mut r = base.to_string();
    if base_len > 0 && base.get_char(base_len - 1) != '/' {
        string_push(&mut r, '/');
    }
    r.append(part);
    r
}

/// Joining a relative part to a base that is not empty and does not end in
/// `/` puts one `/` between them.
pub proof fn lemma_join_relative(base: Seq<char>, part: Seq<char>)
    requires
        base.len() > 0,
        base.last() != '/',
        part.len() == 0 || part[0] != '/',
    ensures
        joined(base, part) == base + seq!['/'] + part,
{
}

/// Joining a relative part to an empty base, or to one that ends in `/`,
/// appends the part.
pub proof fn lemma_join_after_separator(base: Seq<char>, part: Seq<char>)
    requires
        base.len() == 0 || base.last() == '/',
        part.len() == 0 || part[0] != '/',
    ensures
        joined(base, part) == base + part,
{
}

/// Joining an absolute part gives the part.
pub proof fn lemma_join_absolute(base: Seq<char>, part: Seq<char>)
    requires
        part.len() > 0,
        part[0] == '/',
    ensures
        joined(base, part) == part,
{
}

} // verus!
