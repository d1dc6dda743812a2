//! Reading unsigned integers out of upstream text, and writing them back.
use vstd::prelude::*;
use vstd::string::{StrSliceExecFns, StringExecFns};

verus! {

/// The value of a digit character in bases up to 36 (`0`-`9`, then `a`-`z`
/// or `A`-`Z` for ten and above); 36 for a character that is no digit at all.
pub open spec fn digit_value(c: char) -> nat {
    let u = c as u32;
    if '0' as u32 <= u <= '9' as u32 {
        (u - '0' as u32) as nat
    } else if 'a' as u32 <= u <= 'z' as u32 {
        (u - 'a' as u32 + 10) as nat
    } else if 'A' as u32 <= u <= 'Z' as u32 {
        (u - 'A' as u32 + 10) as nat
    } else {
        36
    }
}

/// Every character of `s` is a digit of base `radix`.
pub open spec fn all_digits(s: Seq<char>, radix: nat) -> bool {
    forall|i: int| 0 <= i < s.len() ==> #[trigger] digit_value(s[i]) < radix
}

/// The number that the digits of `s` spell in base `radix`, most significant first.
pub open spec fn digits_value(s: Seq<char>, radix: nat) -> nat
    decreases s.len(),
{
    if s.len() == 0 {
        0
    } else {
        digits_value(s.drop_last(), radix) * radix + digit_value(s.last())
    }
}

/// The digits of an unsigned number's text: what follows one optional `+`.
pub open spec fn unsigned_digits(s: Seq<char>) -> Seq<char> {
    if s.len() > 0 && s[0] == '+' {
        s.drop_first()
    } else {
        s
    }
}

/// `s` is the text of a `u64` in base `radix`: an optional `+`, then at least
/// one digit, and a value that fits in 64 bits.
pub open spec fn is_u64_text(s: Seq<char>, radix: nat) -> bool {
    let d = unsigned_digits(s);
    &&& d.len() > 0
    &&& all_digits(d, radix)
    &&& digits_value(d, radix) <= u64::MAX
}

/// The value of the text of a `u64` in base `radix`.
pub open spec fn u64_text_value(s: Seq<char>, radix: nat) -> nat {
    digits_value(unsigned_digits(s), radix)
}

/// Reading the digits `d` from the left meets a character that is no digit
/// before the value read so far has grown past `u64::MAX`.
pub open spec fn meets_bad_digit_first(d: Seq<char>, radix: nat) -> bool {
    exists|i: int|
        0 <= i < d.len() && #[trigger] digit_value(d[i]) >= radix && all_digits(d.take(i), radix)
            && digits_value(d.take(i), radix) <= u64::MAX
}

/// The message with which `s` is rejected as a `u64` in base `radix`: the
/// empty text is empty; a sign with no digits after it, or a character that
/// is no digit and comes before the value overflows, is an invalid digit; what
/// is left is a value too large.
pub open spec fn int_error_text(s: Seq<char>, radix: nat) -> Seq<char> {
    let d = unsigned_digits(s);
    if s.len() == 0 {
        "cannot parse integer from empty string"@
    } else if d.len() == 0 || meets_bad_digit_first(d, radix) {
        "invalid digit found in string"@
    } else {
        "number too large to fit in target type"@
    }
}

/// Relies on `u64::from_str_radix`: it accepts exactly an optional `+` followed
/// by one or more digits of the radix whose value fits in `u64`, and returns that
/// value. Otherwise the `Display` of its `ParseIntError` gives the message of the
/// first problem that its left-to-right reading meets, the digit being checked
/// before the overflow at each step.
#[verifier::external_body]
fn parse_u64(s: &str, radix: u32) -> (r: Result<u64, String>)
    requires
        2 <= radix <= 36,
    ensures
        r is Ok <==> is_u64_text(s@, radix as nat),
        r is Ok ==> r->Ok_0 as nat == u64_text_value(s@, radix as nat),
        r is Err ==> r->Err_0@ == int_error_text(s@, radix as nat),
{
    u64::from_str_radix(s, radix).map_err(|e| e.to_string())
}

/// Reads the text of a `u64` in base 16.
pub fn parse_hex_u64(s: &str) -> (r: Result<u64, String>)
    ensures
        r is Ok <==> is_u64_text(s@, 16),
        r is Ok ==> r->Ok_0 as nat == u64_text_value(s@, 16),
        r is Err ==> r->Err_0@ == int_error_text(s@, 16),
{
    parse_u64(s, 16)
}

/// Reads the text of a `u64` in base 10.
pub fn parse_decimal_u64(s: &str) -> (r: Result<u64, String>)
    ensures
        r is Ok <==> is_u64_text(s@, 10),
        r is Ok ==> r->Ok_0 as nat == u64_text_value(s@, 10),
        r is Err ==> r->Err_0@ == int_error_text(s@, 10),
{
    parse_u64(s, 10)
}

/// `s` starts with the two characters `0x`.
pub open spec fn has_hex_prefix(s: Seq<char>) -> bool {
    s.len() >= 2 && s[0] == '0' && s[1] == 'x'
}

/// `s` with every leading `0x` taken off, one pair after another.
pub open spec fn strip_hex_prefixes(s: Seq<char>) -> Seq<char>
    decreases s.len(),
{
    if has_hex_prefix(s) {
        strip_hex_prefixes(s.subrange(2, s.len() as int))
    } else {
        s
    }
}

proof fn lemma_strip_from(s: Seq<char>, i: int)
    requires
        0 <= i <= s.len(),
        i % 2 == 0,
        forall|k: int| 0 <= k < i && k % 2 == 0 ==> #[trigger] has_hex_prefix(s.subrange(k, s.len() as int)),
    ensures
        strip_hex_prefixes(s) == strip_hex_prefixes(s.subrange(i, s.len() as int)),
    decreases i,
{
    if i > 0 {
        lemma_strip_from(s, i - 2);
        let t = s.subrange(i - 2, s.len() as int);
        assert(has_hex_prefix(t));
        assert(t.subrange(2, t.len() as int) =~= s.subrange(i, s.len() as int));
    } else {
        assert(s.subrange(0, s.len() as int) =~= s);
    }
}

/// Takes every leading `0x` off `s`, as `str::trim_start_matches("0x")` does.
pub fn trim_hex_prefixes(s: &str) -> (r: &str)
    ensures
        r@ == strip_hex_prefixes(s@),
{
    let n = s.unicode_len();
    let mut i: usize = 0;
    while i < n && n - i >= 2 && s.get_char(i) == '0' && s.get_char(i + 1) == 'x'
        invariant
            n == s@.len(),
            i <= n,
            i % 2 == 0,
            forall|k: int| 0 <= k < i && k % 2 == 0 ==> #[trigger] has_hex_prefix(s@.subrange(k, n as int)),
        decreases n - i,
    {
        assert(has_hex_prefix(s@.subrange(i as int, n as int)));
        i = i + 2;
    }
    proof {
        lemma_strip_from(s@, i as int);
        let t = s@.subrange(i as int, n as int);
        if has_hex_prefix(t) {
            assert(t[0] == s@[i as int] && t[1] == s@[i + 1]);
        }
    }
    s.substring_char(i, n)
}

/// The decimal digit character for `d < 10`.
pub open spec fn decimal_digit(d: nat) -> char {
    "0123456789"@[d as int]
}

/// The decimal text of `n`, without leading zeros.
pub open spec fn decimal_text(n: nat) -> Seq<char>
    decreases n,
{
    if n < 10 {
        seq![decimal_digit(n)]
    } else {
        decimal_text(n / 10).push(decimal_digit(n % 10))
    }
}

/// The one-character text of the decimal digit `d`.
fn digit_text(d: u64) -> (r: &'static str)
    requires
        d < 10,
    ensures
        r@ == seq![decimal_digit(d as nat)],
{
    let digits = "0123456789";
    proof {
        reveal_strlit("0123456789");
    }
    let r = digits.substring_char(d as usize, d as usize + 1);
    assert(r@ =~= seq![decimal_digit(d as nat)]);
    r
}

/// Writes `n` in decimal, without leading zeros, as `u64`'s `Display` does.
pub fn u64_to_decimal(n: u64) -> (r: String)
    ensures
        r@ == decimal_text(n as nat),
{
    let mut m: u64 = n / 10;
    let mut text = String::from_str(digit_text(n % 10));
    while m > 0
        invariant
            decimal_text(n as nat) == (if m > 0 { decimal_text(m as nat) } else { Seq::<char>::empty() }) + text@,
        decreases m,
    {
        let mut next = String::from_str(digit_text(m % 10));
        next.append(text.as_str());
        proof {
            if m >= 10 {
                assert(decimal_text(m as nat) == decimal_text((m / 10) as nat).push(decimal_digit((m % 10) as nat)));
                assert(decimal_text((m / 10) as nat) + next@ =~= decimal_text(m as nat) + text@);
            } else {
                assert(next@ =~= decimal_text(m as nat) + text@);
            }
        }
        text = next;
        m = m / 10;
    }
    proof {
        assert(Seq::<char>::empty() + text@ =~= text@);
    }
    text
}

} // verus!
