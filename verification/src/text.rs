//! Decimal and UUID text, as the server prints them into messages and JSON.
use vstd::prelude::*;

verus! {

/// The ASCII character of a decimal digit.
pub open spec fn digit_char(d: nat) -> char {
    if d == 0 { '0' }
    else if d == 1 { '1' }
    else if d == 2 { '2' }
    else if d == 3 { '3' }
    else if d == 4 { '4' }
    else if d == 5 { '5' }
    else if d == 6 { '6' }
    else if d == 7 { '7' }
    else if d == 8 { '8' }
    else { '9' }
}

/// Decimal digits of a natural number, most significant first, no leading zeros.
pub open spec fn decimal_digits(n: nat) -> Seq<char>
    decreases n,
{
    if n < 10 {
        seq![digit_char(n)]
    } else {
        decimal_digits(n / 10).push(digit_char(n % 10))
    }
}

/// Decimal text of an integer: a leading `-` for negative values.
pub open spec fn decimal_text(v: int) -> Seq<char> {
    if v < 0 {
        seq!['-'] + decimal_digits((-v) as nat)
    } else {
        decimal_digits(v as nat)
    }
}

fn digit_str(d: u64) -> (s: &'static str)
    requires
        d < 10,
    ensures
        s@ == seq![digit_char(d as nat)],
{
    if d == 0 {
        proof { reveal_strlit("0"); }
        "0"
    } else if d == 1 {
        proof { reveal_strlit("1"); }
        "1"
    } else if d == 2 {
        proof { reveal_strlit("2"); }
        "2"
    } else if d == 3 {
        proof { reveal_strlit("3"); }
        "3"
    } else if d == 4 {
        proof { reveal_strlit("4"); }
        "4"
    } else if d == 5 {
        proof { reveal_strlit("5"); }
        "5"
    } else if d == 6 {
        proof { reveal_strlit("6"); }
        "6"
    } else if d == 7 {
        proof { reveal_strlit("7"); }
        "7"
    } else if d == 8 {
        proof { reveal_strlit("8"); }
        "8"
    } else {
        proof { reveal_strlit("9"); }
        "9"
    }
}

/// Appends the decimal digits of `n` to `s`.
pub fn push_decimal_u64(s: &mut String, n: u64)
    ensures
        final(s)@ == old(s)@ + decimal_digits(n as nat),
    decreases n,
{
    if n >= 10 {
        push_decimal_u64(s, n / 10);
    }
    s.append(digit_str(n % 10));
    proof {
        if n >= 10 {
            assert(old(s)@ + decimal_digits((n / 10) as nat) + seq![digit_char((n % 10) as nat)]
                =~= old(s)@ + decimal_digits(n as nat));
        } else {
            assert(decimal_digits(n as nat) == seq![digit_char(n as nat)]);
        }
    }
}

/// Appends the decimal text of `v` (with a `-` when negative) to `s`.
pub fn push_decimal_i64(s: &mut String, v: i64)
    ensures
        final(s)@ == old(s)@ + decimal_text(v as int),
{
    if v < 0 {
        proof { reveal_strlit("-"); }
        s.append("-");
        let a: u64 = (0i128 - v as i128) as u64;
        push_decimal_u64(s, a);
        assert(old(s)@ + seq!['-'] + decimal_digits(a as nat) =~= old(s)@ + (seq!['-']
            + decimal_digits(a as nat)));
    } else {
        push_decimal_u64(s, v as u64);
    }
}

/// The decimal text of an unsigned integer.
pub fn u64_text(n: u64) -> (s: String)
    ensures
        s@ == decimal_digits(n as nat),
{
    let mut s = String::new();
    push_decimal_u64(&mut s, n);
    assert(Seq::<char>::empty() + decimal_digits(n as nat) =~= decimal_digits(n as nat));
    s
}

/// The decimal text of a signed integer.
pub fn i64_text(v: i64) -> (s: String)
    ensures
        s@ == decimal_text(v as int),
{
    let mut s = String::new();
    push_decimal_i64(&mut s, v);
    assert(Seq::<char>::empty() + decimal_text(v as int) =~= decimal_text(v as int));
    s
}

/// Lower-case hexadecimal digit.
pub open spec fn hex_char(d: nat) -> char {
    if d < 10 { digit_char(d) }
    else if d == 10 { 'a' }
    else if d == 11 { 'b' }
    else if d == 12 { 'c' }
    else if d == 13 { 'd' }
    else if d == 14 { 'e' }
    else { 'f' }
}

/// 16 to the power `k`.
pub open spec fn pow16(k: nat) -> nat
    decreases k,
{
    if k == 0 { 1 } else { 16 * pow16((k - 1) as nat) }
}

/// The `j`-th hexadecimal digit of a 128-bit value, counted from the most
/// significant one (`0 <= j < 32`).
pub open spec fn nibble(u: u128, j: int) -> nat {
    ((u as nat) / pow16((31 - j) as nat)) % 16
}

/// Position in the 32 hex digits that the `k`-th character of the hyphenated
/// form shows (hyphens stand at characters 8, 13, 18 and 23).
pub open spec fn hyphenated_digit_index(k: int) -> int {
    if k < 8 { k }
    else if k < 13 { k - 1 }
    else if k < 18 { k - 2 }
    else if k < 23 { k - 3 }
    else { k - 4 }
}

/// The hyphenated lower-case text of a UUID given by its 128-bit value:
/// `xxxxxxxx-xxxx-xxxx-xxxx-xxxxxxxxxxxx`, most significant digit first.
pub open spec fn uuid_hyphenated(u: u128) -> Seq<char> {
    Seq::new(
        36,
        |k: int|
            if k == 8 || k == 13 || k == 18 || k == 23 {
                '-'
            } else {
                hex_char(nibble(u, hyphenated_digit_index(k)))
            },
    )
}

/// The value of a hexadecimal digit, either case.
pub open spec fn hex_digit_value(c: char) -> Option<nat> {
    if '0' <= c <= '9' {
        Some((c as nat - '0' as nat) as nat)
    } else if 'a' <= c <= 'f' {
        Some((c as nat - 'a' as nat + 10) as nat)
    } else if 'A' <= c <= 'F' {
        Some((c as nat - 'A' as nat + 10) as nat)
    } else {
        None
    }
}

/// The value of a string of hexadecimal digits, most significant first
/// (`None` when a character is not a digit).
pub open spec fn hex_digits_value(s: Seq<char>) -> Option<nat>
    decreases s.len(),
{
    if s.len() == 0 {
        Some(0)
    } else {
        match (hex_digits_value(s.drop_last()), hex_digit_value(s.last())) {
            (Some(high), Some(low)) => Some(high * 16 + low),
            _ => None,
        }
    }
}

/// The 128-bit value of 32 hexadecimal digits.
pub open spec fn simple_uuid_value(s: Seq<char>) -> Option<u128> {
    if s.len() != 32 {
        None
    } else {
        match hex_digits_value(s) {
            Some(v) => Some(v as u128),
            None => None,
        }
    }
}

/// The value of the hyphenated form `8-4-4-4-12` (hex digits of either case).
pub open spec fn hyphenated_uuid_value(s: Seq<char>) -> Option<u128> {
    if s.len() == 36 && s[8] == '-' && s[13] == '-' && s[18] == '-' && s[23] == '-' {
        simple_uuid_value(
            s.subrange(0, 8) + s.subrange(9, 13) + s.subrange(14, 18) + s.subrange(19, 23) + s.subrange(24, 36),
        )
    } else {
        None
    }
}

/// ASCII lower case of a character (other characters unchanged).
pub open spec fn ascii_lower(c: char) -> char {
    if 'A' <= c <= 'Z' { ((c as u32) + 32) as char } else { c }
}

/// The 128-bit value of the UUID that `uuid::Uuid::parse_str` reads from a
/// text: 32 hex digits; the hyphenated form; the hyphenated form in braces;
/// or the hyphenated form after `urn:uuid:` (prefix in any ASCII case).
/// Digits are read most significant first; `None` for any other text.
pub open spec fn uuid_text_value(s: Seq<char>) -> Option<u128> {
    if s.len() == 32 {
        simple_uuid_value(s)
    } else if s.len() == 36 {
        hyphenated_uuid_value(s)
    } else if s.len() == 38 {
        if s[0] == '{' && s[37] == '}' { hyphenated_uuid_value(s.subrange(1, 37)) } else { None }
    } else if s.len() == 45 {
        if s.subrange(0, 9).map_values(|c: char| ascii_lower(c)) == "urn:uuid:"@ {
            hyphenated_uuid_value(s.subrange(9, 45))
        } else {
            None
        }
    } else {
        None
    }
}

/// The 32 lower-case hexadecimal digits of a UUID (its "simple" form), most
/// significant first.
pub open spec fn uuid_simple(u: u128) -> Seq<char> {
    Seq::new(32, |j: int| hex_char(nibble(u, j)))
}

proof fn lemma_hex_char_value(d: nat)
    requires
        d < 16,
    ensures
        hex_digit_value(hex_char(d)) == Some(d),
{
}

proof fn lemma_pow16_positive(k: nat)
    ensures
        pow16(k) > 0,
    decreases k,
{
    if k > 0 {
        lemma_pow16_positive((k - 1) as nat);
    }
}

/// The first `k` digits of the simple form read as the value divided by
/// `16^(32 - k)`.
proof fn lemma_simple_prefix_value(u: u128, k: nat)
    requires
        k <= 32,
    ensures
        hex_digits_value(uuid_simple(u).take(k as int)) == Some((u as nat) / pow16((32 - k) as nat)),
    decreases k,
{
    if k == 0 {
        reveal_with_fuel(pow16, 33);
        assert(pow16(32) == 0x1_0000_0000_0000_0000_0000_0000_0000_0000nat);
        assert(uuid_simple(u).take(0) =~= Seq::<char>::empty());
    } else {
        lemma_simple_prefix_value(u, (k - 1) as nat);
        let s = uuid_simple(u).take(k as int);
        assert(s.drop_last() =~= uuid_simple(u).take(k - 1));
        let p = pow16((32 - k) as nat);
        lemma_pow16_positive((32 - k) as nat);
        let q = (u as nat) / p;
        assert(nibble(u, k - 1) == q % 16);
        lemma_hex_char_value(nibble(u, k - 1));
        assert(s.last() == hex_char(nibble(u, k - 1)));
        assert(pow16((33 - k) as nat) == 16 * p);
        vstd::arithmetic::div_mod::lemma_div_denominator(u as int, p as int, 16);
        assert((u as nat) / pow16((33 - k) as nat) == q / 16) by {
            assert(p * 16 == 16 * p) by (nonlinear_arith);
        }
        vstd::arithmetic::div_mod::lemma_fundamental_div_mod(q as int, 16);
        assert((q / 16) * 16 + q % 16 == q) by (nonlinear_arith)
            requires q == 16 * (q / 16) + q % 16;
    }
}

/// Law: both texts of a UUID, the hyphenated form that `Display` prints and
/// the 32-digit simple form, read back to the same value, so both are valid
/// UUID texts.
pub proof fn law_uuid_texts_read_back(u: u128)
    ensures
        uuid_text_value(uuid_simple(u)) == Some(u),
        uuid_text_value(uuid_hyphenated(u)) == Some(u),
{
    lemma_simple_prefix_value(u, 32);
    assert(uuid_simple(u).take(32) =~= uuid_simple(u));
    assert(pow16(0) == 1);
    assert((u as nat) / 1 == u as nat);
    assert(hex_digits_value(uuid_simple(u)) == Some(u as nat));
    assert(simple_uuid_value(uuid_simple(u)) == Some(u));
    let h = uuid_hyphenated(u);
    assert(h.len() == 36 && h[8] == '-' && h[13] == '-' && h[18] == '-' && h[23] == '-');
    let digits = h.subrange(0, 8) + h.subrange(9, 13) + h.subrange(14, 18) + h.subrange(19, 23) + h.subrange(24, 36);
    assert(digits =~= uuid_simple(u));
    assert(hyphenated_uuid_value(h) == simple_uuid_value(uuid_simple(u)));
}

/// Text of the UUID with value `u` (`uuid::Uuid::from_u128(u).to_string()`).
///
/// Trusted: the uuid crate prints a `Uuid` in `Display` as its hyphenated
/// lower-case form, most significant byte first, which `uuid_hyphenated`
/// states.
#[verifier::external_body]
pub(crate) fn uuid_text(u: u128) -> (s: String)
    ensures
        s@ == uuid_hyphenated(u),
{
    uuid::Uuid::from_u128(u).to_string()
}

/// Parses a UUID with `uuid::Uuid::parse_str` and gives its 128-bit value.
///
/// Trusted: the parser accepts exactly the forms of `uuid_text_value` (it
/// reads the text's bytes; every accepted form is ASCII) and
/// `Uuid::from_bytes` / `as_u128` read the 16 bytes most significant first.
#[verifier::external_body]
pub(crate) fn parse_uuid(s: &str) -> (r: Option<u128>)
    ensures
        r == uuid_text_value(s@),
{
    match uuid::Uuid::parse_str(s) {
        Ok(u) => Some(u.as_u128()),
        Err(_) => None,
    }
}

/// The 128-bit value of the UUID written in `s`, if `s` is one.
pub fn uuid_value(s: &str) -> (r: Option<u128>)
    ensures
        r == uuid_text_value(s@),
{
    parse_uuid(s)
}

/// Whether `s` is a valid UUID text.
pub fn is_valid_uuid(s: &str) -> (r: bool)
    ensures
        r == uuid_text_value(s@) is Some,
{
    parse_uuid(s).is_some()
}

/// The hyphenated text of a UUID.
pub fn uuid_string(u: u128) -> (s: String)
    ensures
        s@ == uuid_hyphenated(u),
        uuid_text_value(s@) == Some(u),
{
    proof { law_uuid_texts_read_back(u); }
    uuid_text(u)
}


/// Appends the hyphenated text of the UUID `u` to `s`.
pub fn push_uuid(s: &mut String, u: u128)
    ensures
        final(s)@ == old(s)@ + uuid_hyphenated(u),
{
    let t = uuid_text(u);
    s.append(t.as_str());
}

} // verus!
