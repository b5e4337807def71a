use std::str::FromStr;
use vstd::prelude::*;

verus! {

/// The lowercase hexadecimal digit of `d` (taken modulo 16).
pub open spec fn hex_char(d: int) -> char {
    let d = d % 16;
    if d < 10 {
        ('0' as int + d) as char
    } else {
        ('a' as int + (d - 10)) as char
    }
}

/// The last `n` hexadecimal digits of `x`, most significant first.
pub open spec fn hex_digits(x: nat, n: nat) -> Seq<char>
    decreases n,
{
    if n == 0 {
        Seq::empty()
    } else {
        hex_digits(x / 16, (n - 1) as nat).push(hex_char(x as int))
    }
}

/// The hyphenated lowercase text of the UUID whose 128 bits are `x`
/// (big-endian), e.g. `67e55044-10b1-426f-9247-bb680e5fe0c8`.
pub open spec fn uuid_hyphenated(x: u128) -> Seq<char> {
    let d = hex_digits(x as nat, 32);
    d.subrange(0, 8) + seq!['-'] + d.subrange(8, 12) + seq!['-'] + d.subrange(12, 16) + seq!['-']
        + d.subrange(16, 20) + seq!['-'] + d.subrange(20, 32)
}

pub open spec fn is_hex_char(c: char) -> bool {
    ||| ('0' <= c && c <= '9')
    ||| ('a' <= c && c <= 'f')
    ||| ('A' <= c && c <= 'F')
}

pub open spec fn is_hyphen_position(i: int) -> bool {
    i == 8 || i == 13 || i == 18 || i == 23
}

/// 36 characters: hex digits with hyphens at positions 8, 13, 18 and 23.
pub open spec fn is_hyphenated_text(s: Seq<char>) -> bool {
    &&& s.len() == 36
    &&& forall|i: int|
        0 <= i < 36 ==> if is_hyphen_position(i) {
            s[i] == '-'
        } else {
            is_hex_char(s[i])
        }
}

/// 32 hex digits with no separators.
pub open spec fn is_simple_text(s: Seq<char>) -> bool {
    &&& s.len() == 32
    &&& forall|i: int| 0 <= i < 32 ==> is_hex_char(#[trigger] s[i])
}

pub open spec fn ascii_lowercase(c: char) -> char {
    if 'A' <= c && c <= 'Z' {
        ((c as int) + 32) as char
    } else {
        c
    }
}

/// `s` starts with `urn:uuid:`, ignoring ASCII case.
pub open spec fn has_urn_prefix(s: Seq<char>) -> bool {
    &&& s.len() >= 9
    &&& ascii_lowercase(s[0]) == 'u' && ascii_lowercase(s[1]) == 'r' && ascii_lowercase(s[2]) == 'n'
    &&& s[3] == ':'
    &&& ascii_lowercase(s[4]) == 'u' && ascii_lowercase(s[5]) == 'u' && ascii_lowercase(s[6]) == 'i'
    &&& ascii_lowercase(s[7]) == 'd'
    &&& s[8] == ':'
}

/// The texts that the `uuid` crate parses: simple, hyphenated, braced
/// (`{...}`) and URN (`urn:uuid:...`) forms.
pub open spec fn is_uuid_text(s: Seq<char>) -> bool {
    ||| is_simple_text(s)
    ||| is_hyphenated_text(s)
    ||| (s.len() == 38 && s[0] == '{' && s[37] == '}' && is_hyphenated_text(s.subrange(1, 37)))
    ||| (s.len() == 45 && has_urn_prefix(s) && is_hyphenated_text(s.subrange(9, 45)))
}

/// Calls `uuid::Uuid::from_str` and reports whether it succeeded. The
/// contract claims that the parser accepts exactly the four text forms of
/// [`is_uuid_text`], as `uuid`'s `try_parse` shows.
#[verifier::external_body]
pub(crate) fn uuid_text_is_valid(s: &str) -> (r: bool)
    ensures
        r == is_uuid_text(s@),
{
    uuid::Uuid::from_str(s).is_ok()
}

/// Calls `uuid::Uuid::from_u128` and formats the result with `to_string`.
/// The contract claims the hyphenated lowercase form, big-endian, which is
/// what `uuid`'s `Display` writes.
#[verifier::external_body]
pub(crate) fn uuid_text(x: u128) -> (r: String)
    ensures
        r@ == uuid_hyphenated(x),
{
    uuid::Uuid::from_u128(x).to_string()
}

/// Calls `uuid::Uuid::now_v7` and returns its 128 bits, big-endian. The
/// time and random bits are not claimed; the contract claims only what
/// `uuid` fixes in every outcome: the version nibble is 7 and the variant
/// bits are `10`.
#[verifier::external_body]
pub(crate) fn uuid_now_v7() -> (r: u128)
    ensures
        (r >> 76u128) & 0xfu128 == 7,
        (r >> 62u128) & 0x3u128 == 2,
{
    uuid::Uuid::now_v7().as_u128()
}

/// The text of a version-7 UUID of the RFC variant: `7` opens the third
/// group and one of `8`, `9`, `a`, `b` the fourth.
pub open spec fn is_version7_text(s: Seq<char>) -> bool {
    &&& s.len() == 36
    &&& s[14] == '7'
    &&& (s[19] == '8' || s[19] == '9' || s[19] == 'a' || s[19] == 'b')
}

/// `x` with its last `k` hexadecimal digits dropped.
pub open spec fn drop_digits(x: nat, k: nat) -> nat
    decreases k,
{
    if k == 0 {
        x
    } else {
        drop_digits(x, (k - 1) as nat) / 16
    }
}

proof fn lemma_drop_digits_step(x: nat, j: nat)
    ensures
        drop_digits(x / 16, j) == drop_digits(x, j + 1),
    decreases j,
{
    reveal_with_fuel(drop_digits, 2);
    if j > 0 {
        lemma_drop_digits_step(x, (j - 1) as nat);
    }
}

proof fn lemma_hex_digit_at(x: nat, n: nat, k: nat)
    requires
        k < n,
    ensures
        hex_digits(x, n)[n - 1 - k] == hex_char(drop_digits(x, k) as int),
    decreases n,
{
    lemma_hex_digits(x / 16, (n - 1) as nat);
    if k > 0 {
        lemma_hex_digit_at(x / 16, (n - 1) as nat, (k - 1) as nat);
        lemma_drop_digits_step(x, (k - 1) as nat);
    }
}

proof fn lemma_shift_div(x: u128, s: u128, t: u128)
    requires
        s <= 120,
        t == s + 4,
    ensures
        (x >> s) / 16 == x >> t,
{
    assert(s <= 120 && t == s + 4 ==> (x >> s) / 16 == x >> t) by (bit_vector);
}

proof fn lemma_drop_is_shift(x: u128, k: nat)
    requires
        k <= 31,
    ensures
        drop_digits(x as nat, k) == (x >> ((4 * k) as u128)) as nat,
    decreases k,
{
    if k == 0 {
        assert(x >> 0u128 == x) by (bit_vector);
    } else {
        lemma_drop_is_shift(x, (k - 1) as nat);
        lemma_shift_div(x, (4 * (k - 1)) as u128, (4 * k) as u128);
    }
}

/// The text of a UUID whose version nibble is 7 and whose variant bits are
/// `10` shows it: `7` at position 14, and `8` to `b` at position 19.
pub proof fn lemma_version7_text(x: u128)
    requires
        (x >> 76u128) & 0xfu128 == 7,
        (x >> 62u128) & 0x3u128 == 2,
    ensures
        is_version7_text(uuid_hyphenated(x)),
{
    let d = hex_digits(x as nat, 32);
    lemma_hex_digits(x as nat, 32);
    lemma_hex_digit_at(x as nat, 32, 19);
    lemma_hex_digit_at(x as nat, 32, 15);
    lemma_drop_is_shift(x, 19);
    lemma_drop_is_shift(x, 15);
    let v = x >> 76u128;
    let w = x >> 60u128;
    assert(((x >> 76u128) & 0xfu128 == 7) ==> (x >> 76u128) % 16 == 7) by (bit_vector);
    assert(((x >> 62u128) & 0x3u128 == 2) ==> 8 <= (x >> 60u128) % 16 && (x >> 60u128) % 16 <= 11)
        by (bit_vector);
    let s = uuid_hyphenated(x);
    assert(s[14] == d[12]);
    assert(s[19] == d[16]);
    assert(d[12] == hex_char(v as int));
    assert(d[16] == hex_char(w as int));
}

proof fn lemma_hex_char_is_hex(d: int)
    ensures
        is_hex_char(hex_char(d)),
        'A' > hex_char(d) || hex_char(d) > 'Z',
{
}

proof fn lemma_hex_digits(x: nat, n: nat)
    ensures
        hex_digits(x, n).len() == n,
        forall|i: int| 0 <= i < n ==> is_hex_char(#[trigger] hex_digits(x, n)[i]),
    decreases n,
{
    if n > 0 {
        lemma_hex_digits(x / 16, (n - 1) as nat);
        lemma_hex_char_is_hex(x as int);
    }
}

/// Every UUID text that the library writes is one that the parser accepts.
pub proof fn lemma_uuid_text_parses(x: u128)
    ensures
        is_hyphenated_text(uuid_hyphenated(x)),
        is_uuid_text(uuid_hyphenated(x)),
{
    let d = hex_digits(x as nat, 32);
    lemma_hex_digits(x as nat, 32);
    let s = uuid_hyphenated(x);
    assert forall|i: int|
        0 <= i < 36 implies if is_hyphen_position(i) {
        s[i] == '-'
    } else {
        is_hex_char(s[i])
    } by {
        if i < 8 {
            assert(s[i] == d[i]);
        } else if i == 8 {
        } else if i < 13 {
            assert(s[i] == d[i - 1]);
        } else if i == 13 {
        } else if i < 18 {
            assert(s[i] == d[i - 2]);
        } else if i == 18 {
        } else if i < 23 {
            assert(s[i] == d[i - 3]);
        } else if i == 23 {
        } else {
            assert(s[i] == d[i - 4]);
        }
    }
}

} // verus!
