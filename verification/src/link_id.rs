//! The identifiers of download links: UUIDs held as 128-bit integers, their
//! textual forms, and what the `uuid` crate parses.
use vstd::prelude::*;

verus! {

/// `c` is a hexadecimal digit of either case.
pub open spec fn is_hex_digit(c: char) -> bool {
    let u = c as u32;
    (48 <= u <= 57) || (97 <= u <= 102) || (65 <= u <= 70)
}

/// The value of a hexadecimal digit.
pub open spec fn hex_value(c: char) -> int {
    let u = c as u32;
    if u <= 57 {
        u - 48
    } else if u >= 97 {
        u - 87
    } else {
        u - 55
    }
}

/// All of `s` is hexadecimal digits.
pub open spec fn all_hex(s: Seq<char>) -> bool {
    forall|i: int| 0 <= i < s.len() ==> is_hex_digit(#[trigger] s[i])
}

/// The number that the hexadecimal digits of `s` spell, most significant first.
pub open spec fn hex_number(s: Seq<char>) -> int
    decreases s.len(),
{
    if s.len() == 0 {
        0
    } else {
        hex_number(s.drop_last()) * 16 + hex_value(s.last())
    }
}

/// Thirty-two hexadecimal digits, read as a UUID.
pub open spec fn parse_hex32(s: Seq<char>) -> Option<u128> {
    if s.len() == 32 && all_hex(s) {
        Some(hex_number(s) as u128)
    } else {
        None
    }
}

/// `s` has the length of the hyphenated form and hyphens at its four places.
pub open spec fn hyphens_in_place(s: Seq<char>) -> bool {
    s.len() == 36 && s[8] == '-' && s[13] == '-' && s[18] == '-' && s[23] == '-'
}

/// The hyphenated form with its four hyphens taken out.
pub open spec fn without_hyphens(s: Seq<char>) -> Seq<char> {
    s.subrange(0, 8) + s.subrange(9, 13) + s.subrange(14, 18) + s.subrange(19, 23) + s.subrange(
        24,
        36,
    )
}

/// The hyphenated form `8-4-4-4-12`, digits of either case.
pub open spec fn parse_hyphenated(s: Seq<char>) -> Option<u128> {
    if hyphens_in_place(s) {
        parse_hex32(without_hyphens(s))
    } else {
        None
    }
}

/// ASCII upper-case letters made lower-case; every other character kept.
pub open spec fn ascii_lower(c: char) -> char {
    let u = c as u32;
    if 65 <= u <= 90 {
        (u + 32) as char
    } else {
        c
    }
}

/// `s` is `urn:uuid:` in any mix of ASCII cases.
pub open spec fn is_urn_prefix(s: Seq<char>) -> bool {
    let p = seq!['u', 'r', 'n', ':', 'u', 'u', 'i', 'd', ':'];
    s.len() == 9 && forall|i: int| 0 <= i < 9 ==> ascii_lower(#[trigger] s[i]) == p[i]
}

/// What `uuid::Uuid::parse_str` accepts, and the value it reads: thirty-two
/// hexadecimal digits; the hyphenated form; the hyphenated form in braces;
/// or the hyphenated form behind `urn:uuid:`. Digits of either case.
pub open spec fn spec_parse_uuid(s: Seq<char>) -> Option<u128> {
    if s.len() == 32 {
        parse_hex32(s)
    } else if s.len() == 36 {
        parse_hyphenated(s)
    } else if s.len() == 38 && s[0] == '{' && s[37] == '}' {
        parse_hyphenated(s.subrange(1, 37))
    } else if s.len() == 45 && is_urn_prefix(s.subrange(0, 9)) {
        parse_hyphenated(s.subrange(9, 45))
    } else {
        None
    }
}

/// The lower-case hexadecimal digit of `d`.
pub open spec fn hex_char(d: int) -> char {
    if d < 10 {
        (48 + d) as char
    } else {
        (87 + d) as char
    }
}

/// The last `n` hexadecimal digits of `v`, lower-case, most significant first.
pub open spec fn hex_digits(v: nat, n: nat) -> Seq<char>
    decreases n,
{
    if n == 0 {
        seq![]
    } else {
        hex_digits(v / 16, (n - 1) as nat).push(hex_char((v % 16) as int))
    }
}

/// The hyphenated lower-case form of a UUID, as the `uuid` crate writes it:
/// thirty-two digits in groups of 8, 4, 4, 4 and 12.
pub open spec fn hyphenated(v: u128) -> Seq<char> {
    let h = hex_digits(v as nat, 32);
    h.subrange(0, 8) + seq!['-'] + h.subrange(8, 12) + seq!['-'] + h.subrange(12, 16) + seq!['-']
        + h.subrange(16, 20) + seq!['-'] + h.subrange(20, 32)
}

/// Sixteen to the power `n`.
pub open spec fn pow16(n: nat) -> nat
    decreases n,
{
    if n == 0 {
        1
    } else {
        16 * pow16((n - 1) as nat)
    }
}

proof fn lemma_pow16_positive(n: nat)
    ensures
        pow16(n) > 0,
    decreases n,
{
    if n > 0 {
        lemma_pow16_positive((n - 1) as nat);
    }
}

proof fn lemma_hex_digits(v: nat, n: nat)
    ensures
        hex_digits(v, n).len() == n,
        all_hex(hex_digits(v, n)),
        hex_number(hex_digits(v, n)) == v % pow16(n),
    decreases n,
{
    if n > 0 {
        let m = (n - 1) as nat;
        lemma_hex_digits(v / 16, m);
        lemma_pow16_positive(m);
        let h = hex_digits(v, n);
        let d = (v % 16) as int;
        assert(h.drop_last() =~= hex_digits(v / 16, m));
        assert(h.last() == hex_char(d));
        assert(hex_value(hex_char(d)) == d);
        assert forall|i: int| 0 <= i < h.len() implies is_hex_digit(#[trigger] h[i]) by {
            if i < m {
                assert(h[i] == hex_digits(v / 16, m)[i]);
            }
        }
        vstd::arithmetic::div_mod::lemma_breakdown(v as int, 16, pow16(m) as int);
    }
}

proof fn lemma_pow16_32()
    ensures
        pow16(32) == 0x1_0000_0000_0000_0000_0000_0000_0000_0000,
{
    reveal_with_fuel(pow16, 33);
}

/// The hyphenated form of a UUID has thirty-six characters, none of them a
/// slash, and reading it gives back that UUID.
pub proof fn lemma_parse_hyphenated(v: u128)
    ensures
        hyphenated(v).len() == 36,
        forall|i: int| 0 <= i < 36 ==> #[trigger] hyphenated(v)[i] != '/',
        spec_parse_uuid(hyphenated(v)) == Some(v),
{
    let h = hex_digits(v as nat, 32);
    lemma_hex_digits(v as nat, 32);
    lemma_pow16_32();
    let s = hyphenated(v);
    assert(s.len() == 36);
    assert(hyphens_in_place(s));
    assert(without_hyphens(s) =~= h);
    assert(hex_number(h) == v);
    assert forall|i: int| 0 <= i < 36 implies #[trigger] s[i] != '/' by {
        if i < 8 {
            assert(s[i] == h[i] && is_hex_digit(h[i]));
        } else if 8 < i < 13 {
            assert(s[i] == h[i - 1] && is_hex_digit(h[i - 1]));
        } else if 13 < i < 18 {
            assert(s[i] == h[i - 2] && is_hex_digit(h[i - 2]));
        } else if 18 < i < 23 {
            assert(s[i] == h[i - 3] && is_hex_digit(h[i - 3]));
        } else if 23 < i {
            assert(s[i] == h[i - 4] && is_hex_digit(h[i - 4]));
        }
    }
}

proof fn lemma_hex_digits_lower(v: nat, n: nat)
    ensures
        forall|i: int|
            0 <= i < n ==> (48 <= #[trigger] hex_digits(v, n)[i] as u32 <= 57 || 97 <= hex_digits(
                v,
                n,
            )[i] as u32 <= 102),
    decreases n,
{
    if n > 0 {
        let m = (n - 1) as nat;
        lemma_hex_digits_lower(v / 16, m);
        lemma_hex_digits(v / 16, m);
        let h = hex_digits(v, n);
        assert forall|i: int| 0 <= i < n implies (48 <= #[trigger] h[i] as u32 <= 57 || 97 <= h[i] as u32
            <= 102) by {
            if i < m {
                assert(h[i] == hex_digits(v / 16, m)[i]);
            } else {
                assert(h[i] == hex_char((v % 16) as int));
            }
        }
    }
}

/// The hyphenated form of a UUID: hyphens at positions 8, 13, 18 and 23,
/// and otherwise lower-case hexadecimal digits.
pub proof fn lemma_hyphenated_lower(v: u128, i: int)
    requires
        0 <= i < 36,
    ensures
        (i == 8 || i == 13 || i == 18 || i == 23) ==> hyphenated(v)[i] == '-',
        !(i == 8 || i == 13 || i == 18 || i == 23) ==> (48 <= hyphenated(v)[i] as u32 <= 57 || 97
            <= hyphenated(v)[i] as u32 <= 102),
{
    let h = hex_digits(v as nat, 32);
    lemma_hex_digits(v as nat, 32);
    lemma_hex_digits_lower(v as nat, 32);
    let s = hyphenated(v);
    if i < 8 {
        assert(s[i] == h[i]);
    } else if 8 < i < 13 {
        assert(s[i] == h[i - 1]);
    } else if 13 < i < 18 {
        assert(s[i] == h[i - 2]);
    } else if 18 < i < 23 {
        assert(s[i] == h[i - 3]);
    } else if 23 < i {
        assert(s[i] == h[i - 4]);
    }
}

/// ASCII lower-case letters made upper-case; every other character kept.
pub open spec fn ascii_upper(c: char) -> char {
    let u = c as u32;
    if 97 <= u <= 122 {
        (u - 32) as char
    } else {
        c
    }
}

/// `s` with its ASCII letters upper-cased (for ASCII text, what
/// `str::to_uppercase` gives).
pub open spec fn upper_text(s: Seq<char>) -> Seq<char> {
    s.map_values(|c: char| ascii_upper(c))
}

proof fn lemma_upper_char(c: char)
    ensures
        is_hex_digit(ascii_upper(c)) == is_hex_digit(c),
        hex_value(ascii_upper(c)) == hex_value(c),
        ascii_lower(ascii_upper(c)) == ascii_lower(c),
        c == '-' ==> ascii_upper(c) == '-',
        c != '-' ==> ascii_upper(c) != '-',
        (c == '{') == (ascii_upper(c) == '{'),
        (c == '}') == (ascii_upper(c) == '}'),
{
}

proof fn lemma_upper_hex_number(s: Seq<char>)
    ensures
        hex_number(upper_text(s)) == hex_number(s),
        all_hex(upper_text(s)) == all_hex(s),
    decreases s.len(),
{
    let u = upper_text(s);
    if all_hex(s) {
        assert forall|i: int| 0 <= i < u.len() implies is_hex_digit(#[trigger] u[i]) by {
            lemma_upper_char(s[i]);
        }
    } else {
        let i = choose|i: int| 0 <= i < s.len() && !is_hex_digit(#[trigger] s[i]);
        lemma_upper_char(s[i]);
        assert(!is_hex_digit(u[i]));
    }
    if s.len() > 0 {
        lemma_upper_hex_number(s.drop_last());
        assert(u.drop_last() =~= upper_text(s.drop_last()));
        lemma_upper_char(s.last());
    }
}

proof fn lemma_upper_hyphenated(s: Seq<char>)
    ensures
        parse_hyphenated(upper_text(s)) == parse_hyphenated(s),
{
    let u = upper_text(s);
    if s.len() == 36 {
        lemma_upper_char(s[8]);
        lemma_upper_char(s[13]);
        lemma_upper_char(s[18]);
        lemma_upper_char(s[23]);
        assert(hyphens_in_place(u) == hyphens_in_place(s));
        assert(without_hyphens(u) =~= upper_text(without_hyphens(s)));
        lemma_upper_hex_number(without_hyphens(s));
    }
}

/// Upper-casing the ASCII letters of a text does not change how it reads
/// as a UUID: the same value, or no value in both cases.
pub proof fn lemma_parse_ignores_case(s: Seq<char>)
    ensures
        spec_parse_uuid(upper_text(s)) == spec_parse_uuid(s),
{
    let u = upper_text(s);
    if s.len() == 32 {
        lemma_upper_hex_number(s);
    } else if s.len() == 36 {
        lemma_upper_hyphenated(s);
    } else if s.len() == 38 {
        lemma_upper_char(s[0]);
        lemma_upper_char(s[37]);
        assert(u.subrange(1, 37) =~= upper_text(s.subrange(1, 37)));
        lemma_upper_hyphenated(s.subrange(1, 37));
    } else if s.len() == 45 {
        let p = seq!['u', 'r', 'n', ':', 'u', 'u', 'i', 'd', ':'];
        let a = s.subrange(0, 9);
        let b = u.subrange(0, 9);
        if is_urn_prefix(a) {
            assert forall|i: int| 0 <= i < 9 implies ascii_lower(#[trigger] b[i]) == p[i] by {
                lemma_upper_char(a[i]);
            }
        } else {
            let i = choose|i: int| 0 <= i < 9 && ascii_lower(#[trigger] a[i]) != p[i];
            lemma_upper_char(a[i]);
            assert(ascii_lower(b[i]) != p[i]);
        }
        assert(is_urn_prefix(b) == is_urn_prefix(a));
        assert(u.subrange(9, 45) =~= upper_text(s.subrange(9, 45)));
        lemma_upper_hyphenated(s.subrange(9, 45));
    }
}

/// Reads a UUID from text with `uuid::Uuid::parse_str` and takes its value
/// with `Uuid::as_u128` (big-endian). Claimed: the value comes back exactly
/// for the forms `spec_parse_uuid` describes, and for nothing else.
#[verifier::external_body]
pub(crate) fn parse_uuid(s: &str) -> (res: Option<u128>)
    ensures
        res == spec_parse_uuid(s@),
{
    match uuid::Uuid::parse_str(s) {
        Ok(u) => Some(u.as_u128()),
        Err(_) => None,
    }
}

/// Writes a UUID with `uuid::Uuid::from_u128` and its `Display`. Claimed: the
/// text is the hyphenated lower-case form.
#[verifier::external_body]
pub(crate) fn uuid_text(v: u128) -> (res: String)
    ensures
        res@ == hyphenated(v),
{
    uuid::Uuid::from_u128(v).to_string()
}

} // verus!
