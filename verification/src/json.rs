//! Decoding of the service's JSON response bodies.
//!
//! The grammar is JSON (RFC 8259) restricted to the record shapes the
//! service answers with: objects whose members may come in any order,
//! unknown members skipped, each documented key accepted under its
//! in-memory name or its wire alias, the full escape set including
//! `\uXXXX` with surrogate pairs, no leading-zero numbers and no raw
//! control characters.  A member of the wrong type, a missing or
//! duplicated documented member, a negative count, or an integer of more
//! than eighteen digits makes the body malformed, and every decoder
//! answers a malformed body with `None` — never a fault.
//!
//! Every executable parser is proved equal to a specification-level parser
//! over the body's character sequence, so the contracts of the accessors
//! in [`crate::api`] pin the decoded value exactly.

use vstd::prelude::*;

use crate::data::{
    Asset,
    AssetV,
    AssetsCount,
    AssetsCountV,
    ForDiscord,
    ForDiscordV,
    Profile,
    ProfileV,
    User,
    UserData,
    UserDataV,
    UserV,
};

verus! {

/// Relies on `String`'s `FromIterator<char>` impl (through
/// `Iterator::collect`): collecting characters yields the string of
/// exactly those characters, in order.
#[verifier::external_body]
pub(crate) fn chars_to_string(v: &Vec<char>) -> (r: String)
    ensures
        r@ == v@,
{
    v.iter().collect()
}

/// Relies on `char::from_u32`: for every Unicode scalar value — anything
/// below the surrogate range or between it and `0x10FFFF` — it returns
/// `Some` of exactly that character, so the unwrap cannot panic.
#[verifier::external_body]
fn char_from_code(u: u32) -> (r: char)
    requires
        u < 0xD800 || (0xE000 <= u <= 0x10FFFF),
    ensures
        r == ((u as int) as char),
{
    char::from_u32(u).unwrap()
}

/// The whitespace characters the grammar accepts between tokens.
pub open spec fn spec_is_ws(c: char) -> bool {
    c == ' ' || c == '\n' || c == '\r' || c == '\t'
}

/// Index of the first non-whitespace character at or after `i`.
pub open spec fn spec_ws(s: Seq<char>, i: int) -> int
    decreases s.len() - i,
{
    if 0 <= i < s.len() && spec_is_ws(s[i]) {
        spec_ws(s, i + 1)
    } else {
        i
    }
}

pub proof fn lemma_ws_bounds(s: Seq<char>, i: int)
    requires
        0 <= i <= s.len(),
    ensures
        i <= spec_ws(s, i) <= s.len(),
    decreases s.len() - i,
{
    if i < s.len() && spec_is_ws(s[i]) {
        lemma_ws_bounds(s, i + 1);
    }
}

fn is_ws_char(c: char) -> (b: bool)
    ensures
        b == spec_is_ws(c),
{
    c == ' ' || c == '\n' || c == '\r' || c == '\t'
}

pub(crate) fn skip_ws(s: &str, i: usize) -> (r: usize)
    requires
        i <= s@.len(),
    ensures
        r == spec_ws(s@, i as int),
        i <= r <= s@.len(),
{
    let n = s.unicode_len();
    let mut k = i;
    loop
        invariant
            i <= k <= n,
            n == s@.len(),
            spec_ws(s@, i as int) == spec_ws(s@, k as int),
        decreases n - k,
    {
        if k < n && is_ws_char(s.get_char(k)) {
            k = k + 1;
        } else {
            proof {
                lemma_ws_bounds(s@, k as int);
            }
            return k;
        }
    }
}

/// What a single-character backslash escape stands for; `None` where the
/// escape is not part of the grammar (`\u` is handled separately).
pub open spec fn spec_escape(c: char) -> Option<char> {
    if c == '"' {
        Some('"')
    } else if c == '\\' {
        Some('\\')
    } else if c == '/' {
        Some('/')
    } else if c == 'n' {
        Some('\n')
    } else if c == 'r' {
        Some('\r')
    } else if c == 't' {
        Some('\t')
    } else if c == 'b' {
        Some('\u{8}')
    } else if c == 'f' {
        Some('\u{c}')
    } else {
        None
    }
}

fn escape_char(c: char) -> (r: Option<char>)
    ensures
        r == spec_escape(c),
{
    if c == '"' {
        Some('"')
    } else if c == '\\' {
        Some('\\')
    } else if c == '/' {
        Some('/')
    } else if c == 'n' {
        Some('\n')
    } else if c == 'r' {
        Some('\r')
    } else if c == 't' {
        Some('\t')
    } else if c == 'b' {
        Some('\u{8}')
    } else if c == 'f' {
        Some('\u{c}')
    } else {
        None
    }
}

/// Value of a hexadecimal digit character.
pub open spec fn spec_hex_val(c: char) -> Option<int> {
    if '0' as int <= c as int <= '9' as int {
        Some(c as int - 48)
    } else if 'a' as int <= c as int <= 'f' as int {
        Some(c as int - 87)
    } else if 'A' as int <= c as int <= 'F' as int {
        Some(c as int - 55)
    } else {
        None
    }
}

fn hex_val(c: char) -> (r: Option<u32>)
    ensures
        (match (r, spec_hex_val(c)) {
            (Some(a), Some(b)) => a == b && a < 16,
            (None, None) => true,
            _ => false,
        }),
{
    let u = c as u32;
    if 48 <= u && u <= 57 {
        Some(u - 48)
    } else if 97 <= u && u <= 102 {
        Some(u - 87)
    } else if 65 <= u && u <= 70 {
        Some(u - 55)
    } else {
        None
    }
}

/// Value of the four hexadecimal digits at `i`.
pub open spec fn spec_hex4(s: Seq<char>, i: int) -> Option<int> {
    if 0 <= i && i + 4 <= s.len() {
        match (spec_hex_val(s[i]), spec_hex_val(s[i + 1]), spec_hex_val(s[i + 2]), spec_hex_val(
            s[i + 3],
        )) {
            (Some(a), Some(b), Some(c), Some(d)) => Some(a * 4096 + b * 256 + c * 16 + d),
            _ => None,
        }
    } else {
        None
    }
}

fn read_hex4(s: &str, i: usize) -> (r: Option<u32>)
    requires
        i <= s@.len(),
    ensures
        (match (r, spec_hex4(s@, i as int)) {
            (Some(a), Some(b)) => a == b && a < 0x10000,
            (None, None) => true,
            _ => false,
        }),
{
    let n = s.unicode_len();
    if n - i < 4 {
        return None;
    }
    let a = hex_val(s.get_char(i));
    let b = hex_val(s.get_char(i + 1));
    let c = hex_val(s.get_char(i + 2));
    let d = hex_val(s.get_char(i + 3));
    match (a, b, c, d) {
        (Some(a), Some(b), Some(c), Some(d)) => Some(a * 4096 + b * 256 + c * 16 + d),
        _ => None,
    }
}

/// Content and end position of a string token, starting just after the
/// opening quote: the decoded characters up to the closing quote, and the
/// index just past that quote.  Raw control characters are refused; a
/// `\uXXXX` escape in the surrogate range must pair with a following low
/// surrogate escape.
pub open spec fn spec_str_body(s: Seq<char>, i: int) -> Option<(Seq<char>, int)>
    decreases s.len() - i,
{
    if !(0 <= i < s.len()) {
        None
    } else if s[i] == '"' {
        Some((Seq::empty(), i + 1))
    } else if s[i] == '\\' {
        if i + 1 < s.len() && s[i + 1] == 'u' {
            match spec_hex4(s, i + 2) {
                None => None,
                Some(h) => if 0xD800 <= h < 0xDC00 {
                    if i + 12 <= s.len() && s[i + 6] == '\\' && s[i + 7] == 'u' {
                        match spec_hex4(s, i + 8) {
                            None => None,
                            Some(l) => if 0xDC00 <= l < 0xE000 {
                                match spec_str_body(s, i + 12) {
                                    None => None,
                                    Some(p) => Some(
                                        (
                                            seq![
                                                ((0x10000 + (h - 0xD800) * 0x400 + (l
                                                    - 0xDC00)) as char)
                                            ] + p.0,
                                            p.1,
                                        ),
                                    ),
                                }
                            } else {
                                None
                            },
                        }
                    } else {
                        None
                    }
                } else if 0xDC00 <= h < 0xE000 {
                    None
                } else {
                    match spec_str_body(s, i + 6) {
                        None => None,
                        Some(p) => Some((seq![(h as char)] + p.0, p.1)),
                    }
                },
            }
        } else if i + 1 < s.len() {
            match spec_escape(s[i + 1]) {
                Some(c) => match spec_str_body(s, i + 2) {
                    Some(p) => Some((seq![c] + p.0, p.1)),
                    None => None,
                },
                None => None,
            }
        } else {
            None
        }
    } else if (s[i] as int) < 0x20 {
        None
    } else {
        match spec_str_body(s, i + 1) {
            Some(p) => Some((seq![s[i]] + p.0, p.1)),
            None => None,
        }
    }
}

pub proof fn lemma_str_body_bounds(s: Seq<char>, i: int)
    requires
        0 <= i <= s.len(),
        spec_str_body(s, i) is Some,
    ensures
        i < spec_str_body(s, i).unwrap().1 <= s.len(),
    decreases s.len() - i,
{
    if i < s.len() && s[i] == '"' {
    } else if i < s.len() && s[i] == '\\' {
        if i + 1 < s.len() && s[i + 1] == 'u' {
            match spec_hex4(s, i + 2) {
                None => {},
                Some(h) => if 0xD800 <= h < 0xDC00 {
                    lemma_str_body_bounds(s, i + 12);
                } else if 0xDC00 <= h < 0xE000 {
                } else {
                    lemma_str_body_bounds(s, i + 6);
                },
            }
        } else if i + 1 < s.len() {
            lemma_str_body_bounds(s, i + 2);
        }
    } else if i < s.len() {
        lemma_str_body_bounds(s, i + 1);
    }
}

#[verifier::rlimit(100)]
fn parse_str_body(s: &str, i: usize) -> (r: Option<(Vec<char>, usize)>)
    requires
        i <= s@.len(),
    ensures
        (match (r, spec_str_body(s@, i as int)) {
            (Some(p), Some(g)) => p.0@ == g.0 && p.1 == g.1 && i < p.1 <= s@.len(),
            (None, None) => true,
            _ => false,
        }),
    decreases s@.len() - i,
{
    let n = s.unicode_len();
    if i >= n {
        return None;
    }
    let c = s.get_char(i);
    if c == '"' {
        let v: Vec<char> = Vec::new();
        Some((v, i + 1))
    } else if c == '\\' {
        if i + 1 < n && s.get_char(i + 1) == 'u' {
            match read_hex4(s, i + 2) {
                None => None,
                Some(h) => {
                    if 0xD800 <= h && h < 0xDC00 {
                        if n - i >= 12 && s.get_char(i + 6) == '\\' && s.get_char(i + 7) == 'u' {
                            match read_hex4(s, i + 8) {
                                None => None,
                                Some(l) => {
                                    if 0xDC00 <= l && l < 0xE000 {
                                        let code: u32 = 0x10000 + (h - 0xD800) * 0x400 + (l
                                            - 0xDC00);
                                        let e = char_from_code(code);
                                        match parse_str_body(s, i + 12) {
                                            Some(p) => {
                                                let mut v = p.0;
                                                v.insert(0, e);
                                                proof {
                                                    assert(v@ =~= seq![e] + spec_str_body(
                                                        s@,
                                                        i + 12,
                                                    ).unwrap().0);
                                                }
                                                Some((v, p.1))
                                            },
                                            None => None,
                                        }
                                    } else {
                                        None
                                    }
                                },
                            }
                        } else {
                            None
                        }
                    } else if 0xDC00 <= h && h < 0xE000 {
                        None
                    } else {
                        let e = char_from_code(h);
                        match parse_str_body(s, i + 6) {
                            Some(p) => {
                                let mut v = p.0;
                                v.insert(0, e);
                                proof {
                                    assert(v@ =~= seq![e] + spec_str_body(s@, i + 6).unwrap().0);
                                }
                                Some((v, p.1))
                            },
                            None => None,
                        }
                    }
                },
            }
        } else if i + 1 < n {
            match escape_char(s.get_char(i + 1)) {
                Some(e) => match parse_str_body(s, i + 2) {
                    Some(p) => {
                        let mut v = p.0;
                        v.insert(0, e);
                        proof {
                            assert(v@ =~= seq![e] + spec_str_body(s@, i + 2).unwrap().0);
                        }
                        Some((v, p.1))
                    },
                    None => None,
                },
                None => None,
            }
        } else {
            None
        }
    } else if (c as u32) < 0x20 {
        None
    } else {
        match parse_str_body(s, i + 1) {
            Some(p) => {
                let mut v = p.0;
                v.insert(0, c);
                proof {
                    assert(v@ =~= seq![c] + spec_str_body(s@, i + 1).unwrap().0);
                }
                Some((v, p.1))
            },
            None => None,
        }
    }
}

/// Content and end position of a whole string token at `i`, opening quote
/// included.
pub open spec fn spec_string(s: Seq<char>, i: int) -> Option<(Seq<char>, int)> {
    if 0 <= i < s.len() && s[i] == '"' {
        spec_str_body(s, i + 1)
    } else {
        None
    }
}

pub(crate) fn parse_string(s: &str, i: usize) -> (r: Option<(String, usize)>)
    requires
        i <= s@.len(),
    ensures
        (match (r, spec_string(s@, i as int)) {
            (Some(p), Some(g)) => p.0@ == g.0 && p.1 == g.1 && i < p.1 <= s@.len(),
            (None, None) => true,
            _ => false,
        }),
{
    let n = s.unicode_len();
    if i < n && s.get_char(i) == '"' {
        match parse_str_body(s, i + 1) {
            Some(p) => Some((chars_to_string(&p.0), p.1)),
            None => None,
        }
    } else {
        None
    }
}

/// The digit characters.
pub open spec fn spec_is_digit(c: char) -> bool {
    '0' as int <= c as int <= '9' as int
}

/// Numeric value of a digit character.
pub open spec fn spec_digit_val(c: char) -> int {
    c as int - '0' as int
}

/// Index of the first non-digit character at or after `i`.
pub open spec fn spec_digits_end(s: Seq<char>, i: int) -> int
    decreases s.len() - i,
{
    if 0 <= i < s.len() && spec_is_digit(s[i]) {
        spec_digits_end(s, i + 1)
    } else {
        i
    }
}

pub proof fn lemma_digits_end_bounds(s: Seq<char>, i: int)
    requires
        0 <= i <= s.len(),
    ensures
        i <= spec_digits_end(s, i) <= s.len(),
    decreases s.len() - i,
{
    if i < s.len() && spec_is_digit(s[i]) {
        lemma_digits_end_bounds(s, i + 1);
    }
}

pub proof fn lemma_digits_end_chars(s: Seq<char>, i: int)
    requires
        0 <= i <= s.len(),
    ensures
        forall|m: int| i <= m < spec_digits_end(s, i) ==> spec_is_digit(s[m]),
    decreases s.len() - i,
{
    if i < s.len() && spec_is_digit(s[i]) {
        lemma_digits_end_chars(s, i + 1);
    }
}

/// Value of the digit run `s[i..j)`, most significant digit first.
pub open spec fn spec_digits_val(s: Seq<char>, i: int, j: int) -> int
    decreases j - i,
{
    if i >= j {
        0
    } else {
        spec_digits_val(s, i, j - 1) * 10 + spec_digit_val(s[j - 1])
    }
}

/// Powers of ten.
pub open spec fn pow10(k: nat) -> int
    decreases k,
{
    if k == 0 {
        1
    } else {
        10 * pow10((k - 1) as nat)
    }
}

pub proof fn lemma_digits_val_bound(s: Seq<char>, i: int, j: int)
    requires
        0 <= i <= j <= s.len(),
        forall|m: int| i <= m < j ==> spec_is_digit(s[m]),
    ensures
        0 <= spec_digits_val(s, i, j) < pow10((j - i) as nat),
    decreases j - i,
{
    if i < j {
        lemma_digits_val_bound(s, i, j - 1);
        assert(pow10((j - i) as nat) == 10 * pow10((j - i - 1) as nat));
    }
}

pub proof fn lemma_pow10_mono(a: nat, b: nat)
    requires
        a <= b,
    ensures
        pow10(a) <= pow10(b),
        pow10(a) >= 1,
    decreases b,
{
    if a == b {
        lemma_pow10_pos(a);
    } else {
        lemma_pow10_mono(a, (b - 1) as nat);
    }
}

pub proof fn lemma_pow10_pos(a: nat)
    ensures
        pow10(a) >= 1,
    decreases a,
{
    if a > 0 {
        lemma_pow10_pos((a - 1) as nat);
    }
}

/// Whether `v` fits the 32-bit signed fields of the records.
pub open spec fn in_i32(v: int) -> bool {
    i32::MIN <= v <= i32::MAX
}

/// Value and end position of an integer token at `i`: an optional minus
/// sign, then one to eighteen digits with no leading zero.  Longer digit
/// runs are malformed here — no field of the records could hold them.
pub open spec fn spec_int(s: Seq<char>, i: int) -> Option<(int, int)> {
    if 0 <= i < s.len() {
        let neg = s[i] == '-';
        let d0 = if neg {
            i + 1
        } else {
            i
        };
        let e = spec_digits_end(s, d0);
        if e == d0 || e - d0 > 18 {
            None
        } else if e - d0 > 1 && s[d0] == '0' {
            None
        } else {
            let v = spec_digits_val(s, d0, e);
            Some((if neg {
                -v
            } else {
                v
            }, e))
        }
    } else {
        None
    }
}

fn digit_value(c: char) -> (r: i64)
    requires
        spec_is_digit(c),
    ensures
        r == spec_digit_val(c),
{
    (c as u32 - 48) as i64
}

fn is_digit_char(c: char) -> (b: bool)
    ensures
        b == spec_is_digit(c),
{
    let u = c as u32;
    48 <= u && u <= 57
}

#[verifier::loop_isolation(false)]
pub(crate) fn parse_int(s: &str, i: usize) -> (r: Option<(i64, usize)>)
    requires
        i <= s@.len(),
    ensures
        (match (r, spec_int(s@, i as int)) {
            (Some(p), Some(g)) => p.0 == g.0 && p.1 == g.1 && i < p.1 <= s@.len(),
            (None, None) => true,
            _ => false,
        }),
{
    let n = s.unicode_len();
    if i >= n {
        return None;
    }
    let neg = s.get_char(i) == '-';
    let d0 = if neg {
        i + 1
    } else {
        i
    };
    proof {
        lemma_digits_end_bounds(s@, d0 as int);
        lemma_digits_end_chars(s@, d0 as int);
    }
    let ghost e = spec_digits_end(s@, d0 as int);
    let mut k = d0;
    let mut acc: i64 = 0;
    loop
        invariant
            d0 <= k <= n,
            n == s@.len(),
            k - d0 <= 18,
            e == spec_digits_end(s@, d0 as int),
            spec_digits_end(s@, d0 as int) == spec_digits_end(s@, k as int),
            acc == spec_digits_val(s@, d0 as int, k as int),
            0 <= acc < pow10((k - d0) as nat),
        decreases n - k,
    {
        if k < n && is_digit_char(s.get_char(k)) {
            if k - d0 == 18 {
                // a nineteenth digit: the run is longer than the grammar allows
                proof {
                    lemma_digits_end_bounds(s@, k as int + 1);
                    assert(spec_digits_end(s@, k as int) == spec_digits_end(s@, k as int + 1));
                    assert(spec_int(s@, i as int) is None);
                }
                return None;
            }
            let d = digit_value(s.get_char(k));
            proof {
                assert(pow10((k - d0 + 1) as nat) == 10 * pow10((k - d0) as nat));
                assert(pow10((k - d0 + 1) as nat) <= pow10(18)) by {
                    lemma_pow10_mono((k - d0 + 1) as nat, 18);
                };
                assert(pow10(18) == 1000000000000000000) by {
                    reveal_with_fuel(pow10, 20);
                };
            }
            acc = acc * 10 + d;
            k = k + 1;
        } else {
            // the scan stopped exactly at the end of the digit run
            proof {
                assert(spec_digits_end(s@, k as int) == k);
            }
            if k == d0 {
                return None;
            }
            if k - d0 > 1 && s.get_char(d0) == '0' {
                // a leading zero is not JSON
                return None;
            }
            if neg {
                return Some((-acc, k));
            } else {
                return Some((acc, k));
            }
        }
    }
}

pub(crate) fn str_eq(a: &str, b: &str) -> (r: bool)
    ensures
        r == (a@ == b@),
{
    let na = a.unicode_len();
    let nb = b.unicode_len();
    if na != nb {
        return false;
    }
    let mut i: usize = 0;
    loop
        invariant
            i <= na,
            na == a@.len(),
            nb == b@.len(),
            na == nb,
            forall|m: int| 0 <= m < i ==> a@[m] == b@[m],
        decreases na - i,
    {
        if i < na {
            if a.get_char(i) != b.get_char(i) {
                return false;
            }
            i = i + 1;
        } else {
            proof {
                assert(a@ =~= b@);
            }
            return true;
        }
    }
}

/// An object member's key and the position of its value: optional
/// whitespace, a string token, optional whitespace, a colon, optional
/// whitespace.
pub open spec fn spec_any_key(s: Seq<char>, i: int) -> Option<(Seq<char>, int)> {
    let j = spec_ws(s, i);
    match spec_string(s, j) {
        None => None,
        Some((k, j2)) => {
            let j3 = spec_ws(s, j2);
            if j3 < s.len() && s[j3] == ':' {
                Some((k, spec_ws(s, j3 + 1)))
            } else {
                None
            }
        },
    }
}

pub(crate) fn parse_any_key(s: &str, i: usize) -> (r: Option<(String, usize)>)
    requires
        i <= s@.len(),
    ensures
        (match (r, spec_any_key(s@, i as int)) {
            (Some(p), Some(g)) => p.0@ == g.0 && p.1 == g.1 && i < p.1 <= s@.len(),
            (None, None) => true,
            _ => false,
        }),
{
    let j = skip_ws(s, i);
    match parse_string(s, j) {
        None => None,
        Some((k, j2)) => {
            let j3 = skip_ws(s, j2);
            let n = s.unicode_len();
            if j3 < n && s.get_char(j3) == ':' {
                Some((k, skip_ws(s, j3 + 1)))
            } else {
                None
            }
        },
    }
}

/// End of the fraction part of a number, if one stands at `i`.
pub open spec fn spec_frac_end(s: Seq<char>, i: int) -> Option<int> {
    if 0 <= i < s.len() && s[i] == '.' {
        let e = spec_digits_end(s, i + 1);
        if e == i + 1 {
            None
        } else {
            Some(e)
        }
    } else {
        Some(i)
    }
}

/// End of the exponent part of a number, if one stands at `i`.
pub open spec fn spec_exp_end(s: Seq<char>, i: int) -> Option<int> {
    if 0 <= i < s.len() && (s[i] == 'e' || s[i] == 'E') {
        let d = if i + 1 < s.len() && (s[i + 1] == '+' || s[i + 1] == '-') {
            i + 2
        } else {
            i + 1
        };
        let e = spec_digits_end(s, d);
        if e == d {
            None
        } else {
            Some(e)
        }
    } else {
        Some(i)
    }
}

/// End of a JSON number at `i`: optional sign, an integer part with no
/// leading zero, optional fraction and exponent.  Only skipped members
/// carry fractions or exponents; the records' own fields are integers.
pub open spec fn spec_skip_number(s: Seq<char>, i: int) -> Option<int> {
    if !(0 <= i < s.len()) {
        None
    } else {
        let d0 = if s[i] == '-' {
            i + 1
        } else {
            i
        };
        let e = spec_digits_end(s, d0);
        if e == d0 {
            None
        } else if e - d0 > 1 && s[d0] == '0' {
            None
        } else {
            match spec_frac_end(s, e) {
                None => None,
                Some(f) => spec_exp_end(s, f),
            }
        }
    }
}

fn scan_digits(s: &str, i: usize) -> (r: usize)
    requires
        i <= s@.len(),
    ensures
        r == spec_digits_end(s@, i as int),
        i <= r <= s@.len(),
{
    let n = s.unicode_len();
    let mut k = i;
    loop
        invariant
            i <= k <= n,
            n == s@.len(),
            spec_digits_end(s@, i as int) == spec_digits_end(s@, k as int),
        decreases n - k,
    {
        if k < n && is_digit_char(s.get_char(k)) {
            k = k + 1;
        } else {
            proof {
                lemma_digits_end_bounds(s@, k as int);
            }
            return k;
        }
    }
}

fn skip_number(s: &str, i: usize) -> (r: Option<usize>)
    requires
        i <= s@.len(),
    ensures
        (match (r, spec_skip_number(s@, i as int)) {
            (Some(p), Some(g)) => p == g && i < p <= s@.len(),
            (None, None) => true,
            _ => false,
        }),
{
    let n = s.unicode_len();
    if i >= n {
        return None;
    }
    let d0 = if s.get_char(i) == '-' {
        i + 1
    } else {
        i
    };
    let e = scan_digits(s, d0);
    if e == d0 {
        return None;
    }
    if e - d0 > 1 && s.get_char(d0) == '0' {
        return None;
    }
    let f = if e < n && s.get_char(e) == '.' {
        let fe = scan_digits(s, e + 1);
        if fe == e + 1 {
            return None;
        }
        fe
    } else {
        e
    };
    if f < n && (s.get_char(f) == 'e' || s.get_char(f) == 'E') {
        let d = if f + 1 < n && (s.get_char(f + 1) == '+' || s.get_char(f + 1) == '-') {
            f + 2
        } else {
            f + 1
        };
        let ee = scan_digits(s, d);
        if ee == d {
            return None;
        }
        Some(ee)
    } else {
        Some(f)
    }
}

/// End of any JSON value at `i`: an object, an array, a string, a number,
/// or one of the literals.  Used to skip members the records do not know.
pub open spec fn spec_skip_value(s: Seq<char>, i: int) -> Option<int>
    decreases s.len() - i, 0int,
{
    if !(0 <= i <= s.len()) {
        None
    } else {
        let j = spec_ws(s, i);
        if j < i || j >= s.len() {
            None
        } else if s[j] == '"' {
            match spec_string(s, j) {
                None => None,
                Some(p) => Some(p.1),
            }
        } else if s[j] == '{' {
            let j2 = spec_ws(s, j + 1);
            if j2 < s.len() && s[j2] == '}' {
                Some(j2 + 1)
            } else {
                spec_skip_members(s, j + 1)
            }
        } else if s[j] == '[' {
            let j2 = spec_ws(s, j + 1);
            if j2 < s.len() && s[j2] == ']' {
                Some(j2 + 1)
            } else {
                spec_skip_elems(s, j + 1)
            }
        } else if s[j] == 't' {
            if j + 4 <= s.len() && s[j + 1] == 'r' && s[j + 2] == 'u' && s[j + 3] == 'e' {
                Some(j + 4)
            } else {
                None
            }
        } else if s[j] == 'f' {
            if j + 5 <= s.len() && s[j + 1] == 'a' && s[j + 2] == 'l' && s[j + 3] == 's' && s[j + 4]
                == 'e' {
                Some(j + 5)
            } else {
                None
            }
        } else if s[j] == 'n' {
            if j + 4 <= s.len() && s[j + 1] == 'u' && s[j + 2] == 'l' && s[j + 3] == 'l' {
                Some(j + 4)
            } else {
                None
            }
        } else {
            spec_skip_number(s, j)
        }
    }
}

/// The members of a skipped object after its opening brace: key-value
/// pairs up to the closing brace.
pub open spec fn spec_skip_members(s: Seq<char>, i: int) -> Option<int>
    decreases s.len() - i, 1int,
{
    if !(0 <= i <= s.len()) {
        None
    } else {
        match spec_any_key(s, i) {
            None => None,
            Some((k, v)) => if v <= i || v > s.len() {
                None
            } else {
                match spec_skip_value(s, v) {
                    None => None,
                    Some(e) => {
                        let j = spec_ws(s, e);
                        if j < s.len() && s[j] == '}' {
                            Some(j + 1)
                        } else if j < s.len() && s[j] == ',' {
                            if j + 1 <= i {
                                None
                            } else {
                                spec_skip_members(s, j + 1)
                            }
                        } else {
                            None
                        }
                    },
                }
            },
        }
    }
}

/// The elements of a skipped array after its opening bracket: values up
/// to the closing bracket.
pub open spec fn spec_skip_elems(s: Seq<char>, i: int) -> Option<int>
    decreases s.len() - i, 1int,
{
    if !(0 <= i <= s.len()) {
        None
    } else {
        match spec_skip_value(s, i) {
            None => None,
            Some(e) => if e <= i {
                None
            } else {
                let j = spec_ws(s, e);
                if j < s.len() && s[j] == ']' {
                    Some(j + 1)
                } else if j < s.len() && s[j] == ',' {
                    if j + 1 <= i {
                        None
                    } else {
                        spec_skip_elems(s, j + 1)
                    }
                } else {
                    None
                }
            },
        }
    }
}

pub(crate) fn skip_value(s: &str, i: usize) -> (r: Option<usize>)
    requires
        i <= s@.len(),
    ensures
        (match (r, spec_skip_value(s@, i as int)) {
            (Some(p), Some(g)) => p == g && i < p <= s@.len(),
            (None, None) => true,
            _ => false,
        }),
    decreases s@.len() - i, 0int,
{
    let n = s.unicode_len();
    let j = skip_ws(s, i);
    if j >= n {
        return None;
    }
    let c = s.get_char(j);
    if c == '"' {
        match parse_string(s, j) {
            None => None,
            Some(p) => Some(p.1),
        }
    } else if c == '{' {
        let j2 = skip_ws(s, j + 1);
        if j2 < n && s.get_char(j2) == '}' {
            Some(j2 + 1)
        } else {
            skip_members(s, j + 1)
        }
    } else if c == '[' {
        let j2 = skip_ws(s, j + 1);
        if j2 < n && s.get_char(j2) == ']' {
            Some(j2 + 1)
        } else {
            skip_elems(s, j + 1)
        }
    } else if c == 't' {
        if n - j >= 4 && s.get_char(j + 1) == 'r' && s.get_char(j + 2) == 'u' && s.get_char(j + 3)
            == 'e' {
            Some(j + 4)
        } else {
            None
        }
    } else if c == 'f' {
        if n - j >= 5 && s.get_char(j + 1) == 'a' && s.get_char(j + 2) == 'l' && s.get_char(j + 3)
            == 's' && s.get_char(j + 4) == 'e' {
            Some(j + 5)
        } else {
            None
        }
    } else if c == 'n' {
        if n - j >= 4 && s.get_char(j + 1) == 'u' && s.get_char(j + 2) == 'l' && s.get_char(j + 3)
            == 'l' {
            Some(j + 4)
        } else {
            None
        }
    } else {
        skip_number(s, j)
    }
}

fn skip_members(s: &str, i: usize) -> (r: Option<usize>)
    requires
        i <= s@.len(),
    ensures
        (match (r, spec_skip_members(s@, i as int)) {
            (Some(p), Some(g)) => p == g && i < p <= s@.len(),
            (None, None) => true,
            _ => false,
        }),
    decreases s@.len() - i, 1int,
{
    let n = s.unicode_len();
    match parse_any_key(s, i) {
        None => None,
        Some((_k, v)) => match skip_value(s, v) {
            None => None,
            Some(e) => {
                let j = skip_ws(s, e);
                if j < n && s.get_char(j) == '}' {
                    Some(j + 1)
                } else if j < n && s.get_char(j) == ',' {
                    skip_members(s, j + 1)
                } else {
                    None
                }
            },
        },
    }
}

fn skip_elems(s: &str, i: usize) -> (r: Option<usize>)
    requires
        i <= s@.len(),
    ensures
        (match (r, spec_skip_elems(s@, i as int)) {
            (Some(p), Some(g)) => p == g && i < p <= s@.len(),
            (None, None) => true,
            _ => false,
        }),
    decreases s@.len() - i, 1int,
{
    let n = s.unicode_len();
    match skip_value(s, i) {
        None => None,
        Some(e) => {
            let j = skip_ws(s, e);
            if j < n && s.get_char(j) == ']' {
                Some(j + 1)
            } else if j < n && s.get_char(j) == ',' {
                skip_elems(s, j + 1)
            } else {
                None
            }
        },
    }
}

/// The view of an optional owned string.
pub open spec fn opt_str_v(o: Option<String>) -> Option<Seq<char>> {
    match o {
        None => None,
        Some(x) => Some(x@),
    }
}

/// The view of an optional 32-bit integer.
pub open spec fn opt_i32_v(o: Option<i32>) -> Option<int> {
    match o {
        None => None,
        Some(x) => Some(x as int),
    }
}

/// The view of an optional tallies record.
pub open spec fn opt_ac_v(o: Option<AssetsCount>) -> Option<AssetsCountV> {
    match o {
        None => None,
        Some(x) => Some(x@),
    }
}

/// The view of an optional identity record.
pub open spec fn opt_user_v(o: Option<User>) -> Option<UserV> {
    match o {
        None => None,
        Some(x) => Some(x@),
    }
}

/// The view of an optional stats record.
pub open spec fn opt_ud_v(o: Option<UserData>) -> Option<UserDataV> {
    match o {
        None => None,
        Some(x) => Some(x@),
    }
}

/// All counts of a tallies record are non-negative.
pub open spec fn ac_counts_ok(c: AssetsCount) -> bool {
    c.skins >= 0 && c.mapres >= 0 && c.gameskins >= 0 && c.emoticons >= 0 && c.cursors >= 0
        && c.particles >= 0 && c.entities >= 0 && c.fonts >= 0 && c.grid_template >= 0
}

/// All counts of a stats record are non-negative.
pub open spec fn ud_counts_ok(d: UserData) -> bool {
    d.total_count >= 0 && ac_counts_ok(d.assets_count)
}

/// One member of a upload-count record body, then the rest.
pub open spec fn spec_fd_members(s: Seq<char>, i: int, p_name: Option<Seq<char>>, p_count_uploads: Option<int>) -> Option<
    (ForDiscordV, int),
>
    decreases s.len() - i,
{
    match spec_any_key(s, i) {
        None => None,
        Some((k, j)) => if j <= i || j > s.len() {
            None
        } else if k == "name"@ || k == "name"@ {
            if p_name is Some {
                None
            } else {
                match spec_string(s, j) {
                    None => None,
                    Some((v, j2)) => if j2 <= j || j2 > s.len() {
                        None
                    } else {
                        spec_fd_after(s, j2, Some(v), p_count_uploads)
                    },
                }
            }
        } else if k == "count_uploads"@ || k == "count_uploads"@ {
            if p_count_uploads is Some {
                None
            } else {
                match spec_int(s, j) {
                    None => None,
                    Some((v, j2)) => if !in_i32(v) || v < 0 {
                        None
                    } else if j2 <= j || j2 > s.len() {
                        None
                    } else {
                        spec_fd_after(s, j2, p_name, Some(v))
                    },
                }
            }
        } else {
            match spec_skip_value(s, j) {
                None => None,
                Some(j2) => if j2 <= j || j2 > s.len() {
                    None
                } else {
                    spec_fd_after(s, j2, p_name, p_count_uploads)
                },
            }
        },
    }
}

/// After a member of a upload-count record body: another member or the end.
pub open spec fn spec_fd_after(s: Seq<char>, i: int, p_name: Option<Seq<char>>, p_count_uploads: Option<int>) -> Option<
    (ForDiscordV, int),
>
    decreases s.len() - i,
{
    let j = spec_ws(s, i);
    if j < i {
        None
    } else if j < s.len() && s[j] == '}' {
        match (p_name, p_count_uploads) {
            (Some(v_name), Some(v_count_uploads)) => Some((ForDiscordV { name: v_name, count_uploads: v_count_uploads }, j + 1)),
            _ => None,
        }
    } else if j < s.len() && s[j] == ',' {
        spec_fd_members(s, j + 1, p_name, p_count_uploads)
    } else {
        None
    }
}

/// A upload-count record object at `i`: members in any order, each required
/// exactly once, unknown members skipped.
pub open spec fn spec_for_discord(s: Seq<char>, i: int) -> Option<(ForDiscordV, int)> {
    let j = spec_ws(s, i);
    if j < s.len() && s[j] == '{' {
        let j2 = spec_ws(s, j + 1);
        if j2 < s.len() && s[j2] == '}' {
            None
        } else {
            spec_fd_members(s, j + 1, None, None)
        }
    } else {
        None
    }
}

#[verifier::rlimit(60)]
pub(crate) fn parse_fd_members(s: &str, i: usize, p_name: Option<String>, p_count_uploads: Option<i32>) -> (r: Option<
    (ForDiscord, usize),
>)
    requires
        i <= s@.len(),
        (p_count_uploads matches Some(x) ==> x >= 0),
    ensures
        (match (r, spec_fd_members(s@, i as int, opt_str_v(p_name), opt_i32_v(p_count_uploads))) {
            (Some(p), Some(g)) => p.0@ == g.0 && p.1 == g.1 && i < p.1 <= s@.len(),
            (None, None) => true,
            _ => false,
        }),
        (r matches Some(p) ==> p.0.count_uploads >= 0),
    decreases s@.len() - i,
{
    match parse_any_key(s, i) {
        None => None,
        Some((k, j)) => {
            if str_eq(k.as_str(), "name") {
                if p_name.is_some() {
                    return None;
                }
                match parse_string(s, j) {
                    None => None,
                    Some((v, j2)) => parse_fd_after(s, j2, Some(v), p_count_uploads),
                }
            } else if str_eq(k.as_str(), "count_uploads") {
                if p_count_uploads.is_some() {
                    return None;
                }
                match parse_int(s, j) {
                    None => None,
                    Some((v, j2)) => {
                        if v < 0 || v > 2147483647i64 {
                            return None;
                        }
                        let v = v as i32;
                        parse_fd_after(s, j2, p_name, Some(v))
                    },
                }
            } else {
                match skip_value(s, j) {
                    None => None,
                    Some(j2) => parse_fd_after(s, j2, p_name, p_count_uploads),
                }
            }
        },
    }
}

#[verifier::rlimit(60)]
pub(crate) fn parse_fd_after(s: &str, i: usize, p_name: Option<String>, p_count_uploads: Option<i32>) -> (r: Option<
    (ForDiscord, usize),
>)
    requires
        i <= s@.len(),
        (p_count_uploads matches Some(x) ==> x >= 0),
    ensures
        (match (r, spec_fd_after(s@, i as int, opt_str_v(p_name), opt_i32_v(p_count_uploads))) {
            (Some(p), Some(g)) => p.0@ == g.0 && p.1 == g.1 && i <= p.1 <= s@.len(),
            (None, None) => true,
            _ => false,
        }),
        (r matches Some(p) ==> p.0.count_uploads >= 0),
    decreases s@.len() - i,
{
    let n = s.unicode_len();
    let j = skip_ws(s, i);
    if j < n && s.get_char(j) == '}' {
        match (p_name, p_count_uploads) {
            (Some(v_name), Some(v_count_uploads)) => Some((ForDiscord { name: v_name, count_uploads: v_count_uploads }, j + 1)),
            _ => None,
        }
    } else if j < n && s.get_char(j) == ',' {
        parse_fd_members(s, j + 1, p_name, p_count_uploads)
    } else {
        None
    }
}

pub(crate) fn parse_for_discord(s: &str, i: usize) -> (r: Option<(ForDiscord, usize)>)
    requires
        i <= s@.len(),
    ensures
        (match (r, spec_for_discord(s@, i as int)) {
            (Some(p), Some(g)) => p.0@ == g.0 && p.1 == g.1 && i < p.1 <= s@.len(),
            (None, None) => true,
            _ => false,
        }),
        (r matches Some(p) ==> p.0.count_uploads >= 0),
{
    let n = s.unicode_len();
    let j = skip_ws(s, i);
    if j < n && s.get_char(j) == '{' {
        let j2 = skip_ws(s, j + 1);
        if j2 < n && s.get_char(j2) == '}' {
            None
        } else {
            parse_fd_members(s, j + 1, None, None)
        }
    } else {
        None
    }
}

/// One member of a per-category tallies (wire key `gridTemplates` accepted) body, then the rest.
pub open spec fn spec_ac_members(s: Seq<char>, i: int, p_skins: Option<int>, p_mapres: Option<int>, p_gameskins: Option<int>, p_emoticons: Option<int>, p_cursors: Option<int>, p_particles: Option<int>, p_entities: Option<int>, p_fonts: Option<int>, p_grid_template: Option<int>) -> Option<
    (AssetsCountV, int),
>
    decreases s.len() - i,
{
    match spec_any_key(s, i) {
        None => None,
        Some((k, j)) => if j <= i || j > s.len() {
            None
        } else if k == "skins"@ || k == "skins"@ {
            if p_skins is Some {
                None
            } else {
                match spec_int(s, j) {
                    None => None,
                    Some((v, j2)) => if !in_i32(v) || v < 0 {
                        None
                    } else if j2 <= j || j2 > s.len() {
                        None
                    } else {
                        spec_ac_after(s, j2, Some(v), p_mapres, p_gameskins, p_emoticons, p_cursors, p_particles, p_entities, p_fonts, p_grid_template)
                    },
                }
            }
        } else if k == "mapres"@ || k == "mapres"@ {
            if p_mapres is Some {
                None
            } else {
                match spec_int(s, j) {
                    None => None,
                    Some((v, j2)) => if !in_i32(v) || v < 0 {
                        None
                    } else if j2 <= j || j2 > s.len() {
                        None
                    } else {
                        spec_ac_after(s, j2, p_skins, Some(v), p_gameskins, p_emoticons, p_cursors, p_particles, p_entities, p_fonts, p_grid_template)
                    },
                }
            }
        } else if k == "gameskins"@ || k == "gameskins"@ {
            if p_gameskins is Some {
                None
            } else {
                match spec_int(s, j) {
                    None => None,
                    Some((v, j2)) => if !in_i32(v) || v < 0 {
                        None
                    } else if j2 <= j || j2 > s.len() {
                        None
                    } else {
                        spec_ac_after(s, j2, p_skins, p_mapres, Some(v), p_emoticons, p_cursors, p_particles, p_entities, p_fonts, p_grid_template)
                    },
                }
            }
        } else if k == "emoticons"@ || k == "emoticons"@ {
            if p_emoticons is Some {
                None
            } else {
                match spec_int(s, j) {
                    None => None,
                    Some((v, j2)) => if !in_i32(v) || v < 0 {
                        None
                    } else if j2 <= j || j2 > s.len() {
                        None
                    } else {
                        spec_ac_after(s, j2, p_skins, p_mapres, p_gameskins, Some(v), p_cursors, p_particles, p_entities, p_fonts, p_grid_template)
                    },
                }
            }
        } else if k == "cursors"@ || k == "cursors"@ {
            if p_cursors is Some {
                None
            } else {
                match spec_int(s, j) {
                    None => None,
                    Some((v, j2)) => if !in_i32(v) || v < 0 {
                        None
                    } else if j2 <= j || j2 > s.len() {
                        None
                    } else {
                        spec_ac_after(s, j2, p_skins, p_mapres, p_gameskins, p_emoticons, Some(v), p_particles, p_entities, p_fonts, p_grid_template)
                    },
                }
            }
        } else if k == "particles"@ || k == "particles"@ {
            if p_particles is Some {
                None
            } else {
                match spec_int(s, j) {
                    None => None,
                    Some((v, j2)) => if !in_i32(v) || v < 0 {
                        None
                    } else if j2 <= j || j2 > s.len() {
                        None
                    } else {
                        spec_ac_after(s, j2, p_skins, p_mapres, p_gameskins, p_emoticons, p_cursors, Some(v), p_entities, p_fonts, p_grid_template)
                    },
                }
            }
        } else if k == "entities"@ || k == "entities"@ {
            if p_entities is Some {
                None
            } else {
                match spec_int(s, j) {
                    None => None,
                    Some((v, j2)) => if !in_i32(v) || v < 0 {
                        None
                    } else if j2 <= j || j2 > s.len() {
                        None
                    } else {
                        spec_ac_after(s, j2, p_skins, p_mapres, p_gameskins, p_emoticons, p_cursors, p_particles, Some(v), p_fonts, p_grid_template)
                    },
                }
            }
        } else if k == "fonts"@ || k == "fonts"@ {
            if p_fonts is Some {
                None
            } else {
                match spec_int(s, j) {
                    None => None,
                    Some((v, j2)) => if !in_i32(v) || v < 0 {
                        None
                    } else if j2 <= j || j2 > s.len() {
                        None
                    } else {
                        spec_ac_after(s, j2, p_skins, p_mapres, p_gameskins, p_emoticons, p_cursors, p_particles, p_entities, Some(v), p_grid_template)
                    },
                }
            }
        } else if k == "grid_template"@ || k == "gridTemplates"@ {
            if p_grid_template is Some {
                None
            } else {
                match spec_int(s, j) {
                    None => None,
                    Some((v, j2)) => if !in_i32(v) || v < 0 {
                        None
                    } else if j2 <= j || j2 > s.len() {
                        None
                    } else {
                        spec_ac_after(s, j2, p_skins, p_mapres, p_gameskins, p_emoticons, p_cursors, p_particles, p_entities, p_fonts, Some(v))
                    },
                }
            }
        } else {
            match spec_skip_value(s, j) {
                None => None,
                Some(j2) => if j2 <= j || j2 > s.len() {
                    None
                } else {
                    spec_ac_after(s, j2, p_skins, p_mapres, p_gameskins, p_emoticons, p_cursors, p_particles, p_entities, p_fonts, p_grid_template)
                },
            }
        },
    }
}

/// After a member of a per-category tallies (wire key `gridTemplates` accepted) body: another member or the end.
pub open spec fn spec_ac_after(s: Seq<char>, i: int, p_skins: Option<int>, p_mapres: Option<int>, p_gameskins: Option<int>, p_emoticons: Option<int>, p_cursors: Option<int>, p_particles: Option<int>, p_entities: Option<int>, p_fonts: Option<int>, p_grid_template: Option<int>) -> Option<
    (AssetsCountV, int),
>
    decreases s.len() - i,
{
    let j = spec_ws(s, i);
    if j < i {
        None
    } else if j < s.len() && s[j] == '}' {
        match (p_skins, p_mapres, p_gameskins, p_emoticons, p_cursors, p_particles, p_entities, p_fonts, p_grid_template) {
            (Some(v_skins), Some(v_mapres), Some(v_gameskins), Some(v_emoticons), Some(v_cursors), Some(v_particles), Some(v_entities), Some(v_fonts), Some(v_grid_template)) => if v_skins < 0 || v_mapres < 0 || v_gameskins < 0 || v_emoticons < 0 || v_cursors < 0 || v_particles < 0 || v_entities < 0 || v_fonts < 0 || v_grid_template < 0 {
                None
            } else {
                Some((AssetsCountV { skins: v_skins, mapres: v_mapres, gameskins: v_gameskins, emoticons: v_emoticons, cursors: v_cursors, particles: v_particles, entities: v_entities, fonts: v_fonts, grid_template: v_grid_template }, j + 1))
            },
            _ => None,
        }
    } else if j < s.len() && s[j] == ',' {
        spec_ac_members(s, j + 1, p_skins, p_mapres, p_gameskins, p_emoticons, p_cursors, p_particles, p_entities, p_fonts, p_grid_template)
    } else {
        None
    }
}

/// A per-category tallies (wire key `gridTemplates` accepted) object at `i`: members in any order, each required
/// exactly once, unknown members skipped.
pub open spec fn spec_assets_count(s: Seq<char>, i: int) -> Option<(AssetsCountV, int)> {
    let j = spec_ws(s, i);
    if j < s.len() && s[j] == '{' {
        let j2 = spec_ws(s, j + 1);
        if j2 < s.len() && s[j2] == '}' {
            None
        } else {
            spec_ac_members(s, j + 1, None, None, None, None, None, None, None, None, None)
        }
    } else {
        None
    }
}

#[verifier::rlimit(100)]
pub(crate) fn parse_ac_members(s: &str, i: usize, p_skins: Option<i32>, p_mapres: Option<i32>, p_gameskins: Option<i32>, p_emoticons: Option<i32>, p_cursors: Option<i32>, p_particles: Option<i32>, p_entities: Option<i32>, p_fonts: Option<i32>, p_grid_template: Option<i32>) -> (r: Option<
    (AssetsCount, usize),
>)
    requires
        i <= s@.len(),
    ensures
        (match (r, spec_ac_members(s@, i as int, opt_i32_v(p_skins), opt_i32_v(p_mapres), opt_i32_v(p_gameskins), opt_i32_v(p_emoticons), opt_i32_v(p_cursors), opt_i32_v(p_particles), opt_i32_v(p_entities), opt_i32_v(p_fonts), opt_i32_v(p_grid_template))) {
            (Some(p), Some(g)) => p.0@ == g.0 && p.1 == g.1 && i < p.1 <= s@.len() && p.0.skins
                >= 0 && p.0.mapres >= 0 && p.0.gameskins >= 0 && p.0.emoticons >= 0 && p.0.cursors
                >= 0 && p.0.particles >= 0 && p.0.entities >= 0 && p.0.fonts >= 0
                && p.0.grid_template >= 0,
            (None, None) => true,
            _ => false,
        }),
    decreases s@.len() - i,
{
    match parse_any_key(s, i) {
        None => None,
        Some((k, j)) => {
            if str_eq(k.as_str(), "skins") {
                if p_skins.is_some() {
                    return None;
                }
                match parse_int(s, j) {
                    None => None,
                    Some((v, j2)) => {
                        if v < 0 || v > 2147483647i64 {
                            return None;
                        }
                        let v = v as i32;
                        parse_ac_after(s, j2, Some(v), p_mapres, p_gameskins, p_emoticons, p_cursors, p_particles, p_entities, p_fonts, p_grid_template)
                    },
                }
            } else if str_eq(k.as_str(), "mapres") {
                if p_mapres.is_some() {
                    return None;
                }
                match parse_int(s, j) {
                    None => None,
                    Some((v, j2)) => {
                        if v < 0 || v > 2147483647i64 {
                            return None;
                        }
                        let v = v as i32;
                        parse_ac_after(s, j2, p_skins, Some(v), p_gameskins, p_emoticons, p_cursors, p_particles, p_entities, p_fonts, p_grid_template)
                    },
                }
            } else if str_eq(k.as_str(), "gameskins") {
                if p_gameskins.is_some() {
                    return None;
                }
                match parse_int(s, j) {
                    None => None,
                    Some((v, j2)) => {
                        if v < 0 || v > 2147483647i64 {
                            return None;
                        }
                        let v = v as i32;
                        parse_ac_after(s, j2, p_skins, p_mapres, Some(v), p_emoticons, p_cursors, p_particles, p_entities, p_fonts, p_grid_template)
                    },
                }
            } else if str_eq(k.as_str(), "emoticons") {
                if p_emoticons.is_some() {
                    return None;
                }
                match parse_int(s, j) {
                    None => None,
                    Some((v, j2)) => {
                        if v < 0 || v > 2147483647i64 {
                            return None;
                        }
                        let v = v as i32;
                        parse_ac_after(s, j2, p_skins, p_mapres, p_gameskins, Some(v), p_cursors, p_particles, p_entities, p_fonts, p_grid_template)
                    },
                }
            } else if str_eq(k.as_str(), "cursors") {
                if p_cursors.is_some() {
                    return None;
                }
                match parse_int(s, j) {
                    None => None,
                    Some((v, j2)) => {
                        if v < 0 || v > 2147483647i64 {
                            return None;
                        }
                        let v = v as i32;
                        parse_ac_after(s, j2, p_skins, p_mapres, p_gameskins, p_emoticons, Some(v), p_particles, p_entities, p_fonts, p_grid_template)
                    },
                }
            } else if str_eq(k.as_str(), "particles") {
                if p_particles.is_some() {
                    return None;
                }
                match parse_int(s, j) {
                    None => None,
                    Some((v, j2)) => {
                        if v < 0 || v > 2147483647i64 {
                            return None;
                        }
                        let v = v as i32;
                        parse_ac_after(s, j2, p_skins, p_mapres, p_gameskins, p_emoticons, p_cursors, Some(v), p_entities, p_fonts, p_grid_template)
                    },
                }
            } else if str_eq(k.as_str(), "entities") {
                if p_entities.is_some() {
                    return None;
                }
                match parse_int(s, j) {
                    None => None,
                    Some((v, j2)) => {
                        if v < 0 || v > 2147483647i64 {
                            return None;
                        }
                        let v = v as i32;
                        parse_ac_after(s, j2, p_skins, p_mapres, p_gameskins, p_emoticons, p_cursors, p_particles, Some(v), p_fonts, p_grid_template)
                    },
                }
            } else if str_eq(k.as_str(), "fonts") {
                if p_fonts.is_some() {
                    return None;
                }
                match parse_int(s, j) {
                    None => None,
                    Some((v, j2)) => {
                        if v < 0 || v > 2147483647i64 {
                            return None;
                        }
                        let v = v as i32;
                        parse_ac_after(s, j2, p_skins, p_mapres, p_gameskins, p_emoticons, p_cursors, p_particles, p_entities, Some(v), p_grid_template)
                    },
                }
            } else if str_eq(k.as_str(), "grid_template") || str_eq(k.as_str(), "gridTemplates") {
                if p_grid_template.is_some() {
                    return None;
                }
                match parse_int(s, j) {
                    None => None,
                    Some((v, j2)) => {
                        if v < 0 || v > 2147483647i64 {
                            return None;
                        }
                        let v = v as i32;
                        parse_ac_after(s, j2, p_skins, p_mapres, p_gameskins, p_emoticons, p_cursors, p_particles, p_entities, p_fonts, Some(v))
                    },
                }
            } else {
                match skip_value(s, j) {
                    None => None,
                    Some(j2) => parse_ac_after(s, j2, p_skins, p_mapres, p_gameskins, p_emoticons, p_cursors, p_particles, p_entities, p_fonts, p_grid_template),
                }
            }
        },
    }
}

#[verifier::rlimit(100)]
pub(crate) fn parse_ac_after(s: &str, i: usize, p_skins: Option<i32>, p_mapres: Option<i32>, p_gameskins: Option<i32>, p_emoticons: Option<i32>, p_cursors: Option<i32>, p_particles: Option<i32>, p_entities: Option<i32>, p_fonts: Option<i32>, p_grid_template: Option<i32>) -> (r: Option<
    (AssetsCount, usize),
>)
    requires
        i <= s@.len(),
    ensures
        (match (r, spec_ac_after(s@, i as int, opt_i32_v(p_skins), opt_i32_v(p_mapres), opt_i32_v(p_gameskins), opt_i32_v(p_emoticons), opt_i32_v(p_cursors), opt_i32_v(p_particles), opt_i32_v(p_entities), opt_i32_v(p_fonts), opt_i32_v(p_grid_template))) {
            (Some(p), Some(g)) => p.0@ == g.0 && p.1 == g.1 && i <= p.1 <= s@.len(),
            (None, None) => true,
            _ => false,
        }),
        (r matches Some(p) ==> p.0.skins >= 0 && p.0.mapres >= 0 && p.0.gameskins >= 0 && p.0.emoticons >= 0 && p.0.cursors >= 0 && p.0.particles >= 0 && p.0.entities >= 0 && p.0.fonts >= 0 && p.0.grid_template >= 0),
    decreases s@.len() - i,
{
    let n = s.unicode_len();
    let j = skip_ws(s, i);
    if j < n && s.get_char(j) == '}' {
        match (p_skins, p_mapres, p_gameskins, p_emoticons, p_cursors, p_particles, p_entities, p_fonts, p_grid_template) {
            (Some(v_skins), Some(v_mapres), Some(v_gameskins), Some(v_emoticons), Some(v_cursors), Some(v_particles), Some(v_entities), Some(v_fonts), Some(v_grid_template)) => if v_skins < 0 || v_mapres < 0 || v_gameskins < 0 || v_emoticons < 0 || v_cursors < 0 || v_particles < 0 || v_entities < 0 || v_fonts < 0 || v_grid_template < 0 {
                None
            } else {
                Some((AssetsCount { skins: v_skins, mapres: v_mapres, gameskins: v_gameskins, emoticons: v_emoticons, cursors: v_cursors, particles: v_particles, entities: v_entities, fonts: v_fonts, grid_template: v_grid_template }, j + 1))
            },
            _ => None,
        }
    } else if j < n && s.get_char(j) == ',' {
        parse_ac_members(s, j + 1, p_skins, p_mapres, p_gameskins, p_emoticons, p_cursors, p_particles, p_entities, p_fonts, p_grid_template)
    } else {
        None
    }
}

pub(crate) fn parse_assets_count(s: &str, i: usize) -> (r: Option<(AssetsCount, usize)>)
    requires
        i <= s@.len(),
    ensures
        (match (r, spec_assets_count(s@, i as int)) {
            (Some(p), Some(g)) => p.0@ == g.0 && p.1 == g.1 && i < p.1 <= s@.len() && p.0.skins
                >= 0 && p.0.mapres >= 0 && p.0.gameskins >= 0 && p.0.emoticons >= 0 && p.0.cursors
                >= 0 && p.0.particles >= 0 && p.0.entities >= 0 && p.0.fonts >= 0
                && p.0.grid_template >= 0,
            (None, None) => true,
            _ => false,
        }),
{
    let n = s.unicode_len();
    let j = skip_ws(s, i);
    if j < n && s.get_char(j) == '{' {
        let j2 = skip_ws(s, j + 1);
        if j2 < n && s.get_char(j2) == '}' {
            None
        } else {
            parse_ac_members(s, j + 1, None, None, None, None, None, None, None, None, None)
        }
    } else {
        None
    }
}

/// One member of a identity portion of a profile body, then the rest.
pub open spec fn spec_user_members(s: Seq<char>, i: int, p_name: Option<Seq<char>>, p_profile_photo_url: Option<Seq<char>>, p_member_since: Option<Seq<char>>) -> Option<
    (UserV, int),
>
    decreases s.len() - i,
{
    match spec_any_key(s, i) {
        None => None,
        Some((k, j)) => if j <= i || j > s.len() {
            None
        } else if k == "name"@ || k == "name"@ {
            if p_name is Some {
                None
            } else {
                match spec_string(s, j) {
                    None => None,
                    Some((v, j2)) => if j2 <= j || j2 > s.len() {
                        None
                    } else {
                        spec_user_after(s, j2, Some(v), p_profile_photo_url, p_member_since)
                    },
                }
            }
        } else if k == "profile_photo_url"@ || k == "profile_photo_url"@ {
            if p_profile_photo_url is Some {
                None
            } else {
                match spec_string(s, j) {
                    None => None,
                    Some((v, j2)) => if j2 <= j || j2 > s.len() {
                        None
                    } else {
                        spec_user_after(s, j2, p_name, Some(v), p_member_since)
                    },
                }
            }
        } else if k == "member_since"@ || k == "member_since"@ {
            if p_member_since is Some {
                None
            } else {
                match spec_string(s, j) {
                    None => None,
                    Some((v, j2)) => if j2 <= j || j2 > s.len() {
                        None
                    } else {
                        spec_user_after(s, j2, p_name, p_profile_photo_url, Some(v))
                    },
                }
            }
        } else {
            match spec_skip_value(s, j) {
                None => None,
                Some(j2) => if j2 <= j || j2 > s.len() {
                    None
                } else {
                    spec_user_after(s, j2, p_name, p_profile_photo_url, p_member_since)
                },
            }
        },
    }
}

/// After a member of a identity portion of a profile body: another member or the end.
pub open spec fn spec_user_after(s: Seq<char>, i: int, p_name: Option<Seq<char>>, p_profile_photo_url: Option<Seq<char>>, p_member_since: Option<Seq<char>>) -> Option<
    (UserV, int),
>
    decreases s.len() - i,
{
    let j = spec_ws(s, i);
    if j < i {
        None
    } else if j < s.len() && s[j] == '}' {
        match (p_name, p_profile_photo_url, p_member_since) {
            (Some(v_name), Some(v_profile_photo_url), Some(v_member_since)) => Some((UserV { name: v_name, profile_photo_url: v_profile_photo_url, member_since: v_member_since }, j + 1)),
            _ => None,
        }
    } else if j < s.len() && s[j] == ',' {
        spec_user_members(s, j + 1, p_name, p_profile_photo_url, p_member_since)
    } else {
        None
    }
}

/// A identity portion of a profile object at `i`: members in any order, each required
/// exactly once, unknown members skipped.
pub open spec fn spec_user(s: Seq<char>, i: int) -> Option<(UserV, int)> {
    let j = spec_ws(s, i);
    if j < s.len() && s[j] == '{' {
        let j2 = spec_ws(s, j + 1);
        if j2 < s.len() && s[j2] == '}' {
            None
        } else {
            spec_user_members(s, j + 1, None, None, None)
        }
    } else {
        None
    }
}

#[verifier::rlimit(60)]
pub(crate) fn parse_user_members(s: &str, i: usize, p_name: Option<String>, p_profile_photo_url: Option<String>, p_member_since: Option<String>) -> (r: Option<
    (User, usize),
>)
    requires
        i <= s@.len(),
    ensures
        (match (r, spec_user_members(s@, i as int, opt_str_v(p_name), opt_str_v(p_profile_photo_url), opt_str_v(p_member_since))) {
            (Some(p), Some(g)) => p.0@ == g.0 && p.1 == g.1 && i < p.1 <= s@.len(),
            (None, None) => true,
            _ => false,
        }),
    decreases s@.len() - i,
{
    match parse_any_key(s, i) {
        None => None,
        Some((k, j)) => {
            if str_eq(k.as_str(), "name") {
                if p_name.is_some() {
                    return None;
                }
                match parse_string(s, j) {
                    None => None,
                    Some((v, j2)) => parse_user_after(s, j2, Some(v), p_profile_photo_url, p_member_since),
                }
            } else if str_eq(k.as_str(), "profile_photo_url") {
                if p_profile_photo_url.is_some() {
                    return None;
                }
                match parse_string(s, j) {
                    None => None,
                    Some((v, j2)) => parse_user_after(s, j2, p_name, Some(v), p_member_since),
                }
            } else if str_eq(k.as_str(), "member_since") {
                if p_member_since.is_some() {
                    return None;
                }
                match parse_string(s, j) {
                    None => None,
                    Some((v, j2)) => parse_user_after(s, j2, p_name, p_profile_photo_url, Some(v)),
                }
            } else {
                match skip_value(s, j) {
                    None => None,
                    Some(j2) => parse_user_after(s, j2, p_name, p_profile_photo_url, p_member_since),
                }
            }
        },
    }
}

#[verifier::rlimit(60)]
pub(crate) fn parse_user_after(s: &str, i: usize, p_name: Option<String>, p_profile_photo_url: Option<String>, p_member_since: Option<String>) -> (r: Option<
    (User, usize),
>)
    requires
        i <= s@.len(),
    ensures
        (match (r, spec_user_after(s@, i as int, opt_str_v(p_name), opt_str_v(p_profile_photo_url), opt_str_v(p_member_since))) {
            (Some(p), Some(g)) => p.0@ == g.0 && p.1 == g.1 && i <= p.1 <= s@.len(),
            (None, None) => true,
            _ => false,
        }),
    decreases s@.len() - i,
{
    let n = s.unicode_len();
    let j = skip_ws(s, i);
    if j < n && s.get_char(j) == '}' {
        match (p_name, p_profile_photo_url, p_member_since) {
            (Some(v_name), Some(v_profile_photo_url), Some(v_member_since)) => Some((User { name: v_name, profile_photo_url: v_profile_photo_url, member_since: v_member_since }, j + 1)),
            _ => None,
        }
    } else if j < n && s.get_char(j) == ',' {
        parse_user_members(s, j + 1, p_name, p_profile_photo_url, p_member_since)
    } else {
        None
    }
}

pub(crate) fn parse_user(s: &str, i: usize) -> (r: Option<(User, usize)>)
    requires
        i <= s@.len(),
    ensures
        (match (r, spec_user(s@, i as int)) {
            (Some(p), Some(g)) => p.0@ == g.0 && p.1 == g.1 && i < p.1 <= s@.len(),
            (None, None) => true,
            _ => false,
        }),
{
    let n = s.unicode_len();
    let j = skip_ws(s, i);
    if j < n && s.get_char(j) == '{' {
        let j2 = skip_ws(s, j + 1);
        if j2 < n && s.get_char(j2) == '}' {
            None
        } else {
            parse_user_members(s, j + 1, None, None, None)
        }
    } else {
        None
    }
}

/// One member of a activity stats (wire keys `totalCount` and `assetsCount` accepted) body, then the rest.
pub open spec fn spec_ud_members(s: Seq<char>, i: int, p_rank: Option<int>, p_total_count: Option<int>, p_assets_count: Option<AssetsCountV>) -> Option<
    (UserDataV, int),
>
    decreases s.len() - i,
{
    match spec_any_key(s, i) {
        None => None,
        Some((k, j)) => if j <= i || j > s.len() {
            None
        } else if k == "rank"@ || k == "rank"@ {
            if p_rank is Some {
                None
            } else {
                match spec_int(s, j) {
                    None => None,
                    Some((v, j2)) => if !in_i32(v) {
                        None
                    } else if j2 <= j || j2 > s.len() {
                        None
                    } else {
                        spec_ud_after(s, j2, Some(v), p_total_count, p_assets_count)
                    },
                }
            }
        } else if k == "total_count"@ || k == "totalCount"@ {
            if p_total_count is Some {
                None
            } else {
                match spec_int(s, j) {
                    None => None,
                    Some((v, j2)) => if !in_i32(v) || v < 0 {
                        None
                    } else if j2 <= j || j2 > s.len() {
                        None
                    } else {
                        spec_ud_after(s, j2, p_rank, Some(v), p_assets_count)
                    },
                }
            }
        } else if k == "assets_count"@ || k == "assetsCount"@ {
            if p_assets_count is Some {
                None
            } else {
                match spec_assets_count(s, j) {
                    None => None,
                    Some((v, j2)) => if j2 <= j || j2 > s.len() {
                        None
                    } else {
                        spec_ud_after(s, j2, p_rank, p_total_count, Some(v))
                    },
                }
            }
        } else {
            match spec_skip_value(s, j) {
                None => None,
                Some(j2) => if j2 <= j || j2 > s.len() {
                    None
                } else {
                    spec_ud_after(s, j2, p_rank, p_total_count, p_assets_count)
                },
            }
        },
    }
}

/// After a member of a activity stats (wire keys `totalCount` and `assetsCount` accepted) body: another member or the end.
pub open spec fn spec_ud_after(s: Seq<char>, i: int, p_rank: Option<int>, p_total_count: Option<int>, p_assets_count: Option<AssetsCountV>) -> Option<
    (UserDataV, int),
>
    decreases s.len() - i,
{
    let j = spec_ws(s, i);
    if j < i {
        None
    } else if j < s.len() && s[j] == '}' {
        match (p_rank, p_total_count, p_assets_count) {
            (Some(v_rank), Some(v_total_count), Some(v_assets_count)) => Some((UserDataV { rank: v_rank, total_count: v_total_count, assets_count: v_assets_count }, j + 1)),
            _ => None,
        }
    } else if j < s.len() && s[j] == ',' {
        spec_ud_members(s, j + 1, p_rank, p_total_count, p_assets_count)
    } else {
        None
    }
}

/// A activity stats (wire keys `totalCount` and `assetsCount` accepted) object at `i`: members in any order, each required
/// exactly once, unknown members skipped.
pub open spec fn spec_user_data(s: Seq<char>, i: int) -> Option<(UserDataV, int)> {
    let j = spec_ws(s, i);
    if j < s.len() && s[j] == '{' {
        let j2 = spec_ws(s, j + 1);
        if j2 < s.len() && s[j2] == '}' {
            None
        } else {
            spec_ud_members(s, j + 1, None, None, None)
        }
    } else {
        None
    }
}

#[verifier::rlimit(60)]
pub(crate) fn parse_ud_members(s: &str, i: usize, p_rank: Option<i32>, p_total_count: Option<i32>, p_assets_count: Option<AssetsCount>) -> (r: Option<
    (UserData, usize),
>)
    requires
        i <= s@.len(),
        (p_total_count matches Some(x) ==> x >= 0),
        (p_assets_count matches Some(x) ==> ac_counts_ok(x)),
    ensures
        (match (r, spec_ud_members(s@, i as int, opt_i32_v(p_rank), opt_i32_v(p_total_count), opt_ac_v(p_assets_count))) {
            (Some(p), Some(g)) => p.0@ == g.0 && p.1 == g.1 && i < p.1 <= s@.len(),
            (None, None) => true,
            _ => false,
        }),
        (r matches Some(p) ==> p.0.total_count >= 0 && ac_counts_ok(p.0.assets_count)),
    decreases s@.len() - i,
{
    match parse_any_key(s, i) {
        None => None,
        Some((k, j)) => {
            if str_eq(k.as_str(), "rank") {
                if p_rank.is_some() {
                    return None;
                }
                match parse_int(s, j) {
                    None => None,
                    Some((v, j2)) => {
                        if v < -2147483648i64 || v > 2147483647i64 {
                            return None;
                        }
                        let v = v as i32;
                        parse_ud_after(s, j2, Some(v), p_total_count, p_assets_count)
                    },
                }
            } else if str_eq(k.as_str(), "total_count") || str_eq(k.as_str(), "totalCount") {
                if p_total_count.is_some() {
                    return None;
                }
                match parse_int(s, j) {
                    None => None,
                    Some((v, j2)) => {
                        if v < 0 || v > 2147483647i64 {
                            return None;
                        }
                        let v = v as i32;
                        parse_ud_after(s, j2, p_rank, Some(v), p_assets_count)
                    },
                }
            } else if str_eq(k.as_str(), "assets_count") || str_eq(k.as_str(), "assetsCount") {
                if p_assets_count.is_some() {
                    return None;
                }
                match parse_assets_count(s, j) {
                    None => None,
                    Some((v, j2)) => parse_ud_after(s, j2, p_rank, p_total_count, Some(v)),
                }
            } else {
                match skip_value(s, j) {
                    None => None,
                    Some(j2) => parse_ud_after(s, j2, p_rank, p_total_count, p_assets_count),
                }
            }
        },
    }
}

#[verifier::rlimit(60)]
pub(crate) fn parse_ud_after(s: &str, i: usize, p_rank: Option<i32>, p_total_count: Option<i32>, p_assets_count: Option<AssetsCount>) -> (r: Option<
    (UserData, usize),
>)
    requires
        i <= s@.len(),
        (p_total_count matches Some(x) ==> x >= 0),
        (p_assets_count matches Some(x) ==> ac_counts_ok(x)),
    ensures
        (match (r, spec_ud_after(s@, i as int, opt_i32_v(p_rank), opt_i32_v(p_total_count), opt_ac_v(p_assets_count))) {
            (Some(p), Some(g)) => p.0@ == g.0 && p.1 == g.1 && i <= p.1 <= s@.len(),
            (None, None) => true,
            _ => false,
        }),
        (r matches Some(p) ==> p.0.total_count >= 0 && ac_counts_ok(p.0.assets_count)),
    decreases s@.len() - i,
{
    let n = s.unicode_len();
    let j = skip_ws(s, i);
    if j < n && s.get_char(j) == '}' {
        match (p_rank, p_total_count, p_assets_count) {
            (Some(v_rank), Some(v_total_count), Some(v_assets_count)) => Some((UserData { rank: v_rank, total_count: v_total_count, assets_count: v_assets_count }, j + 1)),
            _ => None,
        }
    } else if j < n && s.get_char(j) == ',' {
        parse_ud_members(s, j + 1, p_rank, p_total_count, p_assets_count)
    } else {
        None
    }
}

pub(crate) fn parse_user_data(s: &str, i: usize) -> (r: Option<(UserData, usize)>)
    requires
        i <= s@.len(),
    ensures
        (match (r, spec_user_data(s@, i as int)) {
            (Some(p), Some(g)) => p.0@ == g.0 && p.1 == g.1 && i < p.1 <= s@.len(),
            (None, None) => true,
            _ => false,
        }),
        (r matches Some(p) ==> p.0.total_count >= 0 && ac_counts_ok(p.0.assets_count)),
{
    let n = s.unicode_len();
    let j = skip_ws(s, i);
    if j < n && s.get_char(j) == '{' {
        let j2 = skip_ws(s, j + 1);
        if j2 < n && s.get_char(j2) == '}' {
            None
        } else {
            parse_ud_members(s, j + 1, None, None, None)
        }
    } else {
        None
    }
}

/// One member of a asset record (wire keys `type` and `isPublic` accepted) body, then the rest.
pub open spec fn spec_asset_members(s: Seq<char>, i: int, p_id: Option<int>, p_name: Option<Seq<char>>, p_path: Option<Seq<char>>, p_thumbnail_path: Option<Seq<char>>, p_mime_type: Option<Seq<char>>, p_author: Option<Seq<char>>, p_asset_type: Option<Seq<char>>, p_md5_checksum: Option<Seq<char>>, p_is_public: Option<int>, p_created_at: Option<Seq<char>>, p_updated_at: Option<Seq<char>>) -> Option<
    (AssetV, int),
>
    decreases s.len() - i,
{
    match spec_any_key(s, i) {
        None => None,
        Some((k, j)) => if j <= i || j > s.len() {
            None
        } else if k == "id"@ || k == "id"@ {
            if p_id is Some {
                None
            } else {
                match spec_int(s, j) {
                    None => None,
                    Some((v, j2)) => if !in_i32(v) {
                        None
                    } else if j2 <= j || j2 > s.len() {
                        None
                    } else {
                        spec_asset_after(s, j2, Some(v), p_name, p_path, p_thumbnail_path, p_mime_type, p_author, p_asset_type, p_md5_checksum, p_is_public, p_created_at, p_updated_at)
                    },
                }
            }
        } else if k == "name"@ || k == "name"@ {
            if p_name is Some {
                None
            } else {
                match spec_string(s, j) {
                    None => None,
                    Some((v, j2)) => if j2 <= j || j2 > s.len() {
                        None
                    } else {
                        spec_asset_after(s, j2, p_id, Some(v), p_path, p_thumbnail_path, p_mime_type, p_author, p_asset_type, p_md5_checksum, p_is_public, p_created_at, p_updated_at)
                    },
                }
            }
        } else if k == "path"@ || k == "path"@ {
            if p_path is Some {
                None
            } else {
                match spec_string(s, j) {
                    None => None,
                    Some((v, j2)) => if j2 <= j || j2 > s.len() {
                        None
                    } else {
                        spec_asset_after(s, j2, p_id, p_name, Some(v), p_thumbnail_path, p_mime_type, p_author, p_asset_type, p_md5_checksum, p_is_public, p_created_at, p_updated_at)
                    },
                }
            }
        } else if k == "thumbnail_path"@ || k == "thumbnail_path"@ {
            if p_thumbnail_path is Some {
                None
            } else {
                match spec_string(s, j) {
                    None => None,
                    Some((v, j2)) => if j2 <= j || j2 > s.len() {
                        None
                    } else {
                        spec_asset_after(s, j2, p_id, p_name, p_path, Some(v), p_mime_type, p_author, p_asset_type, p_md5_checksum, p_is_public, p_created_at, p_updated_at)
                    },
                }
            }
        } else if k == "mime_type"@ || k == "mime_type"@ {
            if p_mime_type is Some {
                None
            } else {
                match spec_string(s, j) {
                    None => None,
                    Some((v, j2)) => if j2 <= j || j2 > s.len() {
                        None
                    } else {
                        spec_asset_after(s, j2, p_id, p_name, p_path, p_thumbnail_path, Some(v), p_author, p_asset_type, p_md5_checksum, p_is_public, p_created_at, p_updated_at)
                    },
                }
            }
        } else if k == "author"@ || k == "author"@ {
            if p_author is Some {
                None
            } else {
                match spec_string(s, j) {
                    None => None,
                    Some((v, j2)) => if j2 <= j || j2 > s.len() {
                        None
                    } else {
                        spec_asset_after(s, j2, p_id, p_name, p_path, p_thumbnail_path, p_mime_type, Some(v), p_asset_type, p_md5_checksum, p_is_public, p_created_at, p_updated_at)
                    },
                }
            }
        } else if k == "asset_type"@ || k == "type"@ {
            if p_asset_type is Some {
                None
            } else {
                match spec_string(s, j) {
                    None => None,
                    Some((v, j2)) => if j2 <= j || j2 > s.len() {
                        None
                    } else {
                        spec_asset_after(s, j2, p_id, p_name, p_path, p_thumbnail_path, p_mime_type, p_author, Some(v), p_md5_checksum, p_is_public, p_created_at, p_updated_at)
                    },
                }
            }
        } else if k == "md5_checksum"@ || k == "md5_checksum"@ {
            if p_md5_checksum is Some {
                None
            } else {
                match spec_string(s, j) {
                    None => None,
                    Some((v, j2)) => if j2 <= j || j2 > s.len() {
                        None
                    } else {
                        spec_asset_after(s, j2, p_id, p_name, p_path, p_thumbnail_path, p_mime_type, p_author, p_asset_type, Some(v), p_is_public, p_created_at, p_updated_at)
                    },
                }
            }
        } else if k == "is_public"@ || k == "isPublic"@ {
            if p_is_public is Some {
                None
            } else {
                match spec_int(s, j) {
                    None => None,
                    Some((v, j2)) => if !in_i32(v) {
                        None
                    } else if j2 <= j || j2 > s.len() {
                        None
                    } else {
                        spec_asset_after(s, j2, p_id, p_name, p_path, p_thumbnail_path, p_mime_type, p_author, p_asset_type, p_md5_checksum, Some(v), p_created_at, p_updated_at)
                    },
                }
            }
        } else if k == "created_at"@ || k == "created_at"@ {
            if p_created_at is Some {
                None
            } else {
                match spec_string(s, j) {
                    None => None,
                    Some((v, j2)) => if j2 <= j || j2 > s.len() {
                        None
                    } else {
                        spec_asset_after(s, j2, p_id, p_name, p_path, p_thumbnail_path, p_mime_type, p_author, p_asset_type, p_md5_checksum, p_is_public, Some(v), p_updated_at)
                    },
                }
            }
        } else if k == "updated_at"@ || k == "updated_at"@ {
            if p_updated_at is Some {
                None
            } else {
                match spec_string(s, j) {
                    None => None,
                    Some((v, j2)) => if j2 <= j || j2 > s.len() {
                        None
                    } else {
                        spec_asset_after(s, j2, p_id, p_name, p_path, p_thumbnail_path, p_mime_type, p_author, p_asset_type, p_md5_checksum, p_is_public, p_created_at, Some(v))
                    },
                }
            }
        } else {
            match spec_skip_value(s, j) {
                None => None,
                Some(j2) => if j2 <= j || j2 > s.len() {
                    None
                } else {
                    spec_asset_after(s, j2, p_id, p_name, p_path, p_thumbnail_path, p_mime_type, p_author, p_asset_type, p_md5_checksum, p_is_public, p_created_at, p_updated_at)
                },
            }
        },
    }
}

/// After a member of a asset record (wire keys `type` and `isPublic` accepted) body: another member or the end.
pub open spec fn spec_asset_after(s: Seq<char>, i: int, p_id: Option<int>, p_name: Option<Seq<char>>, p_path: Option<Seq<char>>, p_thumbnail_path: Option<Seq<char>>, p_mime_type: Option<Seq<char>>, p_author: Option<Seq<char>>, p_asset_type: Option<Seq<char>>, p_md5_checksum: Option<Seq<char>>, p_is_public: Option<int>, p_created_at: Option<Seq<char>>, p_updated_at: Option<Seq<char>>) -> Option<
    (AssetV, int),
>
    decreases s.len() - i,
{
    let j = spec_ws(s, i);
    if j < i {
        None
    } else if j < s.len() && s[j] == '}' {
        match (p_id, p_name, p_path, p_thumbnail_path, p_mime_type, p_author, p_asset_type, p_md5_checksum, p_is_public, p_created_at, p_updated_at) {
            (Some(v_id), Some(v_name), Some(v_path), Some(v_thumbnail_path), Some(v_mime_type), Some(v_author), Some(v_asset_type), Some(v_md5_checksum), Some(v_is_public), Some(v_created_at), Some(v_updated_at)) => Some((AssetV { id: v_id, name: v_name, path: v_path, thumbnail_path: v_thumbnail_path, mime_type: v_mime_type, author: v_author, asset_type: v_asset_type, md5_checksum: v_md5_checksum, is_public: v_is_public, created_at: v_created_at, updated_at: v_updated_at }, j + 1)),
            _ => None,
        }
    } else if j < s.len() && s[j] == ',' {
        spec_asset_members(s, j + 1, p_id, p_name, p_path, p_thumbnail_path, p_mime_type, p_author, p_asset_type, p_md5_checksum, p_is_public, p_created_at, p_updated_at)
    } else {
        None
    }
}

/// A asset record (wire keys `type` and `isPublic` accepted) object at `i`: members in any order, each required
/// exactly once, unknown members skipped.
pub open spec fn spec_asset(s: Seq<char>, i: int) -> Option<(AssetV, int)> {
    let j = spec_ws(s, i);
    if j < s.len() && s[j] == '{' {
        let j2 = spec_ws(s, j + 1);
        if j2 < s.len() && s[j2] == '}' {
            None
        } else {
            spec_asset_members(s, j + 1, None, None, None, None, None, None, None, None, None, None, None)
        }
    } else {
        None
    }
}

#[verifier::rlimit(100)]
pub(crate) fn parse_asset_members(s: &str, i: usize, p_id: Option<i32>, p_name: Option<String>, p_path: Option<String>, p_thumbnail_path: Option<String>, p_mime_type: Option<String>, p_author: Option<String>, p_asset_type: Option<String>, p_md5_checksum: Option<String>, p_is_public: Option<i32>, p_created_at: Option<String>, p_updated_at: Option<String>) -> (r: Option<
    (Asset, usize),
>)
    requires
        i <= s@.len(),
    ensures
        (match (r, spec_asset_members(s@, i as int, opt_i32_v(p_id), opt_str_v(p_name), opt_str_v(p_path), opt_str_v(p_thumbnail_path), opt_str_v(p_mime_type), opt_str_v(p_author), opt_str_v(p_asset_type), opt_str_v(p_md5_checksum), opt_i32_v(p_is_public), opt_str_v(p_created_at), opt_str_v(p_updated_at))) {
            (Some(p), Some(g)) => p.0@ == g.0 && p.1 == g.1 && i < p.1 <= s@.len(),
            (None, None) => true,
            _ => false,
        }),
    decreases s@.len() - i,
{
    match parse_any_key(s, i) {
        None => None,
        Some((k, j)) => {
            if str_eq(k.as_str(), "id") {
                if p_id.is_some() {
                    return None;
                }
                match parse_int(s, j) {
                    None => None,
                    Some((v, j2)) => {
                        if v < -2147483648i64 || v > 2147483647i64 {
                            return None;
                        }
                        let v = v as i32;
                        parse_asset_after(s, j2, Some(v), p_name, p_path, p_thumbnail_path, p_mime_type, p_author, p_asset_type, p_md5_checksum, p_is_public, p_created_at, p_updated_at)
                    },
                }
            } else if str_eq(k.as_str(), "name") {
                if p_name.is_some() {
                    return None;
                }
                match parse_string(s, j) {
                    None => None,
                    Some((v, j2)) => parse_asset_after(s, j2, p_id, Some(v), p_path, p_thumbnail_path, p_mime_type, p_author, p_asset_type, p_md5_checksum, p_is_public, p_created_at, p_updated_at),
                }
            } else if str_eq(k.as_str(), "path") {
                if p_path.is_some() {
                    return None;
                }
                match parse_string(s, j) {
                    None => None,
                    Some((v, j2)) => parse_asset_after(s, j2, p_id, p_name, Some(v), p_thumbnail_path, p_mime_type, p_author, p_asset_type, p_md5_checksum, p_is_public, p_created_at, p_updated_at),
                }
            } else if str_eq(k.as_str(), "thumbnail_path") {
                if p_thumbnail_path.is_some() {
                    return None;
                }
                match parse_string(s, j) {
                    None => None,
                    Some((v, j2)) => parse_asset_after(s, j2, p_id, p_name, p_path, Some(v), p_mime_type, p_author, p_asset_type, p_md5_checksum, p_is_public, p_created_at, p_updated_at),
                }
            } else if str_eq(k.as_str(), "mime_type") {
                if p_mime_type.is_some() {
                    return None;
                }
                match parse_string(s, j) {
                    None => None,
                    Some((v, j2)) => parse_asset_after(s, j2, p_id, p_name, p_path, p_thumbnail_path, Some(v), p_author, p_asset_type, p_md5_checksum, p_is_public, p_created_at, p_updated_at),
                }
            } else if str_eq(k.as_str(), "author") {
                if p_author.is_some() {
                    return None;
                }
                match parse_string(s, j) {
                    None => None,
                    Some((v, j2)) => parse_asset_after(s, j2, p_id, p_name, p_path, p_thumbnail_path, p_mime_type, Some(v), p_asset_type, p_md5_checksum, p_is_public, p_created_at, p_updated_at),
                }
            } else if str_eq(k.as_str(), "asset_type") || str_eq(k.as_str(), "type") {
                if p_asset_type.is_some() {
                    return None;
                }
                match parse_string(s, j) {
                    None => None,
                    Some((v, j2)) => parse_asset_after(s, j2, p_id, p_name, p_path, p_thumbnail_path, p_mime_type, p_author, Some(v), p_md5_checksum, p_is_public, p_created_at, p_updated_at),
                }
            } else if str_eq(k.as_str(), "md5_checksum") {
                if p_md5_checksum.is_some() {
                    return None;
                }
                match parse_string(s, j) {
                    None => None,
                    Some((v, j2)) => parse_asset_after(s, j2, p_id, p_name, p_path, p_thumbnail_path, p_mime_type, p_author, p_asset_type, Some(v), p_is_public, p_created_at, p_updated_at),
                }
            } else if str_eq(k.as_str(), "is_public") || str_eq(k.as_str(), "isPublic") {
                if p_is_public.is_some() {
                    return None;
                }
                match parse_int(s, j) {
                    None => None,
                    Some((v, j2)) => {
                        if v < -2147483648i64 || v > 2147483647i64 {
                            return None;
                        }
                        let v = v as i32;
                        parse_asset_after(s, j2, p_id, p_name, p_path, p_thumbnail_path, p_mime_type, p_author, p_asset_type, p_md5_checksum, Some(v), p_created_at, p_updated_at)
                    },
                }
            } else if str_eq(k.as_str(), "created_at") {
                if p_created_at.is_some() {
                    return None;
                }
                match parse_string(s, j) {
                    None => None,
                    Some((v, j2)) => parse_asset_after(s, j2, p_id, p_name, p_path, p_thumbnail_path, p_mime_type, p_author, p_asset_type, p_md5_checksum, p_is_public, Some(v), p_updated_at),
                }
            } else if str_eq(k.as_str(), "updated_at") {
                if p_updated_at.is_some() {
                    return None;
                }
                match parse_string(s, j) {
                    None => None,
                    Some((v, j2)) => parse_asset_after(s, j2, p_id, p_name, p_path, p_thumbnail_path, p_mime_type, p_author, p_asset_type, p_md5_checksum, p_is_public, p_created_at, Some(v)),
                }
            } else {
                match skip_value(s, j) {
                    None => None,
                    Some(j2) => parse_asset_after(s, j2, p_id, p_name, p_path, p_thumbnail_path, p_mime_type, p_author, p_asset_type, p_md5_checksum, p_is_public, p_created_at, p_updated_at),
                }
            }
        },
    }
}

#[verifier::rlimit(60)]
pub(crate) fn parse_asset_after(s: &str, i: usize, p_id: Option<i32>, p_name: Option<String>, p_path: Option<String>, p_thumbnail_path: Option<String>, p_mime_type: Option<String>, p_author: Option<String>, p_asset_type: Option<String>, p_md5_checksum: Option<String>, p_is_public: Option<i32>, p_created_at: Option<String>, p_updated_at: Option<String>) -> (r: Option<
    (Asset, usize),
>)
    requires
        i <= s@.len(),
    ensures
        (match (r, spec_asset_after(s@, i as int, opt_i32_v(p_id), opt_str_v(p_name), opt_str_v(p_path), opt_str_v(p_thumbnail_path), opt_str_v(p_mime_type), opt_str_v(p_author), opt_str_v(p_asset_type), opt_str_v(p_md5_checksum), opt_i32_v(p_is_public), opt_str_v(p_created_at), opt_str_v(p_updated_at))) {
            (Some(p), Some(g)) => p.0@ == g.0 && p.1 == g.1 && i <= p.1 <= s@.len(),
            (None, None) => true,
            _ => false,
        }),
    decreases s@.len() - i,
{
    let n = s.unicode_len();
    let j = skip_ws(s, i);
    if j < n && s.get_char(j) == '}' {
        match (p_id, p_name, p_path, p_thumbnail_path, p_mime_type, p_author, p_asset_type, p_md5_checksum, p_is_public, p_created_at, p_updated_at) {
            (Some(v_id), Some(v_name), Some(v_path), Some(v_thumbnail_path), Some(v_mime_type), Some(v_author), Some(v_asset_type), Some(v_md5_checksum), Some(v_is_public), Some(v_created_at), Some(v_updated_at)) => Some((Asset { id: v_id, name: v_name, path: v_path, thumbnail_path: v_thumbnail_path, mime_type: v_mime_type, author: v_author, asset_type: v_asset_type, md5_checksum: v_md5_checksum, is_public: v_is_public, created_at: v_created_at, updated_at: v_updated_at }, j + 1)),
            _ => None,
        }
    } else if j < n && s.get_char(j) == ',' {
        parse_asset_members(s, j + 1, p_id, p_name, p_path, p_thumbnail_path, p_mime_type, p_author, p_asset_type, p_md5_checksum, p_is_public, p_created_at, p_updated_at)
    } else {
        None
    }
}

pub(crate) fn parse_asset(s: &str, i: usize) -> (r: Option<(Asset, usize)>)
    requires
        i <= s@.len(),
    ensures
        (match (r, spec_asset(s@, i as int)) {
            (Some(p), Some(g)) => p.0@ == g.0 && p.1 == g.1 && i < p.1 <= s@.len(),
            (None, None) => true,
            _ => false,
        }),
{
    let n = s.unicode_len();
    let j = skip_ws(s, i);
    if j < n && s.get_char(j) == '{' {
        let j2 = skip_ws(s, j + 1);
        if j2 < n && s.get_char(j2) == '}' {
            None
        } else {
            parse_asset_members(s, j + 1, None, None, None, None, None, None, None, None, None, None, None)
        }
    } else {
        None
    }
}

/// One member of a profile (wire keys `uploadData` and `downloadData` accepted) body, then the rest.
pub open spec fn spec_profile_members(s: Seq<char>, i: int, p_user: Option<UserV>, p_upload_data: Option<UserDataV>, p_download_data: Option<UserDataV>) -> Option<
    (ProfileV, int),
>
    decreases s.len() - i,
{
    match spec_any_key(s, i) {
        None => None,
        Some((k, j)) => if j <= i || j > s.len() {
            None
        } else if k == "user"@ || k == "user"@ {
            if p_user is Some {
                None
            } else {
                match spec_user(s, j) {
                    None => None,
                    Some((v, j2)) => if j2 <= j || j2 > s.len() {
                        None
                    } else {
                        spec_profile_after(s, j2, Some(v), p_upload_data, p_download_data)
                    },
                }
            }
        } else if k == "upload_data"@ || k == "uploadData"@ {
            if p_upload_data is Some {
                None
            } else {
                match spec_user_data(s, j) {
                    None => None,
                    Some((v, j2)) => if j2 <= j || j2 > s.len() {
                        None
                    } else {
                        spec_profile_after(s, j2, p_user, Some(v), p_download_data)
                    },
                }
            }
        } else if k == "download_data"@ || k == "downloadData"@ {
            if p_download_data is Some {
                None
            } else {
                match spec_user_data(s, j) {
                    None => None,
                    Some((v, j2)) => if j2 <= j || j2 > s.len() {
                        None
                    } else {
                        spec_profile_after(s, j2, p_user, p_upload_data, Some(v))
                    },
                }
            }
        } else {
            match spec_skip_value(s, j) {
                None => None,
                Some(j2) => if j2 <= j || j2 > s.len() {
                    None
                } else {
                    spec_profile_after(s, j2, p_user, p_upload_data, p_download_data)
                },
            }
        },
    }
}

/// After a member of a profile (wire keys `uploadData` and `downloadData` accepted) body: another member or the end.
pub open spec fn spec_profile_after(s: Seq<char>, i: int, p_user: Option<UserV>, p_upload_data: Option<UserDataV>, p_download_data: Option<UserDataV>) -> Option<
    (ProfileV, int),
>
    decreases s.len() - i,
{
    let j = spec_ws(s, i);
    if j < i {
        None
    } else if j < s.len() && s[j] == '}' {
        match (p_user, p_upload_data, p_download_data) {
            (Some(v_user), Some(v_upload_data), Some(v_download_data)) => Some((ProfileV { user: v_user, upload_data: v_upload_data, download_data: v_download_data }, j + 1)),
            _ => None,
        }
    } else if j < s.len() && s[j] == ',' {
        spec_profile_members(s, j + 1, p_user, p_upload_data, p_download_data)
    } else {
        None
    }
}

/// A profile (wire keys `uploadData` and `downloadData` accepted) object at `i`: members in any order, each required
/// exactly once, unknown members skipped.
pub open spec fn spec_profile(s: Seq<char>, i: int) -> Option<(ProfileV, int)> {
    let j = spec_ws(s, i);
    if j < s.len() && s[j] == '{' {
        let j2 = spec_ws(s, j + 1);
        if j2 < s.len() && s[j2] == '}' {
            None
        } else {
            spec_profile_members(s, j + 1, None, None, None)
        }
    } else {
        None
    }
}

#[verifier::rlimit(60)]
pub(crate) fn parse_profile_members(s: &str, i: usize, p_user: Option<User>, p_upload_data: Option<UserData>, p_download_data: Option<UserData>) -> (r: Option<
    (Profile, usize),
>)
    requires
        i <= s@.len(),
        (p_upload_data matches Some(x) ==> ud_counts_ok(x)),
        (p_download_data matches Some(x) ==> ud_counts_ok(x)),
    ensures
        (match (r, spec_profile_members(s@, i as int, opt_user_v(p_user), opt_ud_v(p_upload_data), opt_ud_v(p_download_data))) {
            (Some(p), Some(g)) => p.0@ == g.0 && p.1 == g.1 && i < p.1 <= s@.len(),
            (None, None) => true,
            _ => false,
        }),
        (r matches Some(p) ==> ud_counts_ok(p.0.upload_data) && ud_counts_ok(p.0.download_data)),
    decreases s@.len() - i,
{
    match parse_any_key(s, i) {
        None => None,
        Some((k, j)) => {
            if str_eq(k.as_str(), "user") {
                if p_user.is_some() {
                    return None;
                }
                match parse_user(s, j) {
                    None => None,
                    Some((v, j2)) => parse_profile_after(s, j2, Some(v), p_upload_data, p_download_data),
                }
            } else if str_eq(k.as_str(), "upload_data") || str_eq(k.as_str(), "uploadData") {
                if p_upload_data.is_some() {
                    return None;
                }
                match parse_user_data(s, j) {
                    None => None,
                    Some((v, j2)) => parse_profile_after(s, j2, p_user, Some(v), p_download_data),
                }
            } else if str_eq(k.as_str(), "download_data") || str_eq(k.as_str(), "downloadData") {
                if p_download_data.is_some() {
                    return None;
                }
                match parse_user_data(s, j) {
                    None => None,
                    Some((v, j2)) => parse_profile_after(s, j2, p_user, p_upload_data, Some(v)),
                }
            } else {
                match skip_value(s, j) {
                    None => None,
                    Some(j2) => parse_profile_after(s, j2, p_user, p_upload_data, p_download_data),
                }
            }
        },
    }
}

#[verifier::rlimit(60)]
pub(crate) fn parse_profile_after(s: &str, i: usize, p_user: Option<User>, p_upload_data: Option<UserData>, p_download_data: Option<UserData>) -> (r: Option<
    (Profile, usize),
>)
    requires
        i <= s@.len(),
        (p_upload_data matches Some(x) ==> ud_counts_ok(x)),
        (p_download_data matches Some(x) ==> ud_counts_ok(x)),
    ensures
        (match (r, spec_profile_after(s@, i as int, opt_user_v(p_user), opt_ud_v(p_upload_data), opt_ud_v(p_download_data))) {
            (Some(p), Some(g)) => p.0@ == g.0 && p.1 == g.1 && i <= p.1 <= s@.len(),
            (None, None) => true,
            _ => false,
        }),
        (r matches Some(p) ==> ud_counts_ok(p.0.upload_data) && ud_counts_ok(p.0.download_data)),
    decreases s@.len() - i,
{
    let n = s.unicode_len();
    let j = skip_ws(s, i);
    if j < n && s.get_char(j) == '}' {
        match (p_user, p_upload_data, p_download_data) {
            (Some(v_user), Some(v_upload_data), Some(v_download_data)) => Some((Profile { user: v_user, upload_data: v_upload_data, download_data: v_download_data }, j + 1)),
            _ => None,
        }
    } else if j < n && s.get_char(j) == ',' {
        parse_profile_members(s, j + 1, p_user, p_upload_data, p_download_data)
    } else {
        None
    }
}

pub(crate) fn parse_profile(s: &str, i: usize) -> (r: Option<(Profile, usize)>)
    requires
        i <= s@.len(),
    ensures
        (match (r, spec_profile(s@, i as int)) {
            (Some(p), Some(g)) => p.0@ == g.0 && p.1 == g.1 && i < p.1 <= s@.len(),
            (None, None) => true,
            _ => false,
        }),
        (r matches Some(p) ==> ud_counts_ok(p.0.upload_data) && ud_counts_ok(p.0.download_data)),
{
    let n = s.unicode_len();
    let j = skip_ws(s, i);
    if j < n && s.get_char(j) == '{' {
        let j2 = skip_ws(s, j + 1);
        if j2 < n && s.get_char(j2) == '}' {
            None
        } else {
            parse_profile_members(s, j + 1, None, None, None)
        }
    } else {
        None
    }
}

/// The views of a sequence of assets, element by element.
pub open spec fn seq_view(s: Seq<Asset>) -> Seq<AssetV> {
    s.map_values(|a: Asset| a@)
}

/// The elements of an asset array after its opening bracket: at least one
/// asset, separated by commas, up to the closing bracket.
pub open spec fn spec_assets_elems(s: Seq<char>, i: int) -> Option<(Seq<AssetV>, int)>
    decreases s.len() - i,
{
    match spec_asset(s, i) {
        None => None,
        Some((a, j)) => {
            let j2 = spec_ws(s, j);
            if j2 < s.len() && s[j2] == ']' {
                Some((seq![a], j2 + 1))
            } else if j2 < s.len() && s[j2] == ',' {
                if j2 + 1 <= i {
                    None
                } else {
                    match spec_assets_elems(s, j2 + 1) {
                        None => None,
                        Some((rest, e)) => Some((seq![a] + rest, e)),
                    }
                }
            } else {
                None
            }
        },
    }
}

pub(crate) fn parse_assets_elems(s: &str, i: usize) -> (r: Option<(Vec<Asset>, usize)>)
    requires
        i <= s@.len(),
    ensures
        (match (r, spec_assets_elems(s@, i as int)) {
            (Some(p), Some(g)) => seq_view(p.0@) == g.0 && p.1 == g.1 && i < p.1 <= s@.len(),
            (None, None) => true,
            _ => false,
        }),
    decreases s@.len() - i,
{
    match parse_asset(s, i) {
        None => None,
        Some(pa) => {
            let (a, j) = pa;
            let j2 = skip_ws(s, j);
            let n = s.unicode_len();
            if j2 < n && s.get_char(j2) == ']' {
                let mut v: Vec<Asset> = Vec::new();
                v.push(a);
                proof {
                    assert(seq_view(v@) =~= seq![a@]);
                }
                Some((v, j2 + 1))
            } else if j2 < n && s.get_char(j2) == ',' {
                match parse_assets_elems(s, j2 + 1) {
                    None => None,
                    Some(pr) => {
                        let (mut v, e) = pr;
                        let ghost restv = v@;
                        v.insert(0, a);
                        proof {
                            assert(seq_view(v@) =~= seq![a@] + seq_view(restv));
                        }
                        Some((v, e))
                    },
                }
            } else {
                None
            }
        },
    }
}

/// An asset array at `i`: brackets around zero or more asset objects.
pub open spec fn spec_assets(s: Seq<char>, i: int) -> Option<(Seq<AssetV>, int)> {
    let j = spec_ws(s, i);
    if j < s.len() && s[j] == '[' {
        let j2 = spec_ws(s, j + 1);
        if j2 < s.len() && s[j2] == ']' {
            Some((Seq::empty(), j2 + 1))
        } else {
            spec_assets_elems(s, j2)
        }
    } else {
        None
    }
}

pub(crate) fn parse_assets(s: &str, i: usize) -> (r: Option<(Vec<Asset>, usize)>)
    requires
        i <= s@.len(),
    ensures
        (match (r, spec_assets(s@, i as int)) {
            (Some(p), Some(g)) => seq_view(p.0@) == g.0 && p.1 == g.1 && i < p.1 <= s@.len(),
            (None, None) => true,
            _ => false,
        }),
{
    let j = skip_ws(s, i);
    let n = s.unicode_len();
    if j < n && s.get_char(j) == '[' {
        let j2 = skip_ws(s, j + 1);
        if j2 < n && s.get_char(j2) == ']' {
            let v: Vec<Asset> = Vec::new();
            proof {
                assert(seq_view(v@) =~= Seq::<AssetV>::empty());
            }
            Some((v, j2 + 1))
        } else {
            parse_assets_elems(s, j2)
        }
    } else {
        None
    }
}

/// A whole response body holding one asset: the object, with nothing but
/// whitespace around it.
pub open spec fn spec_decode_asset(body: Seq<char>) -> Option<AssetV> {
    match spec_asset(body, 0) {
        None => None,
        Some((a, j)) => if spec_ws(body, j) == body.len() {
            Some(a)
        } else {
            None
        },
    }
}

/// Decode a response body as a single [`Asset`].
pub fn decode_asset(body: &str) -> (r: Option<Asset>)
    ensures
        (match (r, spec_decode_asset(body@)) {
            (Some(a), Some(g)) => a@ == g,
            (None, None) => true,
            _ => false,
        }),
{
    match parse_asset(body, 0) {
        None => None,
        Some(p) => {
            let j = skip_ws(body, p.1);
            let n = body.unicode_len();
            if j == n {
                Some(p.0)
            } else {
                None
            }
        },
    }
}

/// A whole response body holding an asset array, whitespace around it.
pub open spec fn spec_decode_assets(body: Seq<char>) -> Option<Seq<AssetV>> {
    match spec_assets(body, 0) {
        None => None,
        Some((a, j)) => if spec_ws(body, j) == body.len() {
            Some(a)
        } else {
            None
        },
    }
}

/// Decode a response body as a sequence of [`Asset`]s.
pub fn decode_assets(body: &str) -> (r: Option<Vec<Asset>>)
    ensures
        (match (r, spec_decode_assets(body@)) {
            (Some(v), Some(g)) => seq_view(v@) == g,
            (None, None) => true,
            _ => false,
        }),
{
    match parse_assets(body, 0) {
        None => None,
        Some(p) => {
            let j = skip_ws(body, p.1);
            let n = body.unicode_len();
            if j == n {
                Some(p.0)
            } else {
                None
            }
        },
    }
}

/// A whole response body holding a profile, whitespace around it.
pub open spec fn spec_decode_profile(body: Seq<char>) -> Option<ProfileV> {
    match spec_profile(body, 0) {
        None => None,
        Some((p, j)) => if spec_ws(body, j) == body.len() {
            Some(p)
        } else {
            None
        },
    }
}

/// Decode a response body as a [`Profile`].
pub fn decode_profile(body: &str) -> (r: Option<Profile>)
    ensures
        (match (r, spec_decode_profile(body@)) {
            (Some(p), Some(g)) => p@ == g,
            (None, None) => true,
            _ => false,
        }),
        (r matches Some(p) ==> ud_counts_ok(p.upload_data) && ud_counts_ok(p.download_data)),
{
    match parse_profile(body, 0) {
        None => None,
        Some(p) => {
            let j = skip_ws(body, p.1);
            let n = body.unicode_len();
            if j == n {
                Some(p.0)
            } else {
                None
            }
        },
    }
}

/// A whole response body holding an upload-count record, whitespace
/// around it.
pub open spec fn spec_decode_for_discord(body: Seq<char>) -> Option<ForDiscordV> {
    match spec_for_discord(body, 0) {
        None => None,
        Some((d, j)) => if spec_ws(body, j) == body.len() {
            Some(d)
        } else {
            None
        },
    }
}

/// Decode a response body as a [`ForDiscord`].
pub fn decode_for_discord(body: &str) -> (r: Option<ForDiscord>)
    ensures
        (match (r, spec_decode_for_discord(body@)) {
            (Some(d), Some(g)) => d@ == g,
            (None, None) => true,
            _ => false,
        }),
        (r matches Some(d) ==> d.count_uploads >= 0),
{
    match parse_for_discord(body, 0) {
        None => None,
        Some(p) => {
            let j = skip_ws(body, p.1);
            let n = body.unicode_len();
            if j == n {
                Some(p.0)
            } else {
                None
            }
        },
    }
}

} // verus!
