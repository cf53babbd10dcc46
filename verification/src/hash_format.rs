//! Stored password hashes as pwhash reads them.  `pwhash::unix::verify`
//! picks the hash format from its prefix, cuts out the fields (by bytes),
//! and decodes the salt and, for BSDi, the rounds, one character at a time.
//! Its decoders subtract 0x20 from each character before any range test and
//! index a table of 96 entries, so a character below U+0020 overflows and
//! U+0080 runs past the table; every other character outside the hash64
//! alphabet ends the decoding with an error.  `hash_readable` holds of a
//! hash exactly when no decoder meets such a character.

use vstd::prelude::*;
use crate::text::{all_digits, chars_of, decimal_value};

verus! {

// ---------------------------------------------------------------------
// Characters and fields

/// The number of bytes of `c` in UTF-8.
pub open spec fn utf8_len(c: char) -> int {
    if (c as int) < 0x80 {
        1
    } else if (c as int) < 0x800 {
        2
    } else if (c as int) < 0x10000 {
        3
    } else {
        4
    }
}

/// Taking `n` bytes from the characters `s[q..e]` ends on a character
/// boundary inside them.
pub open spec fn cuts_at(s: Seq<char>, q: int, e: int, n: int) -> bool
    decreases e - q,
{
    if n == 0 {
        true
    } else if n < 0 || q >= e {
        false
    } else {
        cuts_at(s, q + 1, e, n - utf8_len(s[q]))
    }
}

/// The characters `s[q..e]` take at most `n` bytes.
pub open spec fn fits_in(s: Seq<char>, q: int, e: int, n: int) -> bool
    decreases e - q,
{
    if n < 0 {
        false
    } else if q >= e {
        true
    } else {
        fits_in(s, q + 1, e, n - utf8_len(s[q]))
    }
}

/// A character the decoders cannot take.
pub open spec fn decode_bad(c: char) -> bool {
    c < ' ' || c == '\u{80}'
}

/// A character of the hash64 alphabet (`./0-9A-Za-z`).
pub open spec fn hash64_char(c: char) -> bool {
    c == '.' || c == '/' || ('0' <= c && c <= '9') || ('A' <= c && c <= 'Z') || ('a' <= c && c <= 'z')
}

/// Reading `s[q..e]` in order, a decoder meets a character it cannot take
/// before any other character outside the alphabet.
pub open spec fn meets_bad(s: Seq<char>, q: int, e: int) -> bool
    decreases e - q,
{
    if q >= e || q < 0 || q >= s.len() {
        false
    } else if decode_bad(s[q]) {
        true
    } else if hash64_char(s[q]) {
        meets_bad(s, q + 1, e)
    } else {
        false
    }
}

/// The index of the first `$` at or after `i`, or the length when there is none.
pub open spec fn field_end(s: Seq<char>, i: int) -> int
    decreases s.len() - i,
{
    if i >= s.len() {
        s.len() as int
    } else if s[i] == '$' {
        i
    } else {
        field_end(s, i + 1)
    }
}

/// The smaller of two integers.
pub open spec fn min_int(a: int, b: int) -> int {
    if a < b { a } else { b }
}

/// Where the digits of a number field `s[q..e]` start (after an optional `+`).
pub open spec fn digits_start(s: Seq<char>, q: int, e: int) -> int {
    if q < e && s[q] == '+' { q + 1 } else { q }
}

/// `s[q..e]` is what `u32::from_str` accepts: an optional `+`, then one or
/// more ASCII digits denoting at most `u32::MAX`.
pub open spec fn parses_u32(s: Seq<char>, q: int, e: int) -> bool {
    let d = digits_start(s, q, e);
    d < e && all_digits(s.subrange(d, e)) && decimal_value(s.subrange(d, e)) <= 0xFFFF_FFFF
}

/// The number a field that `parses_u32` denotes.
pub open spec fn u32_field_value(s: Seq<char>, q: int, e: int) -> int {
    decimal_value(s.subrange(digits_start(s, q, e), e))
}

/// The salt field `s[q..e]`, cut to `n` bytes when longer (which fails
/// when the cut splits a character), holds a character the decoder cannot
/// take among the `n` characters it reads.
pub open spec fn salt_meets_bad(s: Seq<char>, q: int, e: int, n: int) -> bool {
    (fits_in(s, q, e, n) || cuts_at(s, q, e, n)) && meets_bad(s, q, min_int(e, q + n))
}

// ---------------------------------------------------------------------
// The formats

/// Traditional DES crypt (any hash not starting with `_` or `$`): the first
/// two characters are decoded as the salt.
pub open spec fn des_meets_bad(h: Seq<char>) -> bool {
    meets_bad(h, 0, min_int(h.len() as int, 2))
}

/// BSDi crypt (`_`): four bytes of rounds are cut and decoded; when they
/// decode (four alphabet characters, not all `.`, which is zero rounds) the
/// next four bytes are cut and decoded as the salt.
pub open spec fn bsdi_meets_bad(h: Seq<char>) -> bool {
    cuts_at(h, 1, h.len() as int, 4) && (meets_bad(h, 1, min_int(h.len() as int, 5)) || (h.len() >= 5
        && hash64_char(h[1]) && hash64_char(h[2]) && hash64_char(h[3]) && hash64_char(h[4])
        && !(h[1] == '.' && h[2] == '.' && h[3] == '.' && h[4] == '.')
        && cuts_at(h, 5, h.len() as int, 4) && meets_bad(h, 5, min_int(h.len() as int, 9))))
}

/// MD5 crypt (`$1$`): the salt field, cut to 8 bytes, is decoded.
pub open spec fn md5_meets_bad(h: Seq<char>) -> bool {
    &&& h.len() > 3
    &&& h[1] == '1'
    &&& field_end(h, 1) == 2
    &&& salt_meets_bad(h, 3, field_end(h, 3), 8)
}

/// `rounds=` stands at index `i`.
pub open spec fn rounds_tag_at(h: Seq<char>, i: int) -> bool {
    &&& h[i] == 'r' && h[i + 1] == 'o' && h[i + 2] == 'u' && h[i + 3] == 'n'
    &&& h[i + 4] == 'd' && h[i + 5] == 's' && h[i + 6] == '='
}

/// SHA-256 and SHA-512 crypt (`$5$`, `$6$`): after an optional
/// `rounds=N$` (N must parse as a `u32`), the salt field, cut to 16 bytes,
/// is decoded.
pub open spec fn sha2_meets_bad(h: Seq<char>) -> bool {
    let e = field_end(h, 3);
    &&& h.len() > 3
    &&& (h[1] == '5' || h[1] == '6')
    &&& field_end(h, 1) == 2
    &&& if e - 3 >= 7 && rounds_tag_at(h, 3) {
        &&& parses_u32(h, 10, e)
        &&& e < h.len()
        &&& salt_meets_bad(h, e + 1, field_end(h, e + 1), 16)
    } else {
        salt_meets_bad(h, 3, e, 16)
    }
}

/// SHA-1 crypt (`$sha1$`): the rounds field must parse as a nonzero `u32`
/// and be followed by `$`; then the salt field, cut to 64 bytes, is decoded.
pub open spec fn sha1_meets_bad(h: Seq<char>) -> bool {
    let e = field_end(h, 6);
    &&& h.len() > 6
    &&& h[1] == 's' && h[2] == 'h' && h[3] == 'a' && h[4] == '1'
    &&& field_end(h, 1) == 5
    &&& parses_u32(h, 6, e)
    &&& u32_field_value(h, 6, e) != 0
    &&& e < h.len()
    &&& salt_meets_bad(h, e + 1, field_end(h, e + 1), 64)
}

/// bcrypt (`$2a$`, `$2b$`, `$2y$`): the cost must be two digits from 04 to
/// 31 followed by `$`; then 22 bytes are cut and decoded as the salt.
pub open spec fn bcrypt_meets_bad(h: Seq<char>) -> bool {
    &&& h.len() > 6
    &&& h[1] == '2' && (h[2] == 'a' || h[2] == 'b' || h[2] == 'y')
    &&& field_end(h, 1) == 3
    &&& field_end(h, 4) == 6
    &&& '0' <= h[4] && h[4] <= '9' && '0' <= h[5] && h[5] <= '9'
    &&& 4 <= ((h[4] as int) - 48) * 10 + ((h[5] as int) - 48) <= 31
    &&& cuts_at(h, 7, h.len() as int, 22)
    &&& meets_bad(h, 7, min_int(h.len() as int, 29))
}

/// Some decoder that `pwhash::unix::verify` runs on the stored hash `h`
/// meets a character it cannot take.
pub open spec fn pwhash_meets_bad(h: Seq<char>) -> bool {
    if h.len() == 0 {
        false
    } else if h[0] == '_' {
        bsdi_meets_bad(h)
    } else if h[0] == '$' {
        md5_meets_bad(h) || sha2_meets_bad(h) || sha1_meets_bad(h) || bcrypt_meets_bad(h)
    } else {
        des_meets_bad(h)
    }
}

/// A stored hash that `pwhash::unix::verify` reads without panicking.
pub open spec fn hash_readable(h: Seq<char>) -> bool {
    !pwhash_meets_bad(h)
}

/// The shape of what `pwhash::bcrypt::hash` returns: `$2b$10$` and then 53
/// characters of the hash64 alphabet (22 of salt, 31 of checksum).
pub open spec fn bcrypt_shape(h: Seq<char>) -> bool {
    &&& h.len() == 60
    &&& h[0] == '$' && h[1] == '2' && h[2] == 'b' && h[3] == '$'
    &&& h[4] == '1' && h[5] == '0' && h[6] == '$'
    &&& forall|j: int| 7 <= j < 60 ==> hash64_char(#[trigger] h[j])
}

/// A decoder reading only alphabet characters meets nothing it cannot take.
proof fn alphabet_meets_nothing(s: Seq<char>, q: int, e: int)
    requires
        forall|j: int| q <= j < e && 0 <= j < s.len() ==> hash64_char(#[trigger] s[j]),
    ensures
        !meets_bad(s, q, e),
    decreases e - q,
{
    if q < e && 0 <= q < s.len() {
        alphabet_meets_nothing(s, q + 1, e);
    }
}

/// A hash of the shape bcrypt produces is one that pwhash reads.
pub proof fn bcrypt_shape_readable(h: Seq<char>)
    requires
        bcrypt_shape(h),
    ensures
        hash_readable(h),
{
    alphabet_meets_nothing(h, 7, 29);
}

// ---------------------------------------------------------------------
// The check

/// `utf8_len`.
fn utf8_width(c: char) -> (w: i64)
    ensures
        w == utf8_len(c),
{
    let x: u32 = c as u32;
    if x < 0x80 {
        1
    } else if x < 0x800 {
        2
    } else if x < 0x10000 {
        3
    } else {
        4
    }
}

fn is_decode_bad(c: char) -> (b: bool)
    ensures
        b == decode_bad(c),
{
    c < ' ' || c == '\u{80}'
}

fn is_hash64(c: char) -> (b: bool)
    ensures
        b == hash64_char(c),
{
    c == '.' || c == '/' || ('0' <= c && c <= '9') || ('A' <= c && c <= 'Z') || ('a' <= c && c <= 'z')
}

fn is_digit(c: char) -> (b: bool)
    ensures
        b == ('0' <= c && c <= '9'),
{
    '0' <= c && c <= '9'
}

/// `cuts_at`.
fn cuts_at_exec(v: &Vec<char>, q: usize, e: usize, n: i64) -> (b: bool)
    requires
        q <= e <= v.len(),
        0 <= n <= 64,
    ensures
        b == cuts_at(v@, q as int, e as int, n as int),
{
    let mut i = q;
    let mut m = n;
    while m > 0 && i < e
        invariant
            q <= i <= e <= v.len(),
            -4 <= m <= 64,
            cuts_at(v@, q as int, e as int, n as int) == cuts_at(v@, i as int, e as int, m as int),
        decreases e - i,
    {
        m = m - utf8_width(v[i]);
        i = i + 1;
    }
    m == 0
}

/// `fits_in`.
fn fits_in_exec(v: &Vec<char>, q: usize, e: usize, n: i64) -> (b: bool)
    requires
        q <= e <= v.len(),
        0 <= n <= 64,
    ensures
        b == fits_in(v@, q as int, e as int, n as int),
{
    let mut i = q;
    let mut m = n;
    while m >= 0 && i < e
        invariant
            q <= i <= e <= v.len(),
            -4 <= m <= 64,
            fits_in(v@, q as int, e as int, n as int) == fits_in(v@, i as int, e as int, m as int),
        decreases e - i,
    {
        m = m - utf8_width(v[i]);
        i = i + 1;
    }
    m >= 0
}

/// `meets_bad`.
fn meets_bad_exec(v: &Vec<char>, q: usize, e: usize) -> (b: bool)
    requires
        q <= e <= v.len(),
    ensures
        b == meets_bad(v@, q as int, e as int),
{
    let mut i = q;
    while i < e
        invariant
            q <= i <= e <= v.len(),
            meets_bad(v@, q as int, e as int) == meets_bad(v@, i as int, e as int),
        decreases e - i,
    {
        if is_decode_bad(v[i]) {
            return true;
        }
        if !is_hash64(v[i]) {
            return false;
        }
        i = i + 1;
    }
    false
}

/// `field_end`.
fn field_end_exec(v: &Vec<char>, i: usize) -> (r: usize)
    requires
        i <= v.len(),
    ensures
        r == field_end(v@, i as int),
        i <= r <= v.len(),
{
    let mut j = i;
    while j < v.len() && v[j] != '$'
        invariant
            i <= j <= v.len(),
            field_end(v@, i as int) == field_end(v@, j as int),
        decreases v.len() - j,
    {
        j = j + 1;
    }
    j
}

/// The value of the digits `s` never falls when digits are added at the end.
proof fn decimal_value_grows(s: Seq<char>, k: int)
    requires
        all_digits(s),
        0 <= k <= s.len(),
    ensures
        0 <= decimal_value(s.take(k)) <= decimal_value(s),
    decreases s.len(),
{
    if k < s.len() {
        let t = s.drop_last();
        assert(t.take(k) =~= s.take(k));
        assert(all_digits(t)) by {
            assert forall|i: int| 0 <= i < t.len() implies '0' <= #[trigger] t[i] && t[i] <= '9' by {
                assert(t[i] == s[i]);
            }
        }
        decimal_value_grows(t, k);
        assert('0' <= s[s.len() - 1]);
    } else {
        assert(s.take(k) =~= s);
        if s.len() > 0 {
            decimal_value_grows(s.drop_last(), 0);
            assert(all_digits(s.drop_last())) by {
                let t = s.drop_last();
                assert forall|i: int| 0 <= i < t.len() implies '0' <= #[trigger] t[i] && t[i] <= '9' by {
                    assert(t[i] == s[i]);
                }
            }
            assert('0' <= s[s.len() - 1]);
        }
    }
}

/// `parses_u32`, with the value.
fn parse_u32_exec(v: &Vec<char>, q: usize, e: usize) -> (r: Option<u64>)
    requires
        q <= e <= v.len(),
    ensures
        r is Some <==> parses_u32(v@, q as int, e as int),
        r matches Some(x) ==> x == u32_field_value(v@, q as int, e as int),
{
    let ghost s = v@;
    let d = if q < e && v[q] == '+' { q + 1 } else { q };
    assert(d == digits_start(s, q as int, e as int));
    if d >= e {
        return None;
    }
    let mut val: u64 = 0;
    let mut i = d;
    assert(s.subrange(d as int, d as int) =~= Seq::<char>::empty());
    while i < e
        invariant
            d <= i <= e <= v.len(),
            s == v@,
            d == digits_start(s, q as int, e as int),
            all_digits(s.subrange(d as int, i as int)),
            val == decimal_value(s.subrange(d as int, i as int)),
            val <= 0xFFFF_FFFF,
        decreases e - i,
    {
        let c = v[i];
        let ghost whole = s.subrange(d as int, e as int);
        if !is_digit(c) {
            assert(whole[i - d] == c);
            return None;
        }
        let dv: u64 = (c as u32 - 48) as u64;
        val = val * 10 + dv;
        let ghost next = s.subrange(d as int, i + 1);
        assert(next.drop_last() =~= s.subrange(d as int, i as int));
        assert(all_digits(next)) by {
            assert forall|j: int| 0 <= j < next.len() implies '0' <= #[trigger] next[j] && next[j] <= '9' by {
                if j < next.len() - 1 {
                    assert(next[j] == s.subrange(d as int, i as int)[j]);
                }
            }
        }
        if val > 0xFFFF_FFFF {
            proof {
                if all_digits(whole) {
                    assert(whole.take(i + 1 - d) =~= next);
                    decimal_value_grows(whole, i + 1 - d);
                }
            }
            return None;
        }
        i = i + 1;
    }
    Some(val)
}

/// `salt_meets_bad`.
fn salt_meets_bad_exec(v: &Vec<char>, q: usize, e: usize, n: usize) -> (b: bool)
    requires
        q <= e <= v.len(),
        n <= 64,
    ensures
        b == salt_meets_bad(v@, q as int, e as int, n as int),
{
    let cut = fits_in_exec(v, q, e, n as i64) || cuts_at_exec(v, q, e, n as i64);
    let end = if e - q < n { e } else { q + n };
    cut && meets_bad_exec(v, q, end)
}

fn bsdi_exec(v: &Vec<char>) -> (b: bool)
    ensures
        b == bsdi_meets_bad(v@),
{
    let n = v.len();
    if n < 1 || !cuts_at_exec(v, 1, n, 4) {
        return false;
    }
    let rounds_end = if n < 5 { n } else { 5 };
    if meets_bad_exec(v, 1, rounds_end) {
        return true;
    }
    if n < 5 {
        return false;
    }
    if !(is_hash64(v[1]) && is_hash64(v[2]) && is_hash64(v[3]) && is_hash64(v[4])) {
        return false;
    }
    if v[1] == '.' && v[2] == '.' && v[3] == '.' && v[4] == '.' {
        return false;
    }
    if !cuts_at_exec(v, 5, n, 4) {
        return false;
    }
    let salt_end = if n < 9 { n } else { 9 };
    meets_bad_exec(v, 5, salt_end)
}

fn md5_exec(v: &Vec<char>) -> (b: bool)
    ensures
        b == md5_meets_bad(v@),
{
    if v.len() <= 3 || v[1] != '1' || field_end_exec(v, 1) != 2 {
        return false;
    }
    let e = field_end_exec(v, 3);
    salt_meets_bad_exec(v, 3, e, 8)
}

fn rounds_tag_exec(v: &Vec<char>, i: usize) -> (b: bool)
    requires
        i + 7 <= v.len(),
    ensures
        b == rounds_tag_at(v@, i as int),
{
    v[i] == 'r' && v[i + 1] == 'o' && v[i + 2] == 'u' && v[i + 3] == 'n' && v[i + 4] == 'd'
        && v[i + 5] == 's' && v[i + 6] == '='
}

fn sha2_exec(v: &Vec<char>) -> (b: bool)
    ensures
        b == sha2_meets_bad(v@),
{
    if v.len() <= 3 || !(v[1] == '5' || v[1] == '6') || field_end_exec(v, 1) != 2 {
        return false;
    }
    let e = field_end_exec(v, 3);
    if e - 3 >= 7 && rounds_tag_exec(v, 3) {
        if parse_u32_exec(v, 10, e).is_none() || e >= v.len() {
            return false;
        }
        let e2 = field_end_exec(v, e + 1);
        salt_meets_bad_exec(v, e + 1, e2, 16)
    } else {
        salt_meets_bad_exec(v, 3, e, 16)
    }
}

fn sha1_exec(v: &Vec<char>) -> (b: bool)
    ensures
        b == sha1_meets_bad(v@),
{
    if v.len() <= 6 || !(v[1] == 's' && v[2] == 'h' && v[3] == 'a' && v[4] == '1') || field_end_exec(v, 1) != 5 {
        return false;
    }
    let e = field_end_exec(v, 6);
    match parse_u32_exec(v, 6, e) {
        None => false,
        Some(rounds) => {
            if rounds == 0 || e >= v.len() {
                return false;
            }
            let e2 = field_end_exec(v, e + 1);
            salt_meets_bad_exec(v, e + 1, e2, 64)
        },
    }
}

fn bcrypt_exec(v: &Vec<char>) -> (b: bool)
    ensures
        b == bcrypt_meets_bad(v@),
{
    let n = v.len();
    if n <= 6 || v[1] != '2' || !(v[2] == 'a' || v[2] == 'b' || v[2] == 'y') {
        return false;
    }
    if field_end_exec(v, 1) != 3 || field_end_exec(v, 4) != 6 {
        return false;
    }
    if !(is_digit(v[4]) && is_digit(v[5])) {
        return false;
    }
    let cost: u32 = (v[4] as u32 - 48) * 10 + (v[5] as u32 - 48);
    if cost < 4 || cost > 31 {
        return false;
    }
    if !cuts_at_exec(v, 7, n, 22) {
        return false;
    }
    let salt_end = if n < 29 { n } else { 29 };
    meets_bad_exec(v, 7, salt_end)
}

/// Whether a stored hash is one that `pwhash::unix::verify` reads without
/// panicking, that is, one that `password_matches` accepts as input.
pub fn is_readable_hash(stored: &String) -> (b: bool)
    ensures
        b == hash_readable(stored@),
{
    let v = chars_of(stored.as_str());
    let bad = if v.len() == 0 {
        false
    } else if v[0] == '_' {
        bsdi_exec(&v)
    } else if v[0] == '$' {
        md5_exec(&v) || sha2_exec(&v) || sha1_exec(&v) || bcrypt_exec(&v)
    } else {
        let end = if v.len() < 2 { v.len() } else { 2 };
        meets_bad_exec(&v, 0, end)
    };
    !bad
}

} // verus!
