//! Uploaded photos arrive as data URLs (`data:image/...;base64,<payload>`).
//! This module says which of them the decoder accepts and decodes them.

use vstd::prelude::*;
use crate::text::chars_of;

verus! {

/// A character of the base64 alphabets the decoder reads (standard and URL-safe).
pub open spec fn is_base64_char(c: char) -> bool {
    ||| 'A' <= c && c <= 'Z'
    ||| 'a' <= c && c <= 'z'
    ||| '0' <= c && c <= '9'
    ||| c == '+' || c == '/' || c == '-' || c == '_'
}

/// A line break, which the decoder skips.
pub open spec fn is_line_break(c: char) -> bool {
    c == '\n' || c == '\r'
}

/// The position of the first `c` in `s`, or the length of `s` when there is none.
pub open spec fn index_of(s: Seq<char>, c: char) -> int
    decreases s.len(),
{
    if s.len() == 0 {
        0
    } else if s[0] == c {
        0
    } else {
        1 + index_of(s.drop_first(), c)
    }
}

/// The number of characters that are not line breaks.
pub open spec fn count_non_breaks(s: Seq<char>) -> nat
    decreases s.len(),
{
    if s.len() == 0 {
        0
    } else {
        count_non_breaks(s.drop_last()) + if is_line_break(s.last()) { 0nat } else { 1nat }
    }
}

/// A base64 payload the decoder accepts: up to the first `=` only alphabet
/// characters and line breaks, from there only `=` and line breaks, and a
/// number of alphabet characters that does not leave a single one over.
pub open spec fn base64_payload_ok(p: Seq<char>) -> bool {
    let e = index_of(p, '=');
    &&& forall|i: int| 0 <= i < e ==> is_base64_char(#[trigger] p[i]) || is_line_break(p[i])
    &&& forall|i: int| e <= i < p.len() ==> #[trigger] p[i] == '=' || is_line_break(p[i])
    &&& count_non_breaks(p.subrange(0, e)) % 4 != 1
}

/// The payload of a data URL: what follows its first comma.
pub open spec fn photo_payload(s: Seq<char>) -> Seq<char> {
    s.subrange(index_of(s, ',') + 1, s.len() as int)
}

/// A data URL the decoder accepts: it holds a comma and its payload is valid.
pub open spec fn decodable_photo(s: Seq<char>) -> bool {
    index_of(s, ',') < s.len() && base64_payload_ok(photo_payload(s))
}

/// The bytes that `image_base64::from_base64` decodes from a data URL.
pub uninterp spec fn base64_photo_bytes(s: Seq<char>) -> Seq<u8>;

/// `image_base64::from_base64`: drops everything up to the first comma and
/// decodes the rest with `rustc_serialize`'s base64 decoder.  It panics when
/// there is no comma or the decoder refuses the payload, which `requires`
/// rules out; the bytes are `base64_photo_bytes` of the data URL.
#[verifier::external_body]
fn from_base64(s: &String) -> (bytes: Vec<u8>)
    requires
        decodable_photo(s@),
    ensures
        bytes@ == base64_photo_bytes(s@),
{
    image_base64::from_base64(s.clone())
}

/// What `index_of` finds: no earlier `c`, and `c` itself unless it is the end.
pub proof fn index_of_first(s: Seq<char>, c: char, i: int)
    requires
        0 <= i <= s.len(),
        forall|k: int| 0 <= k < i ==> s[k] != c,
        i == s.len() || s[i] == c,
    ensures
        index_of(s, c) == i,
    decreases s.len(),
{
    if s.len() > 0 && s[0] != c {
        assert forall|k: int| 0 <= k < i - 1 implies s.drop_first()[k] != c by {
            assert(s.drop_first()[k] == s[k + 1]);
        }
        index_of_first(s.drop_first(), c, i - 1);
    }
}

/// A character of the standard base64 alphabet (`A-Z`, `a-z`, `0-9`, `+`, `/`).
pub open spec fn standard_base64_char(c: char) -> bool {
    ('A' <= c && c <= 'Z') || ('a' <= c && c <= 'z') || ('0' <= c && c <= '9') || c == '+' || c == '/'
}

/// Text without line breaks counts every character.
proof fn count_without_breaks(s: Seq<char>)
    requires
        forall|i: int| 0 <= i < s.len() ==> !is_line_break(#[trigger] s[i]),
    ensures
        count_non_breaks(s) == s.len(),
    decreases s.len(),
{
    if s.len() > 0 {
        assert forall|i: int| 0 <= i < s.drop_last().len() implies !is_line_break(#[trigger] s.drop_last()[i]) by {
            assert(s.drop_last()[i] == s[i]);
        }
        count_without_breaks(s.drop_last());
        assert(!is_line_break(s[s.len() - 1]));
    }
}

/// Standard base64 is accepted: a payload of standard base64 characters
/// (`/` and `+` included) followed by any `=` padding is one the decoder
/// reads exactly when it does not leave a single character over, and so is
/// every data URL that carries it after its first comma.
pub proof fn standard_base64_accepted(prefix: Seq<char>, body: Seq<char>, padding: Seq<char>)
    requires
        forall|i: int| 0 <= i < body.len() ==> standard_base64_char(#[trigger] body[i]),
        forall|i: int| 0 <= i < padding.len() ==> #[trigger] padding[i] == '=',
        forall|i: int| 0 <= i < prefix.len() ==> #[trigger] prefix[i] != ',',
    ensures
        base64_payload_ok(body + padding) <==> body.len() % 4 != 1,
        decodable_photo(prefix + seq![','] + body + padding) <==> body.len() % 4 != 1,
{
    let p = body + padding;
    assert forall|k: int| 0 <= k < body.len() implies p[k] != '=' by {
        assert(p[k] == body[k]);
        assert(standard_base64_char(body[k]));
    }
    if padding.len() > 0 {
        assert(p[body.len() as int] == padding[0]);
    }
    index_of_first(p, '=', body.len() as int);
    let e = body.len() as int;
    assert forall|i: int| 0 <= i < e implies is_base64_char(#[trigger] p[i]) || is_line_break(p[i]) by {
        assert(p[i] == body[i]);
        assert(standard_base64_char(body[i]));
    }
    assert forall|i: int| e <= i < p.len() implies #[trigger] p[i] == '=' || is_line_break(p[i]) by {
        assert(p[i] == padding[i - e]);
    }
    assert(p.subrange(0, e) =~= body);
    assert forall|i: int| 0 <= i < body.len() implies !is_line_break(#[trigger] body[i]) by {
        assert(standard_base64_char(body[i]));
    }
    count_without_breaks(body);
    let url = prefix + seq![','] + body + padding;
    assert forall|k: int| 0 <= k < prefix.len() implies url[k] != ',' by {
        assert(url[k] == prefix[k]);
    }
    assert(url[prefix.len() as int] == ',');
    index_of_first(url, ',', prefix.len() as int);
    assert(photo_payload(url) =~= p);
}

/// The first position at or after `from` holding `c`, or the length.
fn find_char(v: &Vec<char>, from: usize, c: char) -> (i: usize)
    requires
        from <= v.len(),
    ensures
        from <= i <= v.len(),
        forall|k: int| from <= k < i ==> v@[k] != c,
        i == v.len() || v@[i as int] == c,
{
    let mut i = from;
    while i < v.len()
        invariant
            from <= i <= v.len(),
            forall|k: int| from <= k < i ==> v@[k] != c,
        decreases v.len() - i,
    {
        if v[i] == c {
            return i;
        }
        i = i + 1;
    }
    i
}

fn is_base64_char_exec(c: char) -> (b: bool)
    ensures
        b == is_base64_char(c),
{
    ('A' <= c && c <= 'Z') || ('a' <= c && c <= 'z') || ('0' <= c && c <= '9') || c == '+' || c == '/'
        || c == '-' || c == '_'
}

fn is_line_break_exec(c: char) -> (b: bool)
    ensures
        b == is_line_break(c),
{
    c == '\n' || c == '\r'
}

/// Whether the decoder accepts the data URL `s`.
pub fn is_decodable_photo(s: &String) -> (b: bool)
    ensures
        b == decodable_photo(s@),
{
    let v = chars_of(s.as_str());
    let comma = find_char(&v, 0, ',');
    proof {
        index_of_first(s@, ',', comma as int);
    }
    if comma == v.len() {
        return false;
    }
    let start = comma + 1;
    let ghost p = photo_payload(s@);
    assert(p =~= v@.subrange(start as int, v.len() as int));
    let eq = find_char(&v, start, '=');
    proof {
        assert forall|k: int| 0 <= k < eq - start implies p[k] != '=' by {
            assert(p[k] == v@[start + k]);
        }
        index_of_first(p, '=', eq - start);
    }
    let ghost e = eq - start;
    // Up to the first `=`: alphabet characters and line breaks, counted.
    let mut count: usize = 0;
    let mut i = start;
    while i < eq
        invariant
            start <= i <= eq <= v.len(),
            p == v@.subrange(start as int, v.len() as int),
            p == photo_payload(s@),
            index_of(s@, ',') < s@.len(),
            index_of(p, '=') == eq - start,
            count == count_non_breaks(p.subrange(0, i - start)),
            count <= i - start,
            forall|k: int| 0 <= k < i - start ==> is_base64_char(#[trigger] p[k]) || is_line_break(p[k]),
        decreases eq - i,
    {
        let c = v[i];
        assert(p[i - start] == c);
        if !is_base64_char_exec(c) && !is_line_break_exec(c) {
            return false;
        }
        assert(p.subrange(0, i + 1 - start).drop_last() =~= p.subrange(0, i - start));
        if !is_line_break_exec(c) {
            count = count + 1;
        }
        i = i + 1;
    }
    // From the first `=` on: only `=` and line breaks.
    let mut j = eq;
    while j < v.len()
        invariant
            start <= eq <= j <= v.len(),
            p == v@.subrange(start as int, v.len() as int),
            p == photo_payload(s@),
            index_of(s@, ',') < s@.len(),
            index_of(p, '=') == eq - start,
            forall|k: int| eq - start <= k < j - start ==> #[trigger] p[k] == '=' || is_line_break(p[k]),
        decreases v.len() - j,
    {
        let c = v[j];
        assert(p[j - start] == c);
        if c != '=' && !is_line_break_exec(c) {
            return false;
        }
        j = j + 1;
    }
    count % 4 != 1
}

/// Decodes an uploaded photo; `None` when the decoder would refuse it.
pub fn decode_photo(s: &String) -> (bytes: Option<Vec<u8>>)
    ensures
        bytes is None <==> !decodable_photo(s@),
        bytes matches Some(b) ==> b@ == base64_photo_bytes(s@),
{
    if is_decodable_photo(s) {
        Some(from_base64(s))
    } else {
        None
    }
}

} // verus!
