//! Deciding which user accounts are desktop accounts: a user is one when
//! its UID lies between the `UID_MIN` and `UID_MAX` entries of
//! `/etc/login.defs`. Reading that file is the caller's job; the lookup in
//! its text and the range check are done here.

use vstd::prelude::*;

verus! {

/// The value at `key` in a whitespace-delimited configuration text, if
/// any. Named, not defined: the lookup depends on the text and key alone.
pub uninterp spec fn conf_value(text: Seq<char>, key: Seq<char>) -> Option<Seq<char>>;

/// Whether `c` is a whitespace character that UTF-8 encodes in more than
/// one byte (the non-ASCII members of Unicode's White_Space class).
pub open spec fn is_multibyte_space(c: char) -> bool {
    let n = c as int;
    ||| n == 0x85
    ||| n == 0xa0
    ||| n == 0x1680
    ||| 0x2000 <= n <= 0x200a
    ||| n == 0x2028
    ||| n == 0x2029
    ||| n == 0x202f
    ||| n == 0x205f
    ||| n == 0x3000
}

/// Whether every whitespace character of the text is a single byte, so
/// that splitting a line one byte past its first whitespace stays on a
/// character boundary.
pub open spec fn ascii_spaced(text: Seq<char>) -> bool {
    forall|i: int| 0 <= i < text.len() ==> !is_multibyte_space(#[trigger] text[i])
}

/// Relies on `whitespace_conf::parse`: splits each non-empty, non-comment
/// line at its first whitespace into a key and a value, later lines
/// winning; the result depends on the text and key alone. The function
/// slices one byte past a line's first whitespace character, which panics
/// when that character is multi-byte — such texts are excluded here.
#[verifier::external_body]
fn conf_get(text: &str, key: &str) -> (r: Option<String>)
    requires
        ascii_spaced(text@),
    ensures
        r matches Some(v) ==> conf_value(text@, key@) == Some(v@),
        r is None ==> conf_value(text@, key@) is None,
{
    whitespace_conf::parse(text).get(key).map(|v| (*v).to_owned())
}

/// Whether every whitespace character of the text is single-byte.
fn splits_ascii(text: &str) -> (r: bool)
    ensures
        r == ascii_spaced(text@),
{
    let n = text.unicode_len();
    let mut i: usize = 0;
    while i < n
        invariant
            n == text@.len(),
            i <= n,
            forall|k: int| 0 <= k < i ==> !is_multibyte_space(#[trigger] text@[k]),
        decreases n - i,
    {
        let code = text.get_char(i) as u32;
        if code == 0x85 || code == 0xa0 || code == 0x1680 || (0x2000 <= code && code <= 0x200a)
            || code == 0x2028 || code == 0x2029 || code == 0x202f || code == 0x205f
            || code == 0x3000 {
            return false;
        }
        i = i + 1;
    }
    true
}

/// Whether `c` is a decimal digit.
pub open spec fn is_digit(c: char) -> bool {
    '0' <= c && c <= '9'
}

/// The numeric value of a digit character.
pub open spec fn digit_val(c: char) -> int {
    c as int - '0' as int
}

/// The value of a digit string, most significant digit first.
pub open spec fn spec_digits_val(s: Seq<char>) -> int
    decreases s.len(),
{
    if s.len() == 0 {
        0
    } else {
        spec_digits_val(s.drop_last()) * 10 + digit_val(s.last())
    }
}

/// What parsing an unsigned decimal number yields: the digits' value when
/// the text is one or more digits and the value fits, nothing otherwise.
pub open spec fn spec_parse_u32(s: Seq<char>) -> Option<u32> {
    if s.len() > 0 && (forall|i: int| 0 <= i < s.len() ==> is_digit(#[trigger] s[i]))
        && spec_digits_val(s) <= u32::MAX {
        Some(spec_digits_val(s) as u32)
    } else {
        None
    }
}

/// A digit string's value is never negative.
proof fn lemma_digits_nonneg(s: Seq<char>)
    requires
        forall|i: int| 0 <= i < s.len() ==> is_digit(#[trigger] s[i]),
    ensures
        spec_digits_val(s) >= 0,
    decreases s.len(),
{
    if s.len() > 0 {
        lemma_digits_nonneg(s.drop_last());
    }
}

/// A digit string is worth at least any of its prefixes.
proof fn lemma_digits_prefix_le(s: Seq<char>, i: int)
    requires
        forall|k: int| 0 <= k < s.len() ==> is_digit(#[trigger] s[k]),
        0 <= i <= s.len(),
    ensures
        spec_digits_val(s.take(i)) <= spec_digits_val(s),
    decreases s.len() - i,
{
    if i < s.len() {
        lemma_digits_prefix_le(s, i + 1);
        let t = s.take(i + 1);
        assert(t.drop_last() =~= s.take(i));
        assert(t.last() == s[i]);
        lemma_digits_nonneg(s.take(i));
    } else {
        assert(s.take(i) =~= s);
    }
}

/// Parse an unsigned decimal number: one or more digits whose value fits
/// in 32 bits; anything else — empty text, a non-digit, overflow — is
/// `None`.
pub fn parse_u32(s: &str) -> (r: Option<u32>)
    ensures
        r == spec_parse_u32(s@),
{
    let n = s.unicode_len();
    if n == 0 {
        return None;
    }
    let mut val: u64 = 0;
    let mut i: usize = 0;
    while i < n
        invariant
            n == s@.len(),
            0 < n,
            i <= n,
            forall|k: int| 0 <= k < i ==> is_digit(#[trigger] s@[k]),
            val <= u32::MAX,
            val as int == spec_digits_val(s@.take(i as int)),
        decreases n - i,
    {
        let c = s.get_char(i);
        let code = c as u32;
        if code < 48 || code > 57 {
            proof {
                assert(!is_digit(s@[i as int]));
            }
            return None;
        }
        let d = (code - 48) as u64;
        let next = val * 10 + d;
        proof {
            let t = s@.take(i as int + 1);
            assert(t.drop_last() =~= s@.take(i as int));
            assert(t.last() == s@[i as int]);
        }
        if next > 0xffff_ffff {
            proof {
                if forall|k: int| 0 <= k < s@.len() ==> is_digit(#[trigger] s@[k]) {
                    lemma_digits_prefix_le(s@, i as int + 1);
                }
            }
            return None;
        }
        val = next;
        i = i + 1;
    }
    proof {
        assert(s@.take(n as int) =~= s@);
    }
    Some(val as u32)
}

/// What the `UID_MIN`/`UID_MAX` lookup yields for a `login.defs` text:
/// both entries present and numeric, or nothing.
pub open spec fn spec_uid_min_max(text: Seq<char>) -> Option<(u32, u32)> {
    match (conf_value(text, "UID_MIN"@), conf_value(text, "UID_MAX"@)) {
        (Some(mn), Some(mx)) => match (spec_parse_u32(mn), spec_parse_u32(mx)) {
            (Some(a), Some(b)) => Some((a, b)),
            _ => None,
        },
        _ => None,
    }
}

/// The `UID_MIN` and `UID_MAX` values from a `login.defs` text: present
/// exactly when both keys exist and carry decimal numbers. A text holding
/// multi-byte whitespace yields nothing: the underlying splitter cannot
/// divide such lines.
pub fn uid_min_max(login_defs: &str) -> (r: Option<(u32, u32)>)
    ensures
        ascii_spaced(login_defs@) ==> r == spec_uid_min_max(login_defs@),
        !ascii_spaced(login_defs@) ==> r is None,
{
    if !splits_ascii(login_defs) {
        return None;
    }
    let mn = conf_get(login_defs, "UID_MIN");
    let mx = conf_get(login_defs, "UID_MAX");
    match (mn, mx) {
        (Some(mn), Some(mx)) => match (parse_u32(mn.as_str()), parse_u32(mx.as_str())) {
            (Some(a), Some(b)) => Some((a, b)),
            _ => None,
        },
        _ => None,
    }
}

/// Whether a user is a desktop account: its UID lies within the bounds
/// read from `login.defs`; unknown bounds admit nobody.
pub fn is_desktop_account(euid: u32, limits: Option<(u32, u32)>) -> (r: bool)
    ensures
        r == (limits matches Some(p) && p.0 <= euid <= p.1),
{
    match limits {
        Some((mn, mx)) => mn <= euid && mx >= euid,
        None => false,
    }
}

} // verus!
