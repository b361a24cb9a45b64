//! The data-entry rules: how the five text fields of the entry form become
//! a schedule entry. Every field must be filled in, and each numeric field
//! is read as a plain decimal number, falling back to 0 when it is not
//! one — the same forgiving rule the form applies.

use vstd::prelude::*;
use vstd::string::StrSliceExecFns;

use crate::schedule::Class;

verus! {

/// `c` is a decimal digit.
pub open spec fn is_digit(c: char) -> bool {
    '0' <= c && c <= '9'
}

/// The numeric value of a digit.
pub open spec fn digit_value(c: char) -> int {
    c as int - '0' as int
}

/// The number written by a sequence of digits, most significant first.
pub open spec fn digits_value(s: Seq<char>) -> int
    decreases s.len(),
{
    if s.len() == 0 {
        0
    } else {
        digits_value(s.drop_last()) * 10 + digit_value(s.last())
    }
}

/// `s` is a plain decimal numeral that fits in a `u32`: nonempty, digits
/// only, value at most `u32::MAX`.
pub open spec fn parses_as_u32(s: Seq<char>) -> bool {
    &&& s.len() > 0
    &&& (forall|j: int| 0 <= j < s.len() ==> is_digit(#[trigger] s[j]))
    &&& digits_value(s) <= u32::MAX
}

/// What the form reads from a numeric field: the numeral's value, or 0
/// when the text is not such a numeral.
pub open spec fn spec_parse_u32_or_zero(s: Seq<char>) -> u32 {
    if parses_as_u32(s) {
        digits_value(s) as u32
    } else {
        0
    }
}

/// A sequence of digits never writes a negative number.
proof fn lemma_digits_nonneg(s: Seq<char>)
    requires
        forall|j: int| 0 <= j < s.len() ==> is_digit(#[trigger] s[j]),
    ensures
        digits_value(s) >= 0,
    decreases s.len(),
{
    if s.len() > 0 {
        lemma_digits_nonneg(s.drop_last());
    }
}

/// Extending a numeral with further digits never shrinks its value.
proof fn lemma_digits_prefix_le(s: Seq<char>, k: int)
    requires
        0 <= k <= s.len(),
        forall|j: int| 0 <= j < s.len() ==> is_digit(#[trigger] s[j]),
    ensures
        digits_value(s.take(k)) <= digits_value(s),
    decreases s.len() - k,
{
    if k < s.len() {
        assert(s.take(k + 1).drop_last() =~= s.take(k));
        assert(s.take(k + 1).last() == s[k]);
        assert(forall|j: int| 0 <= j < k ==> is_digit(#[trigger] s.take(k)[j]));
        lemma_digits_nonneg(s.take(k));
        lemma_digits_prefix_le(s, k + 1);
        assert(s.take(s.len() as int) =~= s);
    } else {
        assert(s.take(k) =~= s);
    }
}

/// Reads a decimal `u32` from the text, or 0 when the text is empty, holds
/// a non-digit, or names a number too large for a `u32`.
pub fn parse_u32_or_zero(s: &str) -> (n: u32)
    ensures
        n == spec_parse_u32_or_zero(s@),
{
    let len = s.unicode_len();
    if len == 0 {
        return 0;
    }
    let mut acc: u64 = 0;
    let mut i: usize = 0;
    proof {
        assert(s@.take(0) =~= Seq::<char>::empty());
    }
    while i < len
        invariant
            i <= len,
            len == s@.len(),
            forall|j: int| 0 <= j < i ==> is_digit(#[trigger] s@[j]),
            acc <= u32::MAX,
            acc as int == digits_value(s@.take(i as int)),
        decreases len - i,
    {
        let c = s.get_char(i);
        if c < '0' || c > '9' {
            return 0;
        }
        let d: u32 = (c as u32) - ('0' as u32);
        let next: u64 = acc * 10 + (d as u64);
        proof {
            assert(s@.take(i as int + 1).drop_last() =~= s@.take(i as int));
            assert(s@.take(i as int + 1).last() == s@[i as int]);
        }
        if next > (u32::MAX as u64) {
            proof {
                if forall|j: int| 0 <= j < s@.len() ==> is_digit(#[trigger] s@[j]) {
                    lemma_digits_prefix_le(s@, i as int + 1);
                }
            }
            return 0;
        }
        acc = next;
        i += 1;
    }
    proof {
        assert(s@.take(len as int) =~= s@);
    }
    acc as u32
}

/// The submit rule of the entry form: no field may be blank; the numeric
/// fields are read with the forgiving decimal rule above. A blank field
/// yields no entry at all.
pub fn class_from_input(
    name: String,
    teacher: String,
    hour: &str,
    minute: &str,
    weekday: &str,
) -> (r: Option<Class>)
    ensures
        (r is Some) <==> (name@.len() > 0 && teacher@.len() > 0 && hour@.len() > 0
            && minute@.len() > 0 && weekday@.len() > 0),
        r matches Some(c) ==> {
            &&& c@.name == name@
            &&& c@.teacher == teacher@
            &&& c@.hour == spec_parse_u32_or_zero(hour@)
            &&& c@.minute == spec_parse_u32_or_zero(minute@)
            &&& c@.weekday == spec_parse_u32_or_zero(weekday@)
        },
{
    if name.as_str().is_empty() || teacher.as_str().is_empty() || hour.is_empty()
        || minute.is_empty() || weekday.is_empty() {
        return None;
    }
    let h = parse_u32_or_zero(hour);
    let m = parse_u32_or_zero(minute);
    let w = parse_u32_or_zero(weekday);
    Some(Class::new_from(name, teacher, h, m, w))
}

} // verus!
