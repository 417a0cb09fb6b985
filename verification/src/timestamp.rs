//! Start timestamps and their textual codec.
//!
//! A [`Timestamp`] is a count of whole seconds since the Unix epoch.  Its
//! textual form is the plain decimal integer; parse and format are a
//! lossless round trip at one-second granularity.  Parsing fails on an empty
//! text, on any non-digit character, and on a value that overflows the
//! representable range.

use vstd::prelude::*;
use vstd::string::StrSliceExecFns;

use crate::status::ParseError;
use crate::text::push_char;

verus! {

/// The value of a decimal digit character, or 10 for any other character.
pub open spec fn dec_digit_value(c: char) -> int {
    let u = c as u32;
    if 48 <= u <= 57 {
        u - 48
    } else {
        10
    }
}

/// True for `0`-`9`.
pub open spec fn is_dec_digit(c: char) -> bool {
    dec_digit_value(c) < 10
}

pub open spec fn all_dec_digits(s: Seq<char>) -> bool {
    forall|i: int| 0 <= i < s.len() ==> is_dec_digit(#[trigger] s[i])
}

/// The decimal digit character for a value below 10.
pub open spec fn dec_char_of(d: int) -> char {
    ((48 + d) as u32) as char
}

/// `v` written in decimal, without leading zeros (a single `0` for zero).
pub open spec fn dec_str(v: nat) -> Seq<char>
    decreases v,
{
    if v < 10 {
        seq![dec_char_of(v as int)]
    } else {
        dec_str(v / 10).push(dec_char_of((v % 10) as int))
    }
}

/// The value of a sequence of decimal digit characters.
pub open spec fn dec_value(s: Seq<char>) -> int
    decreases s.len(),
{
    if s.len() == 0 {
        0
    } else {
        dec_value(s.drop_last()) * 10 + dec_digit_value(s.last())
    }
}

/// Which texts denote a timestamp: at least one character, digits only, and
/// a value that fits the representable range.
pub open spec fn ts_text_valid(s: Seq<char>) -> bool {
    &&& s.len() >= 1
    &&& all_dec_digits(s)
    &&& dec_value(s) <= u64::MAX
}

proof fn lemma_dec_char_of_value(d: int)
    requires
        0 <= d < 10,
    ensures
        is_dec_digit(dec_char_of(d)),
        dec_digit_value(dec_char_of(d)) == d,
{
}

proof fn lemma_dec_str_all_dec(v: nat)
    ensures
        dec_str(v).len() >= 1,
        all_dec_digits(dec_str(v)),
    decreases v,
{
    if v < 10 {
        lemma_dec_char_of_value(v as int);
    } else {
        lemma_dec_str_all_dec(v / 10);
        lemma_dec_char_of_value((v % 10) as int);
        let inner = dec_str(v / 10);
        let c = dec_char_of((v % 10) as int);
        assert forall|i: int| 0 <= i < dec_str(v).len() implies is_dec_digit(
            #[trigger] dec_str(v)[i],
        ) by {
            if i < inner.len() {
                assert(dec_str(v)[i] == inner[i]);
            } else {
                assert(dec_str(v)[i] == c);
            }
        }
    }
}

proof fn lemma_dec_str_value(v: nat)
    ensures
        dec_value(dec_str(v)) == v,
    decreases v,
{
    if v < 10 {
        let s = dec_str(v);
        assert(s.drop_last() =~= Seq::<char>::empty());
        assert(dec_value(Seq::<char>::empty()) == 0);
        assert(s.last() == dec_char_of(v as int));
        lemma_dec_char_of_value(v as int);
    } else {
        lemma_dec_str_value(v / 10);
        let inner = dec_str(v / 10);
        let c = dec_char_of((v % 10) as int);
        assert(dec_str(v).drop_last() =~= inner);
        assert(dec_str(v).last() == c);
        lemma_dec_char_of_value((v % 10) as int);
    }
}

proof fn lemma_dec_value_nonneg(s: Seq<char>)
    requires
        all_dec_digits(s),
    ensures
        dec_value(s) >= 0,
    decreases s.len(),
{
    if s.len() > 0 {
        assert(all_dec_digits(s.drop_last()));
        lemma_dec_value_nonneg(s.drop_last());
        assert(is_dec_digit(s.last()));
    }
}

/// Under all-digit text, a prefix never holds a larger value than the whole.
proof fn lemma_dec_value_prefix_le(s: Seq<char>, k: int)
    requires
        all_dec_digits(s),
        0 <= k <= s.len(),
    ensures
        dec_value(s.subrange(0, k)) <= dec_value(s),
    decreases s.len() - k,
{
    if k == s.len() {
        assert(s.subrange(0, k) =~= s);
    } else {
        let shorter = s.subrange(0, k);
        let longer = s.subrange(0, k + 1);
        assert(longer.drop_last() =~= shorter);
        assert(longer.last() == s[k]);
        assert(all_dec_digits(shorter));
        lemma_dec_value_nonneg(shorter);
        assert(is_dec_digit(s[k]));
        lemma_dec_value_prefix_le(s, k + 1);
    }
}

/// A start time: whole seconds since the Unix epoch.
#[derive(Clone, Copy, PartialEq, Eq, Structural, Debug)]
pub struct Timestamp {
    pub secs: u64,
}

/// Formatting a timestamp always yields a text that parses back to it.
pub proof fn lemma_timestamp_round_trip(v: u64)
    ensures
        ts_text_valid(dec_str(v as nat)),
        dec_value(dec_str(v as nat)) == v,
{
    lemma_dec_str_all_dec(v as nat);
    lemma_dec_str_value(v as nat);
}

/// The decimal digit character of a value below 10.
fn dec_char(d: u8) -> (c: char)
    requires
        d < 10,
    ensures
        c == dec_char_of(d as int),
{
    (48 + d) as char
}

/// Appends `v` in decimal, most significant digit first.
fn append_dec(out: &mut String, v: u64)
    ensures
        final(out)@ == old(out)@ + dec_str(v as nat),
    decreases v,
{
    if v < 10 {
        push_char(out, dec_char(v as u8));
        proof {
            assert(old(out)@ + dec_str(v as nat) =~= old(out)@.push(dec_char_of(v as int)));
        }
    } else {
        append_dec(out, v / 10);
        push_char(out, dec_char((v % 10) as u8));
        proof {
            assert(old(out)@ + dec_str(v as nat) =~= (old(out)@ + dec_str(
                (v / 10) as nat,
            )).push(dec_char_of((v % 10) as int)));
        }
    }
}

impl Timestamp {
    /// The decimal textual form: seconds since the Unix epoch.
    pub fn format(&self) -> (r: String)
        ensures
            r@ == dec_str(self.secs as nat),
    {
        let mut out = String::new();
        append_dec(&mut out, self.secs);
        proof {
            assert(out@ =~= dec_str(self.secs as nat));
        }
        out
    }

    /// Parses a decimal count of seconds since the Unix epoch.  Fails
    /// exactly when the text is empty, holds a non-digit character, or
    /// encodes a value above the representable range.
    pub fn from_str(s: &str) -> (r: Result<Timestamp, ParseError>)
        ensures
            r is Ok <==> ts_text_valid(s@),
            r is Ok ==> r->Ok_0.secs == dec_value(s@),
            r is Err ==> r->Err_0 == ParseError::MalformedTimestamp,
    {
        let n = s.unicode_len();
        if n == 0 {
            return Err(ParseError::MalformedTimestamp);
        }
        let mut acc: u64 = 0;
        let mut i: usize = 0;
        proof {
            assert(s@.subrange(0, 0) =~= Seq::<char>::empty());
        }
        while i < n
            invariant
                i <= n,
                n == s@.len(),
                all_dec_digits(s@.subrange(0, i as int)),
                acc == dec_value(s@.subrange(0, i as int)),
            decreases n - i,
        {
            let c = s.get_char(i);
            let u = c as u32;
            if !(48 <= u && u <= 57) {
                proof {
                    assert(!is_dec_digit(s@[i as int]));
                }
                return Err(ParseError::MalformedTimestamp);
            }
            let d: u64 = (u - 48) as u64;
            proof {
                let next = s@.subrange(0, i as int + 1);
                assert(next.drop_last() =~= s@.subrange(0, i as int));
                assert(next.last() == s@[i as int]);
            }
            let m = match acc.checked_mul(10) {
                Some(m) => m,
                None => {
                    proof {
                        lemma_overflow_invalid(s@, i as int, acc as int, d as int);
                    }
                    return Err(ParseError::MalformedTimestamp);
                },
            };
            let a2 = match m.checked_add(d) {
                Some(a) => a,
                None => {
                    proof {
                        lemma_overflow_invalid(s@, i as int, acc as int, d as int);
                    }
                    return Err(ParseError::MalformedTimestamp);
                },
            };
            acc = a2;
            i += 1;
        }
        proof {
            assert(s@.subrange(0, n as int) =~= s@);
        }
        Ok(Timestamp { secs: acc })
    }

    /// The current wall-clock time, at one-second granularity.
    pub fn now() -> Timestamp {
        let at = system_time_now();
        Timestamp { secs: seconds_since_epoch(&at) }
    }

    /// The same instant as a std `SystemTime`, for handing to span
    /// builders; `None` when the platform cannot represent it.
    pub fn system_time(&self) -> Option<std::time::SystemTime> {
        epoch_plus_secs(self.secs)
    }
}

/// Given that `value(prefix(i)) * 10 + d` already overflows and `s[i]` is a
/// digit of value `d`, no all-digit reading of the whole of `s` fits.
proof fn lemma_overflow_invalid(s: Seq<char>, i: int, acc: int, d: int)
    requires
        0 <= i < s.len(),
        all_dec_digits(s.subrange(0, i)),
        acc == dec_value(s.subrange(0, i)),
        is_dec_digit(s[i]),
        d == dec_digit_value(s[i]),
        acc * 10 + d > u64::MAX,
    ensures
        !ts_text_valid(s),
{
    if all_dec_digits(s) && dec_value(s) <= u64::MAX {
        let next = s.subrange(0, i + 1);
        assert(next.drop_last() =~= s.subrange(0, i));
        assert(next.last() == s[i]);
        assert(dec_value(next) == acc * 10 + d);
        lemma_dec_value_prefix_le(s, i + 1);
        assert(false);
    }
}

#[verifier::external_type_specification]
#[verifier::external_body]
pub struct ExSystemTime(std::time::SystemTime);

/// Relies on std's `SystemTime::now`: the wall clock.  The value depends
/// on the clock, so nothing is assumed of it.
#[verifier::external_body]
fn system_time_now() -> std::time::SystemTime {
    std::time::SystemTime::now()
}

/// Relies on std's `SystemTime::duration_since`: the instant as whole
/// seconds since the Unix epoch, or 0 for an instant before the epoch.
#[verifier::external_body]
fn seconds_since_epoch(at: &std::time::SystemTime) -> u64 {
    at.duration_since(std::time::SystemTime::UNIX_EPOCH).map(|d| d.as_secs()).unwrap_or(0)
}

/// Relies on std's `SystemTime::checked_add`: the epoch moved forward by
/// the given number of seconds, or `None` where the platform cannot
/// represent that instant.
#[verifier::external_body]
fn epoch_plus_secs(secs: u64) -> Option<std::time::SystemTime> {
    std::time::SystemTime::UNIX_EPOCH.checked_add(std::time::Duration::from_secs(secs))
}

} // verus!
