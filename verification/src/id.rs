//! Build and step identifiers and their textual codec.
//!
//! A [`BuildId`] carries a 128-bit trace component and a 64-bit span
//! component.  Its textual form is exactly 48 lowercase hexadecimal
//! characters: 32 for the trace half, 16 for the span half, zero-padded so
//! the length never varies.  Parsing accepts upper- or lowercase hexadecimal
//! and fails on any other length or character.  A [`StepId`] has the same
//! layout and codec but names a step-level span.

use rand::Rng;
use vstd::prelude::*;
use vstd::string::StrSliceExecFns;

use crate::text::push_char;

verus! {

/// The value of a hexadecimal digit character, or 16 for any other character.
pub open spec fn hex_digit_value(c: char) -> int {
    let u = c as u32;
    if 48 <= u <= 57 {
        u - 48
    } else if 97 <= u <= 102 {
        u - 87
    } else if 65 <= u <= 70 {
        u - 55
    } else {
        16
    }
}

/// True for `0`-`9`, `a`-`f` and `A`-`F`.
pub open spec fn is_hex_digit(c: char) -> bool {
    hex_digit_value(c) < 16
}

pub open spec fn all_hex_digits(s: Seq<char>) -> bool {
    forall|i: int| 0 <= i < s.len() ==> is_hex_digit(#[trigger] s[i])
}

/// The lowercase hexadecimal digit for a value below 16.
pub open spec fn hex_char_of(d: int) -> char {
    if d < 10 {
        ((48 + d) as u32) as char
    } else {
        ((87 + d) as u32) as char
    }
}

/// `v` written in hexadecimal, zero-padded to exactly `w` digits
/// (the `w` least significant digits of `v`, most significant first).
pub open spec fn hex_str(v: int, w: nat) -> Seq<char>
    decreases w,
{
    if w == 0 {
        Seq::empty()
    } else {
        hex_str(v / 16, (w - 1) as nat).push(hex_char_of(v % 16))
    }
}

/// The value of a sequence of hexadecimal digit characters.
pub open spec fn hex_value(s: Seq<char>) -> int
    decreases s.len(),
{
    if s.len() == 0 {
        0
    } else {
        hex_value(s.drop_last()) * 16 + hex_digit_value(s.last())
    }
}

pub open spec fn pow16(w: nat) -> int
    decreases w,
{
    if w == 0 {
        1
    } else {
        16 * pow16((w - 1) as nat)
    }
}

proof fn lemma_pow16_pos(w: nat)
    ensures
        pow16(w) >= 1,
    decreases w,
{
    if w > 0 {
        lemma_pow16_pos((w - 1) as nat);
    }
}

proof fn lemma_pow16_32()
    ensures
        pow16(32) == 0x1_0000_0000_0000_0000_0000_0000_0000_0000,
        pow16(16) == 0x1_0000_0000_0000_0000,
{
    reveal_with_fuel(pow16, 33);
}

proof fn lemma_hex_str_len(v: int, w: nat)
    ensures
        hex_str(v, w).len() == w,
    decreases w,
{
    if w > 0 {
        lemma_hex_str_len(v / 16, (w - 1) as nat);
    }
}

proof fn lemma_hex_char_of_value(d: int)
    requires
        0 <= d < 16,
    ensures
        is_hex_digit(hex_char_of(d)),
        hex_digit_value(hex_char_of(d)) == d,
{
}

proof fn lemma_hex_str_all_hex(v: int, w: nat)
    requires
        v >= 0,
    ensures
        all_hex_digits(hex_str(v, w)),
    decreases w,
{
    if w > 0 {
        lemma_hex_str_all_hex(v / 16, (w - 1) as nat);
        lemma_hex_char_of_value(v % 16);
        let inner = hex_str(v / 16, (w - 1) as nat);
        let c = hex_char_of(v % 16);
        assert forall|i: int| 0 <= i < hex_str(v, w).len() implies is_hex_digit(
            #[trigger] hex_str(v, w)[i],
        ) by {
            if i < inner.len() {
                assert(hex_str(v, w)[i] == inner[i]);
            } else {
                assert(hex_str(v, w)[i] == c);
            }
        }
    }
}

/// Writing a value below `16^w` to `w` hexadecimal digits loses nothing.
proof fn lemma_hex_str_value(v: int, w: nat)
    requires
        0 <= v < pow16(w),
    ensures
        hex_value(hex_str(v, w)) == v,
    decreases w,
{
    if w == 0 {
        assert(v == 0);
    } else {
        lemma_pow16_pos((w - 1) as nat);
        assert(v / 16 < pow16((w - 1) as nat)) by (nonlinear_arith)
            requires
                v >= 0,
                pow16((w - 1) as nat) >= 1,
                v < 16 * pow16((w - 1) as nat),
        ;
        lemma_hex_str_value(v / 16, (w - 1) as nat);
        let inner = hex_str(v / 16, (w - 1) as nat);
        let c = hex_char_of(v % 16);
        assert(hex_str(v, w).drop_last() =~= inner);
        assert(hex_str(v, w).last() == c);
        lemma_hex_char_of_value(v % 16);
    }
}

/// A sequence of `n` hexadecimal digits holds a value below `16^n`.
proof fn lemma_hex_value_bound(s: Seq<char>)
    requires
        all_hex_digits(s),
    ensures
        0 <= hex_value(s) < pow16(s.len()),
    decreases s.len(),
{
    if s.len() > 0 {
        assert(all_hex_digits(s.drop_last()));
        lemma_hex_value_bound(s.drop_last());
        assert(is_hex_digit(s.last()));
    }
}

/// An identifier for one build: a 128-bit trace component that names the
/// whole trace, and a 64-bit span component that names the build's own span.
#[derive(Clone, Copy, PartialEq, Eq, Structural, Debug)]
pub struct BuildId {
    pub trace: u128,
    pub span: u64,
}

/// The 48-character textual form: trace half then span half.
pub open spec fn spec_format_id(id: BuildId) -> Seq<char> {
    hex_str(id.trace as int, 32) + hex_str(id.span as int, 16)
}

/// Which texts denote an identifier: exactly 48 characters, each half
/// hexadecimal.
pub open spec fn id_text_valid(s: Seq<char>) -> bool {
    &&& s.len() == 48
    &&& all_hex_digits(s.subrange(0, 32))
    &&& all_hex_digits(s.subrange(32, 48))
}

/// The identifier a valid text denotes.
pub open spec fn spec_parse_id(s: Seq<char>) -> BuildId {
    BuildId {
        trace: hex_value(s.subrange(0, 32)) as u128,
        span: hex_value(s.subrange(32, 48)) as u64,
    }
}

/// Formatting an identifier always yields a text that parses back to it:
/// the codec is a lossless round trip, leading zeros included.
pub proof fn lemma_parse_format_round_trip(id: BuildId)
    ensures
        id_text_valid(spec_format_id(id)),
        spec_parse_id(spec_format_id(id)) == id,
{
    let t = hex_str(id.trace as int, 32);
    let p = hex_str(id.span as int, 16);
    lemma_hex_str_len(id.trace as int, 32);
    lemma_hex_str_len(id.span as int, 16);
    assert(spec_format_id(id).subrange(0, 32) =~= t);
    assert(spec_format_id(id).subrange(32, 48) =~= p);
    lemma_hex_str_all_hex(id.trace as int, 32);
    lemma_hex_str_all_hex(id.span as int, 16);
    lemma_pow16_32();
    lemma_hex_str_value(id.trace as int, 32);
    lemma_hex_str_value(id.span as int, 16);
}

/// The lowercase hexadecimal digit of a value below 16.
fn hex_char(d: u8) -> (c: char)
    requires
        d < 16,
    ensures
        c == hex_char_of(d as int),
{
    if d < 10 {
        (48 + d) as char
    } else {
        (87 + d) as char
    }
}

/// Appends `v`'s `w` least significant hexadecimal digits, most significant
/// first.
fn append_hex(out: &mut String, v: u128, w: usize)
    ensures
        final(out)@ == old(out)@ + hex_str(v as int, w as nat),
    decreases w,
{
    if w > 0 {
        append_hex(out, v / 16, w - 1);
        let d: u8 = (v % 16) as u8;
        push_char(out, hex_char(d));
        proof {
            assert(old(out)@ + hex_str(v as int, w as nat) =~= (old(out)@ + hex_str(
                v as int / 16,
                (w - 1) as nat,
            )).push(hex_char_of(v as int % 16)));
        }
    } else {
        proof {
            assert(old(out)@ + hex_str(v as int, 0) =~= old(out)@);
        }
    }
}

/// Reads the hexadecimal digits `s[from..to]`; `None` as soon as any
/// character is not a hexadecimal digit.
fn parse_hex_range(s: &str, from: usize, to: usize) -> (r: Option<u128>)
    requires
        from <= to <= s@.len(),
        to - from <= 32,
    ensures
        r is Some <==> all_hex_digits(s@.subrange(from as int, to as int)),
        r is Some ==> r->0 as int == hex_value(s@.subrange(from as int, to as int)),
{
    let mut acc: u128 = 0;
    let mut i: usize = from;
    proof {
        assert(s@.subrange(from as int, from as int) =~= Seq::<char>::empty());
    }
    while i < to
        invariant
            from <= i <= to <= s@.len(),
            to - from <= 32,
            all_hex_digits(s@.subrange(from as int, i as int)),
            acc as int == hex_value(s@.subrange(from as int, i as int)),
            (acc as int) < pow16((i - from) as nat),
        decreases to - i,
    {
        let c = s.get_char(i);
        let u = c as u32;
        let d: u8 = if 48 <= u && u <= 57 {
            (u - 48) as u8
        } else if 97 <= u && u <= 102 {
            (u - 87) as u8
        } else if 65 <= u && u <= 70 {
            (u - 55) as u8
        } else {
            proof {
                assert(!is_hex_digit(s@.subrange(from as int, to as int)[i - from]));
            }
            return None;
        };
        proof {
            let prefix = s@.subrange(from as int, i as int);
            let next = s@.subrange(from as int, i as int + 1);
            assert(next.drop_last() =~= prefix);
            assert(next.last() == s@[i as int]);
            lemma_pow16_pos((i - from) as nat);
            assert(acc as int * 16 + d < pow16((i + 1 - from) as nat)) by (nonlinear_arith)
                requires
                    (acc as int) < pow16((i - from) as nat),
                    d < 16,
                    acc >= 0,
                    pow16((i + 1 - from) as nat) == 16 * pow16((i - from) as nat),
            ;
            lemma_pow16_le_32((i + 1 - from) as nat);
        }
        acc = acc * 16 + (d as u128);
        i += 1;
    }
    proof {
        assert(s@.subrange(from as int, to as int) =~= s@.subrange(from as int, i as int));
    }
    Some(acc)
}

proof fn lemma_pow16_le_32(w: nat)
    requires
        w <= 32,
    ensures
        pow16(w) <= 0x1_0000_0000_0000_0000_0000_0000_0000_0000,
{
    lemma_pow16_32();
    if w < 32 {
        lemma_pow16_monotone(w, 32);
    }
}

proof fn lemma_pow16_monotone(a: nat, b: nat)
    requires
        a <= b,
    ensures
        pow16(a) <= pow16(b),
    decreases b,
{
    if a < b {
        lemma_pow16_monotone(a, (b - 1) as nat);
        lemma_pow16_pos((b - 1) as nat);
    }
}

impl BuildId {
    /// The trace component, naming the whole trace.
    pub fn trace_id(&self) -> (r: u128)
        ensures
            r == self.trace,
    {
        self.trace
    }

    /// The span component, naming the build's own span.
    pub fn span_id(&self) -> (r: u64)
        ensures
            r == self.span,
    {
        self.span
    }

    /// A fresh identifier from a collision-resistant random source.
    pub fn generate() -> BuildId {
        BuildId { trace: random_u128(), span: random_u64() }
    }

    /// The 48-character lowercase hexadecimal form, zero-padded so that
    /// every value formats to the same length.
    pub fn format(&self) -> (r: String)
        ensures
            r@ == spec_format_id(*self),
    {
        let mut out = String::new();
        append_hex(&mut out, self.trace, 32);
        append_hex(&mut out, self.span as u128, 16);
        proof {
            assert(out@ =~= spec_format_id(*self));
        }
        out
    }

    /// Parses the 48-character hexadecimal form.  Fails exactly when the
    /// length differs from 48 or either half holds a non-hexadecimal
    /// character.
    pub fn from_str(s: &str) -> (r: Result<BuildId, crate::status::ParseError>)
        ensures
            r is Ok <==> id_text_valid(s@),
            r is Ok ==> r->Ok_0 == spec_parse_id(s@),
            r is Err ==> r->Err_0 == crate::status::ParseError::MalformedId,
    {
        if s.unicode_len() != 48 {
            return Err(crate::status::ParseError::MalformedId);
        }
        let trace = match parse_hex_range(s, 0, 32) {
            Some(v) => v,
            None => {
                return Err(crate::status::ParseError::MalformedId);
            },
        };
        let span128 = match parse_hex_range(s, 32, 48) {
            Some(v) => v,
            None => {
                return Err(crate::status::ParseError::MalformedId);
            },
        };
        proof {
            lemma_hex_value_bound(s@.subrange(32, 48));
            lemma_pow16_32();
        }
        let span: u64 = span128 as u64;
        Ok(BuildId { trace, span })
    }
}

/// An identifier for one step of a build: same layout and codec as a build
/// identifier, but context derivation uses only its span component.
#[derive(Clone, Copy, PartialEq, Eq, Structural, Debug)]
pub struct StepId(pub BuildId);

impl StepId {
    /// The span component, naming the step's span.
    pub fn span_id(&self) -> (r: u64)
        ensures
            r == self.0.span,
    {
        self.0.span_id()
    }

    /// A fresh identifier from a collision-resistant random source.
    pub fn generate() -> StepId {
        StepId(BuildId::generate())
    }

    /// See [`BuildId::format`].
    pub fn format(&self) -> (r: String)
        ensures
            r@ == spec_format_id(self.0),
    {
        self.0.format()
    }

    /// See [`BuildId::from_str`].
    pub fn from_str(s: &str) -> (r: Result<StepId, crate::status::ParseError>)
        ensures
            r is Ok <==> id_text_valid(s@),
            r is Ok ==> r->Ok_0.0 == spec_parse_id(s@),
            r is Err ==> r->Err_0 == crate::status::ParseError::MalformedId,
    {
        match BuildId::from_str(s) {
            Ok(id) => Ok(StepId(id)),
            Err(e) => Err(e),
        }
    }
}

/// Relies on rand's `thread_rng` and `Rng::gen`: a uniformly random value;
/// nothing is assumed of which one.
#[verifier::external_body]
fn random_u128() -> u128 {
    rand::thread_rng().gen()
}

/// Relies on rand's `thread_rng` and `Rng::gen`: a uniformly random value;
/// nothing is assumed of which one.
#[verifier::external_body]
fn random_u64() -> u64 {
    rand::thread_rng().gen()
}

} // verus!
