use tracebuild::id::BuildId;
use tracebuild::id::StepId;
use tracebuild::status::ParseError;

#[test]
fn generated_id_round_trips() {
    for _ in 0..32 {
        let id = BuildId::generate();
        let text = id.format();
        assert_eq!(text.len(), 48);
        let back = BuildId::from_str(text.as_str()).expect("formatted id must parse");
        assert_eq!(back, id);
    }
}

#[test]
fn format_is_zero_padded_lowercase() {
    let id = BuildId { trace: 0x00ab_cdef, span: 0x1234 };
    // 32 hex characters for the trace half, 16 for the span half.
    assert_eq!(id.format(), "00000000000000000000000000abcdef0000000000001234");
}

#[test]
fn parse_known_text() {
    let id = BuildId::from_str("00000000000000000000000000abcdef0000000000001234").unwrap();
    assert_eq!(id.trace, 0xabcdef);
    assert_eq!(id.span, 0x1234);
}

#[test]
fn parse_accepts_uppercase_hex() {
    let id = BuildId::from_str("00000000000000000000000000ABCDEF0000000000001234").unwrap();
    assert_eq!(id.trace, 0xabcdef);
    assert_eq!(id.span, 0x1234);
    // ... but formatting always emits lowercase.
    assert_eq!(id.format(), "00000000000000000000000000abcdef0000000000001234");
}

#[test]
fn parse_rejects_wrong_length() {
    assert_eq!(BuildId::from_str("").unwrap_err(), ParseError::MalformedId);
    assert_eq!(BuildId::from_str("abc").unwrap_err(), ParseError::MalformedId);
    // 47 characters.
    let s47 = "0".repeat(47);
    assert_eq!(BuildId::from_str(&s47).unwrap_err(), ParseError::MalformedId);
    // 49 characters.
    let s49 = "0".repeat(49);
    assert_eq!(BuildId::from_str(&s49).unwrap_err(), ParseError::MalformedId);
}

#[test]
fn parse_rejects_non_hex_in_trace_half() {
    let mut s: Vec<char> = "0".repeat(48).chars().collect();
    s[10] = 'g';
    let s: String = s.into_iter().collect();
    assert_eq!(BuildId::from_str(&s).unwrap_err(), ParseError::MalformedId);
}

#[test]
fn parse_rejects_non_hex_in_span_half() {
    let mut s: Vec<char> = "0".repeat(48).chars().collect();
    s[40] = '!';
    let s: String = s.into_iter().collect();
    assert_eq!(BuildId::from_str(&s).unwrap_err(), ParseError::MalformedId);
}

#[test]
fn parse_rejects_sign_characters() {
    // A leading `+` would be accepted by a naive integer parser; the codec
    // accepts hexadecimal digits only.
    let mut s: Vec<char> = "0".repeat(48).chars().collect();
    s[0] = '+';
    let s: String = s.into_iter().collect();
    assert_eq!(BuildId::from_str(&s).unwrap_err(), ParseError::MalformedId);
    let mut t: Vec<char> = "0".repeat(48).chars().collect();
    t[32] = '+';
    let t: String = t.into_iter().collect();
    assert_eq!(BuildId::from_str(&t).unwrap_err(), ParseError::MalformedId);
}

#[test]
fn parse_counts_characters_not_bytes() {
    // 48 characters, one of them non-ASCII: right length, still rejected
    // as non-hexadecimal.
    let s = format!("é{}", "0".repeat(47));
    assert_eq!(s.chars().count(), 48);
    assert_eq!(BuildId::from_str(&s).unwrap_err(), ParseError::MalformedId);
}

#[test]
fn extreme_values_round_trip() {
    for id in [
        BuildId { trace: 0, span: 0 },
        BuildId { trace: u128::MAX, span: u64::MAX },
        BuildId { trace: 1, span: u64::MAX },
    ] {
        let back = BuildId::from_str(id.format().as_str()).unwrap();
        assert_eq!(back, id);
    }
}

#[test]
fn step_id_shares_the_codec() {
    let step = StepId::generate();
    let text = step.format();
    assert_eq!(text.len(), 48);
    let back = StepId::from_str(text.as_str()).unwrap();
    assert_eq!(back, step);
    assert_eq!(StepId::from_str("nope").unwrap_err(), ParseError::MalformedId);
}
