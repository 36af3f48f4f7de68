use ustats::numbers::{is_float_text, parse_i64};
use ustats::text::decimal_string;

fn all_strings(alphabet: &[u8], max_len: usize) -> Vec<Vec<u8>> {
    let mut out: Vec<Vec<u8>> = vec![Vec::new()];
    let mut frontier: Vec<Vec<u8>> = vec![Vec::new()];
    for _ in 0..max_len {
        let mut next = Vec::new();
        for s in &frontier {
            for &c in alphabet {
                let mut t = s.clone();
                t.push(c);
                next.push(t);
            }
        }
        out.extend(next.iter().cloned());
        frontier = next;
    }
    out
}

#[test]
fn float_grammar_agrees_with_std_on_short_strings() {
    for s in all_strings(b"01.eE+-x", 5) {
        let text = String::from_utf8(s.clone()).unwrap();
        assert_eq!(is_float_text(&s), text.parse::<f64>().is_ok(), "input {:?}", text);
    }
}

#[test]
fn float_grammar_accepts_special_values_in_any_case() {
    for word in ["inf", "INF", "Infinity", "-infinity", "+NaN", "nan", "-inF"] {
        assert!(is_float_text(&word.as_bytes().to_vec()), "{}", word);
        assert!(word.parse::<f64>().is_ok());
    }
    for word in ["infin", "na", "nann", "in f", " inf", "inf "] {
        assert!(!is_float_text(&word.as_bytes().to_vec()), "{}", word);
        assert!(word.parse::<f64>().is_err());
    }
}

#[test]
fn float_grammar_typical_header_values() {
    for (text, ok) in [("0.42", true), ("1", true), ("1.0", true), ("85.5", true), ("", false), ("0,5", false), ("1e-3", true), (".5", true), ("5.", true), (".", false), ("1e", false)] {
        assert_eq!(is_float_text(&text.as_bytes().to_vec()), ok, "{}", text);
    }
}

#[test]
fn i64_parser_agrees_with_std_on_short_strings() {
    for s in all_strings(b"09+-a", 5) {
        let text = String::from_utf8(s.clone()).unwrap();
        assert_eq!(parse_i64(&s), text.parse::<i64>().ok(), "input {:?}", text);
    }
}

#[test]
fn i64_parser_limits() {
    let cases = [
        "9223372036854775807",
        "9223372036854775808",
        "-9223372036854775808",
        "-9223372036854775809",
        "+9223372036854775807",
        "00000000000000000000000000042",
        "-0",
        "99999999999999999999999",
        "1735689600",
        "17356x89600",
    ];
    for text in cases {
        assert_eq!(parse_i64(&text.as_bytes().to_vec()), text.parse::<i64>().ok(), "{}", text);
    }
    assert_eq!(parse_i64(&b"-9223372036854775808".to_vec()), Some(i64::MIN));
    assert_eq!(parse_i64(&b"1735689600".to_vec()), Some(1735689600));
}

#[test]
fn decimal_rendering_matches_display() {
    for n in [0u32, 7, 9, 10, 42, 99, 100, 1234567, u32::MAX] {
        assert_eq!(decimal_string(n), n.to_string());
    }
}
