use hi_think_financial::form::{encode_query, i64_text, u64_text};

fn pairs(items: &[(&str, &str)]) -> Vec<(String, String)> {
    items.iter().map(|(k, v)| (k.to_string(), v.to_string())).collect()
}

#[test]
fn decimal_text_of_unsigned_integers() {
    assert_eq!(u64_text(0), "0");
    assert_eq!(u64_text(9), "9");
    assert_eq!(u64_text(10), "10");
    assert_eq!(u64_text(1_234_567_890), "1234567890");
    assert_eq!(u64_text(u64::MAX), "18446744073709551615");
}

#[test]
fn decimal_text_of_signed_integers() {
    assert_eq!(i64_text(0), "0");
    assert_eq!(i64_text(-1), "-1");
    assert_eq!(i64_text(1_716_105_600_000), "1716105600000");
    assert_eq!(i64_text(i64::MAX), "9223372036854775807");
    assert_eq!(i64_text(i64::MIN), "-9223372036854775808");
}

#[test]
fn form_encoding_keeps_unreserved_bytes_and_escapes_the_rest() {
    assert_eq!(encode_query(&pairs(&[])), "");
    assert_eq!(encode_query(&pairs(&[("", "")])), "=");
    assert_eq!(encode_query(&pairs(&[("a*-._Z9", "x y")])), "a*-._Z9=x+y");
    assert_eq!(encode_query(&pairs(&[("k", "a+b&c=d~/?#%")])), "k=a%2Bb%26c%3Dd%7E%2F%3F%23%25");
    assert_eq!(encode_query(&pairs(&[("cheese", "comté")])), "cheese=comt%C3%A9");
    assert_eq!(encode_query(&pairs(&[("a", "1"), ("b", ""), ("a", "2")])), "a=1&b=&a=2");
}
