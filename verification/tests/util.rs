use via::util::{concat3, concat_slices, push_decimal, text_eq};

#[test]
fn decimal_notation() {
    for (n, text) in [(0u16, "0"), (7, "7"), (404, "404"), (65535, "65535")] {
        let mut out = String::from("#");
        push_decimal(&mut out, n);
        assert_eq!(out, format!("#{}", text));
    }
}

#[test]
fn text_helpers() {
    assert!(text_eq("a", "a"));
    assert!(!text_eq("a", "b"));
    assert_eq!(concat3("a", "b", "c"), "abc");
    assert_eq!(concat_slices(b"ab", b"c"), b"abc".to_vec());
}
