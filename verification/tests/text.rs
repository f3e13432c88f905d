use fyc::aci::app::pod_metadata_url;
use fyc::text::{last_piece, parse_u32, split_text, str_concat};

#[test]
fn parse_u32_accepts_plain_digits() {
    assert_eq!(parse_u32("0"), Some(0));
    assert_eq!(parse_u32("1000"), Some(1000));
    assert_eq!(parse_u32("007"), Some(7));
}

#[test]
fn parse_u32_accepts_a_leading_plus() {
    assert_eq!(parse_u32("+42"), Some(42));
    assert_eq!(parse_u32("+"), None);
    assert_eq!(parse_u32("++1"), None);
}

#[test]
fn parse_u32_rejects_signs_letters_and_empty() {
    assert_eq!(parse_u32(""), None);
    assert_eq!(parse_u32("-1"), None);
    assert_eq!(parse_u32("12a"), None);
    assert_eq!(parse_u32(" 1"), None);
    assert_eq!(parse_u32("root"), None);
}

#[test]
fn parse_u32_bounds() {
    assert_eq!(parse_u32("4294967295"), Some(u32::MAX));
    assert_eq!(parse_u32("4294967296"), None);
    assert_eq!(parse_u32("99999999999999999999"), None);
}

#[test]
fn parse_u32_matches_std() {
    for s in ["", "0", "+0", "-0", "12", "+12", "1+2", "4294967295", "4294967296", "a", "٣"] {
        assert_eq!(parse_u32(s), s.parse::<u32>().ok(), "{}", s);
    }
}

#[test]
fn split_text_keeps_empty_pieces() {
    assert_eq!(split_text("a/b/c", '/'), vec!["a", "b", "c"]);
    assert_eq!(split_text("", '/'), vec![""]);
    assert_eq!(split_text("a//b/", '/'), vec!["a", "", "b", ""]);
    assert_eq!(split_text("/x", '/'), vec!["", "x"]);
}

#[test]
fn split_text_matches_std() {
    for s in ["", "/", "//", "abc", "a/b", "/a/b/", "é/ü"] {
        let ours = split_text(s, '/');
        let std_pieces: Vec<String> = s.split('/').map(|p| p.to_string()).collect();
        assert_eq!(ours, std_pieces, "{}", s);
    }
}

#[test]
fn last_piece_is_after_the_last_separator() {
    assert_eq!(last_piece("example.com/reduce-worker", '/'), "reduce-worker");
    assert_eq!(last_piece("plain", '/'), "plain");
    assert_eq!(last_piece("ends/", '/'), "");
}

#[test]
fn uuid_hyphenated_groups_lowercase_hex() {
    let bytes = [
        0xa1, 0xa2, 0xa3, 0xa4, 0xb1, 0xb2, 0xc1, 0xc2, 0xd1, 0xd2, 0xd3, 0xd4, 0xd5, 0xd6, 0xd7, 0xd8,
    ];
    assert_eq!(pod_metadata_url(bytes), "http://127.0.0.1:2377/a1a2a3a4-b1b2-c1c2-d1d2-d3d4d5d6d7d8");
    assert_eq!(pod_metadata_url([0; 16]), "http://127.0.0.1:2377/00000000-0000-0000-0000-000000000000");
}

#[test]
fn concat_joins() {
    assert_eq!(str_concat("ab", "cd"), "abcd");
    assert_eq!(str_concat("", ""), "");
}
