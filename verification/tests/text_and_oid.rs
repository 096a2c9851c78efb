use spr::oid::Oid;
use spr::text::contains;
use spr::text::join;
use spr::text::split;
use spr::text::split_once;
use spr::text::string_in;
use spr::text::to_chars;
use spr::text::trim;

#[test]
fn identity_in_hexadecimal() {
    let mut bytes = [0u8; 20];
    for (i, byte) in bytes.iter_mut().enumerate() {
        *byte = (i as u8) * 13 + 7;
    }
    let oid = Oid::from_bytes(bytes);
    assert_eq!(oid.to_hex(), "0714212e3b4855626f7c8996a3b0bdcad7e4f1fe");
    assert_eq!(oid.short_id(), "0714212");
    assert_eq!(oid.as_bytes(), &bytes);
    assert_eq!(Oid::from_bytes([0; 20]).to_hex(), "0".repeat(40));
    assert_eq!(Oid::from_bytes([0xff; 20]).to_hex(), "f".repeat(40));
}

#[test]
fn identities_are_compared_by_their_bytes() {
    let a = Oid::from_bytes([1; 20]);
    let mut bytes = [1u8; 20];
    assert!(a == Oid::from_bytes(bytes));
    bytes[19] = 2;
    assert!(a != Oid::from_bytes(bytes));
    bytes[19] = 1;
    bytes[0] = 0;
    assert!(a != Oid::from_bytes(bytes));
    let list = vec![Oid::from_bytes([3; 20]), a];
    assert!(a.is_in(&list));
    assert!(!Oid::from_bytes(bytes).is_in(&list));
    assert!(!a.is_in(&vec![]));
}

#[test]
fn white_space_around_a_text_is_left_out() {
    assert_eq!(trim("  a b  "), "a b");
    assert_eq!(trim("\t\r\n x \u{b}\u{c}"), "x");
    assert_eq!(trim("\u{85}\u{a0}\u{1680}\u{2000}\u{200a}x\u{2028}\u{2029}\u{202f}\u{205f}\u{3000}"), "x");
    assert_eq!(trim(""), "");
    assert_eq!(trim(" \n\t"), "");
    assert_eq!(trim("x"), "x");
    // Characters beside the white space stay.
    assert_eq!(trim("\u{200b}x\u{feff}"), "\u{200b}x\u{feff}");
    assert_eq!(trim("\u{1f}x\u{e}"), "\u{1f}x\u{e}");
    for text in ["  a b  ", "\u{2007}\u{180e}x", "é \u{2060}", "\u{1c}\u{1d}\u{1e}\u{1f}x"] {
        assert_eq!(trim(text), text.trim());
    }
}

#[test]
fn pieces_of_a_text() {
    assert_eq!(split("a,b,c", ','), vec!["a", "b", "c"]);
    assert_eq!(split("", ','), vec![""]);
    assert_eq!(split(",", ','), vec!["", ""]);
    assert_eq!(split("a,,b,", ','), vec!["a", "", "b", ""]);
    assert_eq!(split("no separator", ','), vec!["no separator"]);
    assert_eq!(split("é\0ü", '\0'), vec!["é", "ü"]);
    assert_eq!(split_once("a=b=c", '='), Some(("a".to_string(), "b=c".to_string())));
    assert_eq!(split_once("=", '='), Some(("".to_string(), "".to_string())));
    assert_eq!(split_once("abc", '='), None);
    assert_eq!(split_once("", '='), None);
}

#[test]
fn texts_put_together() {
    assert_eq!(spr::text::concat("a", "b"), "ab");
    assert_eq!(spr::text::concat("", ""), "");
    assert_eq!(join(&vec![], ", "), "");
    assert_eq!(join(&vec!["a".to_string()], ", "), "a");
    assert_eq!(
        join(&vec!["a".to_string(), "".to_string(), "c".to_string()], ", "),
        "a, , c"
    );
    assert_eq!(to_chars("aé"), vec!['a', 'é']);
}

#[test]
fn text_within_a_text() {
    assert!(contains("hello world", "lo w"));
    assert!(contains("hello", "hello"));
    assert!(contains("hello", ""));
    assert!(contains("", ""));
    assert!(!contains("hello", "hello!"));
    assert!(!contains("hello", "world"));
    assert!(contains("aab", "ab"));
    assert!(string_in(&vec!["a".to_string(), "b".to_string()], "b"));
    assert!(!string_in(&vec!["a".to_string(), "b".to_string()], "ab"));
    assert!(!string_in(&vec![], ""));
}

#[test]
fn decimal_forms_in_names() {
    let config = spr::config::Config::new(
        "owner".into(),
        "repo".into(),
        "origin".into(),
        "main".into(),
        "spr/".into(),
        false,
        false,
    );
    assert_eq!(config.pull_request_url(0), "https://github.com/owner/repo/pull/0");
    assert_eq!(config.pull_request_url(7), "https://github.com/owner/repo/pull/7");
    assert_eq!(config.pull_request_url(10), "https://github.com/owner/repo/pull/10");
    assert_eq!(
        config.pull_request_url(18446744073709551615),
        "https://github.com/owner/repo/pull/18446744073709551615"
    );
    assert_eq!(config.pull_request_url(1203405), "https://github.com/owner/repo/pull/1203405");
}
