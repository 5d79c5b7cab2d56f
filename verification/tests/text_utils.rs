use todo_logic::numeral::{render_i64, render_u64, render_usize};
use todo_logic::text::{
    contains_bytes, count_byte_exec, eq_bytes, param_keys_exec, replace_bytes, split_bytes,
    starts_with_bytes, to_lower_bytes,
};

#[test]
fn text_contains_finds_substrings() {
    assert!(contains_bytes(b"hello world", b"lo wo"));
    assert!(contains_bytes(b"hello", b""));
    assert!(contains_bytes(b"aaa", b"aaa"));
    assert!(!contains_bytes(b"hello", b"world"));
    assert!(!contains_bytes(b"ab", b"abc"));
}

#[test]
fn text_replace_is_leftmost_and_nonoverlapping() {
    assert_eq!(replace_bytes(b"aaa", b"aa", b"b"), b"ba".to_vec());
    assert_eq!(replace_bytes(b"a&&b&&c", b"&&", b";"), b"a;b;c".to_vec());
    assert_eq!(replace_bytes(b"none", b"xx", b"y"), b"none".to_vec());
    assert_eq!(replace_bytes(b"", b"x", b"y"), Vec::<u8>::new());
}

#[test]
fn text_split_keeps_empty_pieces() {
    let pieces: Vec<Vec<u8>> = split_bytes(b"a|b||c", b'|');
    assert_eq!(
        pieces,
        vec![b"a".to_vec(), b"b".to_vec(), Vec::new(), b"c".to_vec()]
    );
    assert_eq!(split_bytes(b"", b'|'), vec![Vec::<u8>::new()]);
    assert_eq!(split_bytes(b"|", b'|'), vec![Vec::<u8>::new(), Vec::new()]);
}

#[test]
fn text_param_keys_deduplicate() {
    let keys = param_keys_exec(b"a=1&b=2&a=3&broken&c=4");
    assert_eq!(keys, vec![b"a".to_vec(), b"b".to_vec(), b"c".to_vec()]);
}

#[test]
fn text_lower_and_prefix_helpers() {
    assert_eq!(to_lower_bytes(b"MiXeD 123"), b"mixed 123".to_vec());
    assert!(starts_with_bytes(b"https://x", b"https://"));
    assert!(!starts_with_bytes(b"http://x", b"https://"));
    assert!(eq_bytes(b"same", b"same"));
    assert!(!eq_bytes(b"same", b"same "));
    assert_eq!(count_byte_exec(b"a/b//c", b'/'), 3);
}

#[test]
fn numeral_renders_decimal() {
    assert_eq!(render_u64(0), b"0".to_vec());
    assert_eq!(render_u64(9070), b"9070".to_vec());
    assert_eq!(render_usize(12345), b"12345".to_vec());
    assert_eq!(render_i64(-42), b"-42".to_vec());
    assert_eq!(render_i64(i64::MIN), b"-9223372036854775808".to_vec());
}
