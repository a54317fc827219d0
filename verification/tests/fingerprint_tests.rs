use dncl_trans::fingerprint::hash_content;
use dncl_trans::request::QuerySetting;
use std::collections::hash_map::DefaultHasher;
use std::hash::Hasher;

fn setting<'a>(api_key: &'a str, model: &'a str, seed: i64, limit: Option<u32>) -> QuerySetting<'a> {
    QuerySetting { api_key, model, seed, max_completion_tokens: limit }
}

#[test]
fn a_fingerprint_is_the_digest_of_the_bytes_below_the_largest_i64() {
    let mut hasher = DefaultHasher::new();
    hasher.write(b"hello");
    let expected = (hasher.finish() % (i64::MAX as u64)) as i64;
    assert_eq!(hash_content(b"hello"), expected);
}

#[test]
fn equal_bytes_have_equal_fingerprints() {
    let first = hash_content("表示する(1)".as_bytes());
    let second = hash_content("表示する(1)".to_string().as_bytes());
    assert_eq!(first, second);
}

#[test]
fn a_fingerprint_is_not_negative() {
    for text in ["", "a", "b", "some longer text", "```dncl\nx\n```"] {
        let key = hash_content(text.as_bytes());
        assert!(key >= 0);
        assert!(key < i64::MAX);
    }
}

#[test]
fn different_bytes_have_different_fingerprints_here() {
    assert_ne!(hash_content(b"a"), hash_content(b"b"));
    assert_ne!(hash_content(b""), hash_content(b"\0"));
}

#[test]
fn key_bytes_are_the_fields_one_after_the_other() {
    let bytes = setting("secret", "m", 1, Some(2)).key_bytes("p");
    let expected: Vec<u8> = vec![
        b'm', 0xff, 1, 0, 0, 0, 0, 0, 0, 0, 1, 2, 0, 0, 0, b'p', 0xff,
    ];
    assert_eq!(bytes, expected);
}

#[test]
fn key_bytes_of_a_negative_seed_and_no_limit() {
    let bytes = setting("", "gpt-4o", -1, None).key_bytes("");
    let mut expected: Vec<u8> = b"gpt-4o".to_vec();
    expected.push(0xff);
    expected.extend_from_slice(&[0xff; 8]);
    expected.push(0);
    expected.push(0xff);
    assert_eq!(bytes, expected);
}

#[test]
fn the_cache_key_is_the_fingerprint_of_the_key_bytes() {
    let s = setting("k", "gpt-4o", 42, Some(4096));
    assert_eq!(s.cache_key("prompt"), hash_content(&s.key_bytes("prompt")));
}

#[test]
fn the_credential_is_no_part_of_the_cache_key() {
    let first = setting("one", "gpt-4o", 7, None).cache_key("prompt");
    let second = setting("two", "gpt-4o", 7, None).cache_key("prompt");
    assert_eq!(first, second);
}

#[test]
fn each_field_is_part_of_the_cache_key() {
    let base = setting("", "gpt-4o", 7, None).cache_key("prompt");
    assert_ne!(base, setting("", "o1-preview", 7, None).cache_key("prompt"));
    assert_ne!(base, setting("", "gpt-4o", 8, None).cache_key("prompt"));
    assert_ne!(base, setting("", "gpt-4o", 7, Some(1)).cache_key("prompt"));
    assert_ne!(base, setting("", "gpt-4o", 7, None).cache_key("prompt."));
}

#[test]
fn a_text_moved_between_model_and_prompt_changes_the_key_bytes() {
    let first = setting("", "ab", 0, None).key_bytes("c");
    let second = setting("", "a", 0, None).key_bytes("bc");
    assert_ne!(first, second);
}
