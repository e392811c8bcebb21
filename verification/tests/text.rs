use note_api::text::{
    chars_of, ends_with, integer_to_text, natural_to_text, occurs_at_index, remove_all, same_text,
};

#[test]
fn chars_of_keeps_every_character_in_order() {
    assert_eq!(chars_of("héllo"), vec!['h', 'é', 'l', 'l', 'o']);
    assert_eq!(chars_of(""), Vec::<char>::new());
}

#[test]
fn same_text_compares_characters() {
    assert!(same_text("admin", "admin"));
    assert!(!same_text("admin", "Admin"));
    assert!(!same_text("admin", "admin "));
    assert!(same_text("", ""));
}

#[test]
fn occurs_at_index_finds_a_pattern_only_where_it_stands() {
    let text = chars_of("Bearer abc");
    let pattern = chars_of("Bearer ");
    assert!(occurs_at_index(&text, &pattern, 0));
    assert!(!occurs_at_index(&text, &pattern, 1));
    assert!(!occurs_at_index(&text, &pattern, 4));
    assert!(!occurs_at_index(&text, &pattern, 10));
    assert!(!occurs_at_index(&text, &pattern, 11));
    assert!(occurs_at_index(&text, &chars_of(""), 10));
}

#[test]
fn ends_with_tells_suffixes() {
    assert!(ends_with("photo.png", ".png"));
    assert!(ends_with("photo.jpg", ".jpg"));
    assert!(!ends_with("photo.png", ".jpg"));
    assert!(!ends_with("png", ".png"));
    assert!(ends_with(".png", ".png"));
    assert!(ends_with("anything", ""));
    assert!(!ends_with("photo.PNG", ".png"));
}

#[test]
fn remove_all_strips_the_bearer_prefix() {
    assert_eq!(remove_all("Bearer abc.def.ghi", "Bearer "), "abc.def.ghi");
}

#[test]
fn remove_all_strips_every_occurrence() {
    assert_eq!(remove_all("Bearer Bearer x", "Bearer "), "x");
    assert_eq!(remove_all("aBearer bBearer ", "Bearer "), "ab");
}

#[test]
fn remove_all_leaves_other_text_alone() {
    assert_eq!(remove_all("abc.def.ghi", "Bearer "), "abc.def.ghi");
    assert_eq!(remove_all("Bearer", "Bearer "), "Bearer");
    assert_eq!(remove_all("bearer abc", "Bearer "), "bearer abc");
    assert_eq!(remove_all("", "Bearer "), "");
}

#[test]
fn remove_all_with_an_empty_pattern_removes_nothing() {
    assert_eq!(remove_all("abc", ""), "abc");
}

#[test]
fn remove_all_takes_matches_from_the_left_without_overlap() {
    assert_eq!(remove_all("aaa", "aa"), "a");
    assert_eq!(remove_all("ababa", "aba"), "ba");
    assert_eq!(remove_all("aaaa", "aa"), "");
}

#[test]
fn remove_all_agrees_with_replace_by_nothing() {
    let patterns = ["Bearer ", "a", "ab", "é", "aa"];
    let texts = [
        "Bearer token",
        "Bearer Bearer Bearer ",
        "BeBearer arer ",
        "aaaaabaab",
        "héé é",
        "",
        "xyz",
    ];
    for pattern in patterns {
        for text in texts {
            assert_eq!(remove_all(text, pattern), text.replace(pattern, ""));
        }
    }
}

#[test]
fn integers_are_written_in_decimal() {
    assert_eq!(natural_to_text(0), "0");
    assert_eq!(natural_to_text(7), "7");
    assert_eq!(natural_to_text(10), "10");
    assert_eq!(natural_to_text(1_234_567_890), "1234567890");
    assert_eq!(natural_to_text(u64::MAX), "18446744073709551615");
    assert_eq!(integer_to_text(0), "0");
    assert_eq!(integer_to_text(-1), "-1");
    assert_eq!(integer_to_text(42), "42");
    assert_eq!(integer_to_text(-2_147_483_648), "-2147483648");
    assert_eq!(integer_to_text(i64::MAX), "9223372036854775807");
    assert_eq!(integer_to_text(i64::MIN), "-9223372036854775808");
    for n in [-1000i64, -99, -10, -9, 9, 10, 99, 100, 101, 999_999] {
        assert_eq!(integer_to_text(n), n.to_string());
    }
}
