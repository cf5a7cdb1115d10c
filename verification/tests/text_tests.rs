use rkomga::text::{
    contains_text, integer_to_text, join_with_space, last_segment, same_text, unsigned_to_text,
};

#[test]
fn join_of_nothing_is_empty() {
    assert_eq!(join_with_space(&vec![]), "");
}

#[test]
fn join_of_one_part_is_the_part() {
    assert_eq!(join_with_space(&vec!["solo".to_string()]), "solo");
}

#[test]
fn join_puts_one_space_between_parts() {
    let parts = vec!["a".to_string(), "b".to_string(), "c".to_string()];
    assert_eq!(join_with_space(&parts), "a b c");
}

#[test]
fn join_keeps_empty_parts() {
    let parts = vec!["a".to_string(), "".to_string(), "b".to_string()];
    assert_eq!(join_with_space(&parts), "a  b");
}

#[test]
fn last_segment_of_an_address() {
    assert_eq!(last_segment("https://bgm.tv/subject/42"), "42");
}

#[test]
fn last_segment_without_separator_is_everything() {
    assert_eq!(last_segment("42"), "42");
}

#[test]
fn last_segment_after_trailing_separator_is_empty() {
    assert_eq!(last_segment("https://bgm.tv/subject/"), "");
}

#[test]
fn last_segment_of_nothing_is_empty() {
    assert_eq!(last_segment(""), "");
}

#[test]
fn last_segment_counts_characters_not_bytes() {
    assert_eq!(last_segment("漫画/结束/出版社"), "出版社");
}

#[test]
fn integers_in_decimal() {
    assert_eq!(integer_to_text(0), "0");
    assert_eq!(integer_to_text(7), "7");
    assert_eq!(integer_to_text(42), "42");
    assert_eq!(integer_to_text(1234567890), "1234567890");
    assert_eq!(integer_to_text(-1), "-1");
    assert_eq!(integer_to_text(-305), "-305");
}

#[test]
fn extreme_integers_in_decimal() {
    assert_eq!(integer_to_text(i64::MAX), "9223372036854775807");
    assert_eq!(integer_to_text(i64::MIN), "-9223372036854775808");
    assert_eq!(unsigned_to_text(u64::MAX), "18446744073709551615");
}

#[test]
fn integers_in_decimal_agree_with_the_standard_form() {
    let samples: Vec<i64> = vec![-1000, -99, -10, -9, 9, 10, 99, 100, 101, 65536];
    for n in samples {
        assert_eq!(integer_to_text(n), n.to_string());
    }
}

#[test]
fn same_text_compares_characters() {
    assert!(same_text("Bangumi", "Bangumi"));
    assert!(!same_text("Bangumi", "bangumi"));
    assert!(!same_text("Bangumi", "Bangum"));
    assert!(same_text("", ""));
    assert!(same_text("已挂削", "已挂削"));
    assert!(!same_text("已挂削", "已挂"));
}

#[test]
fn contains_text_finds_whole_items_only() {
    let items = vec!["one".to_string(), "two".to_string()];
    assert!(contains_text(&items, "two"));
    assert!(!contains_text(&items, "tw"));
    assert!(!contains_text(&vec![], "two"));
}
