use server::text::{same_text, split_first, text_after_last, text_before_first, text_strip_leading, to_lowercase_text};

#[test]
fn after_last_separator() {
    assert_eq!(text_after_last("a/b/c", '/'), "c");
    assert_eq!(text_after_last("abc", '/'), "abc");
    assert_eq!(text_after_last("abc/", '/'), "");
    assert_eq!(text_after_last("", '/'), "");
    assert_eq!(text_after_last("/", '/'), "");
    assert_eq!(text_after_last("notes.tar.gz", '.'), "gz");
    assert_eq!(text_after_last("über/straße.txt", '/'), "straße.txt");
}

#[test]
fn before_first_separator() {
    assert_eq!(text_before_first("a/b/c", '/'), "a");
    assert_eq!(text_before_first("abc", '/'), "abc");
    assert_eq!(text_before_first("/abc", '/'), "");
    assert_eq!(text_before_first("", '/'), "");
    assert_eq!(text_before_first("notes.tar.gz", '.'), "notes");
    assert_eq!(text_before_first("straße.txt", '.'), "straße");
}

#[test]
fn split_at_first_separator() {
    assert_eq!(split_first("a/b/c", '/'), ("a".to_string(), Some("b/c".to_string())));
    assert_eq!(split_first("abc", '/'), ("abc".to_string(), None));
    assert_eq!(split_first("abc/", '/'), ("abc".to_string(), Some(String::new())));
    assert_eq!(split_first("/", '/'), (String::new(), Some(String::new())));
    assert_eq!(split_first("", '/'), (String::new(), None));
}

#[test]
fn strip_one_leading_character() {
    assert_eq!(text_strip_leading("/file/x", '/'), "file/x");
    assert_eq!(text_strip_leading("//file", '/'), "/file");
    assert_eq!(text_strip_leading("file", '/'), "file");
    assert_eq!(text_strip_leading("", '/'), "");
}

#[test]
fn texts_compare_by_content() {
    assert!(same_text("pdf", "pdf"));
    assert!(!same_text("pdf", "PDF"));
    assert!(!same_text("pdf", "pd"));
    assert!(same_text("", ""));
}

#[test]
fn lower_case() {
    assert_eq!(to_lowercase_text("PDF"), "pdf");
    assert_eq!(to_lowercase_text("JpEg"), "jpeg");
    assert_eq!(to_lowercase_text("png"), "png");
}
