use infobserve_processor::utils::{clamp_min, is_file_with_ext, same_text, select_by_ext};
use std::path::Path;

#[test]
fn clamps_when_below_min() {
    assert_eq!(2, clamp_min(2, 0));
}

#[test]
fn does_not_clamp_when_below_min() {
    assert_eq!(0, clamp_min(-2, 0));
}

#[test]
fn clamp_min_keeps_a_value_equal_to_the_minimum() {
    assert_eq!(7u64, clamp_min(7u64, 7u64));
    assert_eq!("b", clamp_min("a", "b"));
}

#[test]
fn a_rust_file_has_the_rs_extension() {
    assert!(is_file_with_ext("src/utils.rs", "rs"));
}

#[test]
fn a_rust_file_has_not_the_txt_extension() {
    assert!(!is_file_with_ext("src/utils.rs", "txt"));
}

#[test]
fn only_the_last_extension_counts() {
    assert!(is_file_with_ext("rules/archive.tar.gz", "gz"));
    assert!(!is_file_with_ext("rules/archive.tar.gz", "tar.gz"));
    assert!(!is_file_with_ext("rules/archive.tar.gz", "tar"));
}

#[test]
fn a_name_that_is_only_an_extension_has_none() {
    assert!(!is_file_with_ext(".yar", "yar"));
    assert!(!is_file_with_ext("rules/.yar", "yar"));
    assert!(is_file_with_ext("rules/a.yar", "yar"));
    assert!(is_file_with_ext("a.yar", "yar"));
}

#[test]
fn a_directory_with_the_extension_does_not_lend_it() {
    assert!(!is_file_with_ext("rules.yar/readme", "yar"));
    assert!(!is_file_with_ext("rules.yar/", "yar"));
}

#[test]
fn the_extension_is_matched_exactly() {
    assert!(!is_file_with_ext("rules/a.yara", "yar"));
    assert!(!is_file_with_ext("rules/a.YAR", "yar"));
    assert!(!is_file_with_ext("rules/ayar", "yar"));
    assert!(!is_file_with_ext("yar", "yar"));
    assert!(!is_file_with_ext("", "yar"));
    assert!(is_file_with_ext("rules/a.", ""));
}

#[test]
fn selection_keeps_the_order_and_the_duplicates() {
    let paths = vec![
        String::from("rules/b.yar"),
        String::from("rules/readme.md"),
        String::from("rules/a.yar"),
        String::from("rules/.yar"),
        String::from("rules/b.yar"),
        String::from("rules/sub/c.yar"),
    ];
    assert_eq!(
        select_by_ext(paths, "yar"),
        vec![
            String::from("rules/b.yar"),
            String::from("rules/a.yar"),
            String::from("rules/b.yar"),
            String::from("rules/sub/c.yar"),
        ]
    );
}

#[test]
fn selection_of_nothing_is_empty() {
    assert!(select_by_ext(Vec::new(), "yar").is_empty());
    assert!(select_by_ext(vec![String::from("a.txt")], "yar").is_empty());
}

#[test]
fn same_text_compares_the_whole_text() {
    assert!(same_text("QUIT", "QUIT"));
    assert!(!same_text("QUIT", "QUIT "));
    assert!(!same_text("quit", "QUIT"));
    assert!(same_text("", ""));
}

#[test]
fn the_extension_is_that_of_the_standard_library() {
    let paths = [
        "src/utils.rs",
        "yara-rules/generic_password.yar",
        "yara-rules/sub/dir/a.b.yar",
        "yara-rules/.yar",
        "yara-rules/..yar",
        "yara-rules/noext",
        "yara-rules/trailing.",
        "yara-rules.yar/inside",
        "a.yar",
        ".yar",
        "yar",
        "",
        "./a.yar",
        "../a.yar",
        "/abs/a.YAR",
        "rules/\u{e9}t\u{e9}.yar",
    ];
    for path in paths {
        for ext in ["yar", "rs", "YAR", "b.yar", ""] {
            let expected = Path::new(path).extension().and_then(|e| e.to_str()) == Some(ext);
            assert_eq!(is_file_with_ext(path, ext), expected, "{:?} {:?}", path, ext);
        }
    }
}
