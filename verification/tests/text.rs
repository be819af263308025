use arcanaeum::text::{chars_of, contains, decimal_string, matches_at, same_text, starts_with};

fn chars(s: &str) -> Vec<char> {
    s.chars().collect()
}

#[test]
fn same_text_compares_every_character() {
    assert!(same_text("", ""));
    assert!(same_text("Skyrim.esm", "Skyrim.esm"));
    assert!(same_text("é€😀", "é€😀"));
    assert!(!same_text("Skyrim.esm", "Skyrim.esp"));
    assert!(!same_text("Skyrim.esm", "skyrim.esm"));
    assert!(!same_text("Skyrim.esm", "Skyrim.es"));
    assert!(!same_text("", " "));
    assert!(!same_text("e\u{301}", "é"));
}

#[test]
fn starts_with_compares_characters() {
    assert!(starts_with("ccbgssse001-fish.esm", "cc"));
    assert!(starts_with("cc", "cc"));
    assert!(starts_with("anything", ""));
    assert!(starts_with("", ""));
    assert!(starts_with("é€x", "é€"));
    assert!(!starts_with("c", "cc"));
    assert!(!starts_with("", "c"));
    assert!(!starts_with("xcc", "cc"));
    assert!(!starts_with("cxc", "cc"));
    assert!(!starts_with("éx", "e"));
}

#[test]
fn chars_of_gives_the_characters() {
    assert_eq!(chars_of(""), Vec::<char>::new());
    assert_eq!(chars_of("aé€😀"), vec!['a', 'é', '€', '😀']);
}

#[test]
fn matches_at_needs_the_whole_pattern() {
    let text = chars("a\"path\"b");
    let key = chars("\"path\"");
    assert!(matches_at(&text, &key, 1));
    assert!(!matches_at(&text, &key, 0));
    assert!(!matches_at(&text, &key, 2));
    assert!(!matches_at(&text, &key, 3));
    assert!(!matches_at(&text, &key, usize::MAX));
    assert!(matches_at(&text, &[], 8));
    assert!(!matches_at(&text, &[], 9));
    assert!(matches_at(&text, &text, 0));
}

#[test]
fn contains_finds_the_pattern_anywhere() {
    let key = chars("\"path\"");
    assert!(contains(&chars("\"path\""), &key));
    assert!(contains(&chars("\t\t\"path\"\t\t\"C:\\\\Games\""), &key));
    assert!(contains(&chars("x\"pat\"path\""), &key));
    assert!(contains(&chars("ends with \"path\""), &key));
    assert!(!contains(&chars("\"path"), &key));
    assert!(!contains(&chars("path\""), &key));
    assert!(!contains(&chars("\"Path\""), &key));
    assert!(!contains(&chars(""), &key));
    assert!(contains(&chars(""), &[]));
    assert!(contains(&chars("abc"), &[]));
}

#[test]
fn decimal_string_writes_like_display() {
    assert_eq!(decimal_string(0), "0");
    assert_eq!(decimal_string(7), "7");
    assert_eq!(decimal_string(10), "10");
    assert_eq!(decimal_string(97), "97");
    assert_eq!(decimal_string(1440), "1440");
    assert_eq!(decimal_string(3440), "3440");
    assert_eq!(decimal_string(1_000_000_000), "1000000000");
    assert_eq!(decimal_string(u32::MAX), "4294967295");
    for n in [1u32, 9, 11, 99, 100, 101, 255, 256, 65535, 65536, 123_456_789] {
        assert_eq!(decimal_string(n), n.to_string());
    }
}
