use backend::text::{
    chars_of, clone_opt, clone_texts, remove_all, same_opt, same_texts, string_of,
};

fn strip(text: &str, pattern: &str) -> String {
    string_of(&remove_all(&chars_of(text), &chars_of(pattern)))
}

#[test]
fn chars_and_back() {
    assert_eq!(chars_of("héllo"), vec!['h', 'é', 'l', 'l', 'o']);
    assert_eq!(string_of(&vec!['a', 'ß', 'c']), "aßc");
    assert_eq!(string_of(&chars_of("")), "");
    assert_eq!(chars_of("").len(), 0);
}

#[test]
fn remove_all_takes_out_every_occurrence_from_the_left() {
    assert_eq!(strip("a```b```c", "```"), "abc");
    assert_eq!(strip("aaaa", "aa"), "");
    assert_eq!(strip("aaa", "aa"), "a");
    assert_eq!(strip("ababa", "aba"), "ba");
    assert_eq!(strip("abc", "abcd"), "abc");
    assert_eq!(strip("abc", "abc"), "");
    assert_eq!(strip("abc", "x"), "abc");
    assert_eq!(strip("", "x"), "");
    assert_eq!(strip("xaxbx", "x"), "ab");
    assert_eq!(strip("ab", "b"), "a");
}

#[test]
fn remove_all_with_empty_pattern_changes_nothing() {
    assert_eq!(strip("abc", ""), "abc");
    assert_eq!(strip("", ""), "");
}

#[test]
fn optional_texts_compare_and_copy() {
    let some = Some("a".to_string());
    assert_eq!(clone_opt(&some), some);
    assert_eq!(clone_opt(&None), None);
    assert!(same_opt(&some, &Some("a".to_string())));
    assert!(!same_opt(&some, &Some("b".to_string())));
    assert!(!same_opt(&some, &None));
    assert!(!same_opt(&None, &some));
    assert!(same_opt(&None, &None));
}

#[test]
fn lists_of_texts_compare_and_copy() {
    let list = vec!["a".to_string(), "b".to_string()];
    assert_eq!(clone_texts(&list), list);
    assert!(same_texts(&list, &clone_texts(&list)));
    assert!(!same_texts(&list, &vec!["a".to_string()]));
    assert!(!same_texts(&list, &vec!["b".to_string(), "a".to_string()]));
    assert!(same_texts(&vec![], &vec![]));
}
