use gluster_flexvol::text::{chars_of, has_prefix, holds_text, remove_all, stands_at, string_of};

#[test]
fn chars_and_back() {
    let chars = chars_of("a/β7");
    assert_eq!(chars, vec!['a', '/', 'β', '7']);
    assert_eq!(string_of(&chars), "a/β7");
    assert_eq!(string_of(&chars_of("")), "");
}

#[test]
fn prefix_is_found_only_at_the_start() {
    assert!(has_prefix("UUID=abc", "UUID"));
    assert!(has_prefix("UUID", "UUID"));
    assert!(has_prefix("anything", ""));
    assert!(!has_prefix("UUI", "UUID"));
    assert!(!has_prefix("xUUID=abc", "UUID"));
    assert!(!has_prefix("", "UUID"));
}

#[test]
fn pattern_stands_at_an_index() {
    let text = chars_of("hostname1=10.0.0.1");
    assert!(stands_at(&text, 0, &chars_of("hostname")));
    assert!(stands_at(&text, 9, &chars_of("=10")));
    assert!(!stands_at(&text, 1, &chars_of("hostname")));
    assert!(stands_at(&text, text.len(), &chars_of("")));
    assert!(!stands_at(&text, text.len(), &chars_of("1")));
    assert!(!stands_at(&text, text.len() + 1, &chars_of("")));
}

#[test]
fn every_occurrence_is_removed() {
    assert_eq!(remove_all("UUID=abc", "UUID="), "abc");
    assert_eq!(remove_all("aUUID=bUUID=c", "UUID="), "abc");
    assert_eq!(remove_all("UUIDx", "UUID="), "UUIDx");
    assert_eq!(remove_all("", "UUID="), "");
    assert_eq!(remove_all("UUID=", "UUID="), "");
}

#[test]
fn occurrences_do_not_overlap() {
    assert_eq!(remove_all("aaa", "aa"), "a");
    assert_eq!(remove_all("ababa", "aba"), "ba");
    assert_eq!(remove_all("abc", ""), "abc");
}

#[test]
fn removal_agrees_with_replace() {
    let texts = ["", "a", "aaaa", "abcabc", "hostname1=hostname1=x", "==", "a=b=c", "ββaβ"];
    let patterns = ["", "a", "aa", "abc", "hostname1=", "=", "β", "zz"];
    for text in texts.iter() {
        for pattern in patterns.iter() {
            assert_eq!(remove_all(text, pattern), text.replace(pattern, ""));
        }
    }
}

#[test]
fn prefix_agrees_with_starts_with() {
    let texts = ["", "a", "UUID", "UUID=1", "hostname", "hostname1=x", "βx"];
    let prefixes = ["", "a", "UUID", "hostname", "β", "x"];
    for text in texts.iter() {
        for prefix in prefixes.iter() {
            assert_eq!(has_prefix(text, prefix), text.starts_with(prefix));
        }
    }
}

#[test]
fn lists_of_strings() {
    let list = vec!["one".to_string(), "two".to_string()];
    assert!(holds_text(&list, "two"));
    assert!(!holds_text(&list, "three"));
    assert!(!holds_text(&Vec::new(), "one"));
}
