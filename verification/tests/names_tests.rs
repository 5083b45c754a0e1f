use gluster_flexvol::error::ErrorKind;
use gluster_flexvol::names::{
    choose_name, export_path_of, generated, is_valid_name, list_names, list_subdirectories,
    location_of, quota_path_of, resolve_name, sub_directory_of, volume_label_of,
};
use gluster_flexvol::store::DirEntry;

fn entry(name: &str, is_dir: bool) -> DirEntry {
    DirEntry { name: name.to_string(), file_type: if is_dir { libc::DT_DIR } else { libc::DT_REG } }
}

#[test]
fn letters_and_numbers_make_a_name() {
    assert!(is_valid_name("data1"));
    assert!(is_valid_name("DATA"));
    assert!(is_valid_name("2024"));
    assert!(is_valid_name("京٣"));
    assert!(is_valid_name(""));
}

#[test]
fn other_characters_do_not() {
    assert!(!is_valid_name("data-1"));
    assert!(!is_valid_name("data 1"));
    assert!(!is_valid_name("a/b"));
    assert!(!is_valid_name(".."));
    assert!(!is_valid_name("vol_1"));
    assert!(!is_valid_name("💝"));
}

#[test]
fn validity_agrees_with_the_character_classes() {
    for name in ["abc", "a b", "x_y", "٣", "¾", "K9", "a.b", "é"].iter() {
        let expected = name.chars().all(|c| c.is_alphabetic() || c.is_numeric());
        assert_eq!(is_valid_name(name), expected);
    }
}

#[test]
fn a_requested_name_is_kept() {
    let chosen = choose_name(&Some("data1".to_string()), "abc");
    assert_eq!(chosen, Ok("data1".to_string()));
}

#[test]
fn a_missing_name_is_generated() {
    assert_eq!(choose_name(&None, "abc"), Ok("vol_abc".to_string()));
    assert_eq!(choose_name(&Some(String::new()), "abc"), Ok("vol_abc".to_string()));
    assert_eq!(generated("1-2"), "vol_1-2");
}

#[test]
fn an_invalid_name_is_an_invalid_argument() {
    let e = choose_name(&Some("bad name".to_string()), "abc").unwrap_err();
    assert_eq!(e.kind, ErrorKind::InvalidArgument);
    assert_eq!(e.message, "Only numbers and letters are allowed in the volume name");
}

#[test]
fn paths_of_a_volume() {
    assert_eq!(sub_directory_of("id1", "data1"), "id1/data1");
    assert_eq!(quota_path_of("id1"), "/id1");
    assert_eq!(volume_label_of("vol", "id1", "data1"), "vol/id1/data1");
    assert_eq!(location_of("vol", "id1", "data1"), "/volumes/vol/id1/data1");
    assert_eq!(export_path_of("10.0.0.1", "vol", "id1", "data1"), "10.0.0.1:/vol/id1/data1");
}

#[test]
fn paths_with_an_empty_display_name() {
    assert_eq!(sub_directory_of("id1", ""), "id1/");
    assert_eq!(location_of("vol", "id1", ""), "/volumes/vol/id1/");
    assert_eq!(export_path_of("h", "vol", "id1", ""), "h:/vol/id1/");
}

#[test]
fn the_first_subdirectory_is_the_display_name() {
    let entries = vec![
        entry(".", true),
        entry("..", true),
        entry("notes", false),
        entry("data1", true),
        entry("other", true),
    ];
    assert_eq!(resolve_name(&entries), Some("data1".to_string()));
}

#[test]
fn a_directory_without_subdirectory_has_no_display_name() {
    assert_eq!(resolve_name(&Vec::new()), None);
    let entries = vec![entry(".", true), entry("..", true), entry("file", false)];
    assert_eq!(resolve_name(&entries), None);
}

#[test]
fn subdirectories_are_listed_in_order() {
    let entries = vec![
        entry("b", true),
        entry(".", true),
        entry("file", false),
        entry("a", true),
        entry("..", true),
    ];
    assert_eq!(list_subdirectories(&entries), vec!["b".to_string(), "a".to_string()]);
    assert_eq!(
        list_names(&entries),
        vec!["b".to_string(), "file".to_string(), "a".to_string()]
    );
    assert!(list_subdirectories(&Vec::new()).is_empty());
}
