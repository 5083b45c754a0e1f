use gluster_flexvol::capacity::{
    bytes_from_gigabytes, current_quota, expanded_limit, find_limit, gigabytes_from_bytes,
    QuotaEntry, BYTES_PER_GIGABYTE,
};
use gluster_flexvol::error::ErrorKind;

fn quota(path: &str, limit_bytes: u64) -> QuotaEntry {
    QuotaEntry { path: path.to_string(), limit_bytes }
}

#[test]
fn a_gigabyte_is_two_to_the_thirtieth() {
    assert_eq!(BYTES_PER_GIGABYTE, 1024 * 1024 * 1024);
    assert_eq!(bytes_from_gigabytes(0), Some(0));
    assert_eq!(bytes_from_gigabytes(1), Some(1073741824));
    assert_eq!(bytes_from_gigabytes(10), Some(10737418240));
}

#[test]
fn sizes_beyond_64_bits_have_no_bytes() {
    let most = u64::MAX / BYTES_PER_GIGABYTE;
    assert_eq!(most, 17179869183);
    assert_eq!(bytes_from_gigabytes(most), Some(18446744072635809792));
    assert_eq!(bytes_from_gigabytes(most + 1), None);
    assert_eq!(bytes_from_gigabytes(u64::MAX), None);
}

#[test]
fn bytes_are_rounded_down_to_gigabytes() {
    assert_eq!(gigabytes_from_bytes(0), 0);
    assert_eq!(gigabytes_from_bytes(1073741823), 0);
    assert_eq!(gigabytes_from_bytes(1073741824), 1);
    assert_eq!(gigabytes_from_bytes(3 * 1073741824 + 5), 3);
    assert_eq!(gigabytes_from_bytes(u64::MAX), 17179869183);
}

#[test]
fn the_limit_on_a_path_is_found() {
    let quotas = vec![quota("/a", 1), quota("/b", 2), quota("/c", 3)];
    assert_eq!(find_limit(&quotas, "/b"), Some(2));
    assert_eq!(find_limit(&quotas, "/d"), None);
    assert_eq!(find_limit(&quotas, "b"), None);
    assert_eq!(find_limit(&Vec::new(), "/a"), None);
}

#[test]
fn the_last_entry_for_a_path_is_in_force() {
    let quotas = vec![quota("/a", 1), quota("/b", 2), quota("/a", 7)];
    assert_eq!(find_limit(&quotas, "/a"), Some(7));
}

#[test]
fn a_volume_without_quota_has_size_zero() {
    assert_eq!(current_quota(&Vec::new(), "id1"), 0);
    let quotas = vec![quota("/other", 5 * BYTES_PER_GIGABYTE)];
    assert_eq!(current_quota(&quotas, "id1"), 0);
}

#[test]
fn the_size_of_a_volume_is_its_quota_in_gigabytes() {
    let quotas = vec![
        quota("/id1", 10 * BYTES_PER_GIGABYTE),
        quota("/id2", 3 * BYTES_PER_GIGABYTE + 1073741823),
        quota("id3", 4 * BYTES_PER_GIGABYTE),
    ];
    assert_eq!(current_quota(&quotas, "id1"), 10);
    assert_eq!(current_quota(&quotas, "id2"), 3);
    assert_eq!(current_quota(&quotas, "id3"), 0);
}

#[test]
fn a_limit_grows_by_the_gigabytes_added() {
    assert_eq!(expanded_limit(10737418240, 5), Ok(16106127360));
    assert_eq!(expanded_limit(7, 0), Ok(7));
    assert_eq!(expanded_limit(0, 1), Ok(1073741824));
}

#[test]
fn a_limit_beyond_64_bits_is_an_invalid_argument() {
    let e = expanded_limit(u64::MAX, 1).unwrap_err();
    assert_eq!(e.kind, ErrorKind::InvalidArgument);
    assert_eq!(e.message, "The size in bytes does not fit in 64 bits");
    assert!(expanded_limit(1, 17179869184).is_err());
    assert_eq!(expanded_limit(1073741823, 17179869183), Ok(u64::MAX));
}
