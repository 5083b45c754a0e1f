use gluster_flexvol::capacity::QuotaEntry;
use gluster_flexvol::error::{Error, ErrorKind};
use gluster_flexvol::lifecycle::Reply;
use gluster_flexvol::store::{
    in_use_mode, setup_mode, DirEntry, MODE_IN_USE, MODE_SETUP, OWNER_ROOT, TYPE_DIRECTORY,
};
use gluster_flexvol::volume::{
    describe_volume, the_cluster, VolumeType, REPLICA_COUNT, SNAPSHOT_FACTOR_PERCENT,
};

#[test]
fn volume_types_have_their_words() {
    assert_eq!(VolumeType::Replicate.as_word(), "replicate");
    assert_eq!(VolumeType::Disperse.as_word(), "disperse");
    assert_eq!(VolumeType::Plain.as_word(), "none");
    assert_eq!(VolumeType::from_word("replicate"), Some(VolumeType::Replicate));
    assert_eq!(VolumeType::from_word("disperse"), Some(VolumeType::Disperse));
    assert_eq!(VolumeType::from_word("none"), Some(VolumeType::Plain));
    assert_eq!(VolumeType::from_word("Replicate"), None);
    assert_eq!(VolumeType::from_word(""), None);
}

#[test]
fn the_defaults_of_a_description() {
    assert_eq!(REPLICA_COUNT, 3);
    assert_eq!(SNAPSHOT_FACTOR_PERCENT, 120);
    assert_eq!(the_cluster(), "cluster-test");
    let factor = SNAPSHOT_FACTOR_PERCENT as f64 / 100.0;
    assert_eq!(factor, 1.20);
}

#[test]
fn the_modes_of_a_volume() {
    assert_eq!(MODE_SETUP, libc::S_IRWXU as u32);
    assert_eq!(
        MODE_IN_USE,
        (libc::S_IRUSR | libc::S_IXUSR | libc::S_IRGRP | libc::S_IWGRP | libc::S_IXGRP) as u32
    );
    assert_eq!(OWNER_ROOT, 0);
    assert_eq!(setup_mode(), 0o700);
    assert_eq!(in_use_mode(), 0o570);
    assert_eq!(setup_mode(), MODE_SETUP);
    assert_eq!(in_use_mode(), MODE_IN_USE);
}

#[test]
fn a_directory_is_known_by_its_type() {
    assert_eq!(TYPE_DIRECTORY, libc::DT_DIR);
    assert!(DirEntry { name: "a".to_string(), file_type: 4 }.is_dir());
    assert!(!DirEntry { name: "a".to_string(), file_type: libc::DT_REG }.is_dir());
    assert!(!DirEntry { name: "a".to_string(), file_type: libc::DT_LNK }.is_dir());
    assert!(!DirEntry { name: "a".to_string(), file_type: 0 }.is_dir());
}

#[test]
fn a_description_from_peers_and_quotas() {
    let peers = vec!["h1".to_string(), "h2".to_string()];
    let quotas = vec![QuotaEntry { path: "/id1".to_string(), limit_bytes: 8 * 1073741824 + 9 }];
    let info = describe_volume(&peers, &quotas, "shared", "id1", &Some("data".to_string())).unwrap();
    assert_eq!(info.name, "shared/id1/data");
    assert_eq!(info.id, "id1");
    assert_eq!(info.size, 8);
    assert_eq!(info.volume_type, VolumeType::Replicate);
    assert_eq!(info.mount.export_path, "h1:/shared/id1/data");
    assert_eq!(info.mount.backup_hosts, peers);
    assert_eq!(info.mount.options[0].key, "backup-volfile-servers");
    assert_eq!(info.mount.options[0].value, "h1,h2");
    assert_eq!(describe_volume(&Vec::new(), &quotas, "shared", "id1", &None), None);
}

#[test]
fn every_class_of_failure_has_its_status() {
    assert_eq!(ErrorKind::InvalidArgument.status(), 400);
    assert_eq!(ErrorKind::Unauthenticated.status(), 401);
    assert_eq!(ErrorKind::NotFound.status(), 404);
    assert_eq!(ErrorKind::Internal.status(), 500);
    assert_eq!(ErrorKind::Unsupported.status(), 501);
    assert_eq!(ErrorKind::Unavailable.status(), 503);
    let e = Error::new(ErrorKind::NotFound, "gone");
    assert_eq!(e.message, "gone");
    assert_eq!(Reply::Rejected(e).status(), 404);
    assert_eq!(Reply::NoContent.status(), 204);
    assert_eq!(Reply::Accepted { location: String::new() }.status(), 202);
    assert_eq!(Reply::Volumes(Vec::new()).status(), 200);
}
