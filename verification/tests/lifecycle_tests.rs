use std::collections::BTreeSet;

use gluster_flexvol::capacity::{QuotaEntry, BYTES_PER_GIGABYTE};
use gluster_flexvol::error::ErrorKind;
use gluster_flexvol::lifecycle::{
    CreateRequest, Kind, Operation, Progress, Reply, Stage, VolumeState,
};
use gluster_flexvol::store::{DirEntry, StoreAction, StoreEvent};
use gluster_flexvol::topology::describe_cluster;

/// A store in memory: directories, quotas and peers, and a record of what
/// was asked of it.
struct Store {
    dirs: BTreeSet<String>,
    quotas: Vec<QuotaEntry>,
    peers: Vec<String>,
    asked: Vec<StoreAction>,
    quotas_fail: bool,
}

impl Store {
    fn new(peers: &[&str]) -> Store {
        Store {
            dirs: BTreeSet::new(),
            quotas: Vec::new(),
            peers: peers.iter().map(|p| p.to_string()).collect(),
            asked: Vec::new(),
            quotas_fail: false,
        }
    }

    fn children(&self, path: &str) -> Vec<DirEntry> {
        let mut entries = vec![
            DirEntry { name: ".".to_string(), file_type: libc::DT_DIR },
            DirEntry { name: "..".to_string(), file_type: libc::DT_DIR },
        ];
        for dir in self.dirs.iter() {
            let name = if path == "/" {
                Some(dir.as_str())
            } else {
                dir.strip_prefix(path).and_then(|rest| rest.strip_prefix('/'))
            };
            match name {
                Some(n) if !n.is_empty() && !n.contains('/') => {
                    entries.push(DirEntry { name: n.to_string(), file_type: libc::DT_DIR })
                }
                _ => {}
            }
        }
        entries
    }

    fn perform(&mut self, action: &StoreAction) -> StoreEvent {
        self.asked.push(action.clone());
        match action {
            StoreAction::Exists { path } => StoreEvent::Exists(self.dirs.contains(path)),
            StoreAction::MakeDir { path, .. } => {
                if self.dirs.contains(path) {
                    StoreEvent::Failed(format!("{} exists", path))
                } else {
                    self.dirs.insert(path.clone());
                    StoreEvent::Done
                }
            }
            StoreAction::ChangeOwner { path, .. } | StoreAction::ChangeMode { path, .. } => {
                if self.dirs.contains(path) {
                    StoreEvent::Done
                } else {
                    StoreEvent::Failed(format!("{} not found", path))
                }
            }
            StoreAction::OpenDir { path } => {
                if path == "/" || self.dirs.contains(path) {
                    StoreEvent::Entries(self.children(path))
                } else {
                    StoreEvent::Failed(format!("{} not found", path))
                }
            }
            StoreAction::RemoveTree { path } => {
                if self.dirs.contains(path) {
                    let beneath = format!("{}/", path);
                    self.dirs.retain(|d| d != path && !d.starts_with(&beneath));
                    StoreEvent::Done
                } else {
                    StoreEvent::Failed(format!("{} not found", path))
                }
            }
            StoreAction::SetQuota { path, bytes, .. } => {
                if self.quotas_fail {
                    StoreEvent::Failed("quota command failed".to_string())
                } else {
                    self.quotas.retain(|q| &q.path != path);
                    self.quotas.push(QuotaEntry { path: path.clone(), limit_bytes: *bytes });
                    StoreEvent::Done
                }
            }
            StoreAction::GetQuotas { .. } => {
                if self.quotas_fail {
                    StoreEvent::Failed("quota command failed".to_string())
                } else {
                    StoreEvent::Quotas(self.quotas.clone())
                }
            }
            StoreAction::ListPeers => StoreEvent::Peers(self.peers.clone()),
        }
    }

    fn run(&mut self, op: Operation) -> Reply {
        self.run_from(Progress::Continue(op))
    }

    fn run_from(&mut self, progress: Progress) -> Reply {
        let mut progress = progress;
        loop {
            let op = match progress {
                Progress::Continue(op) => op,
                Progress::Finished(reply) => return reply,
            };
            let event = self.perform(&op.action());
            progress = op.resume(event);
        }
    }
}

fn request(size: u64, name: Option<&str>, gid: Option<u64>) -> CreateRequest {
    CreateRequest { size, name: name.map(|n| n.to_string()), gid }
}

fn path(p: &str) -> String {
    p.to_string()
}

#[test]
fn post_get_put_get() {
    let mut store = Store::new(&["10.0.0.1", "10.0.0.2"]);
    let op = Operation::create("vol", "test", &request(10, Some("data1"), Some(1000))).unwrap();
    let reply = store.run(op);
    assert_eq!(reply.status(), 202);

    let reply = store.run(Operation::describe("vol", "test"));
    assert_eq!(reply.status(), 200);

    let names = match store.run(Operation::survey("vol")) {
        Reply::Volumes(names) => names,
        other => panic!("unexpected {:?}", other),
    };
    let cluster = describe_cluster("cluster-test", None, &Vec::new(), names);
    assert_eq!(cluster.id, "cluster-test");
    assert_eq!(cluster.volumes, vec![path("test")]);
}

#[test]
fn create_with_name_and_group_then_describe() {
    let mut store = Store::new(&["host"]);
    let op = Operation::create("shared", "id7", &request(10, Some("data1"), Some(1000))).unwrap();
    let reply = store.run(op);
    assert_eq!(reply, Reply::Accepted { location: path("/volumes/shared/id7/data1") });
    assert_eq!(reply.status(), 202);

    let reply = store.run(Operation::describe_named("shared", "id7", "data1"));
    assert_eq!(reply.status(), 200);
    match reply {
        Reply::Volume(info) => {
            assert_eq!(info.size, 10);
            assert_eq!(info.name, "shared/id7/data1");
            assert_eq!(info.id, "id7");
            assert_eq!(info.cluster, "cluster-test");
            assert_eq!(info.display_name, Some(path("data1")));
            assert_eq!(info.mount.export_path, "host:/shared/id7/data1");
            assert_eq!(info.mount.primary_host, "host");
            assert_eq!(info.replica, 3);
            assert!(info.snapshot_enabled);
            assert_eq!(info.snapshot_factor_percent, 120);
        }
        other => panic!("unexpected {:?}", other),
    }
}

#[test]
fn create_without_name_then_describe() {
    let mut store = Store::new(&["host"]);
    let op = Operation::create("shared", "id8", &request(5, None, None)).unwrap();
    let reply = store.run(op);
    assert_eq!(reply, Reply::Accepted { location: path("/volumes/shared/id8/vol_id8") });
    assert!(store.dirs.contains("id8"));
    assert!(store.dirs.contains("id8/vol_id8"));

    match store.run(Operation::describe("shared", "id8")) {
        Reply::Volume(info) => {
            assert_eq!(info.size, 5);
            assert_eq!(info.display_name, Some(path("vol_id8")));
            assert_eq!(info.name, "shared/id8/vol_id8");
            assert_eq!(info.mount.export_path, "host:/shared/id8/vol_id8");
        }
        other => panic!("unexpected {:?}", other),
    }
}

#[test]
fn delete_of_a_missing_volume_is_a_failure() {
    let mut store = Store::new(&["host"]);
    let reply = store.run(Operation::delete("shared", "nothing", "data1"));
    assert_eq!(reply.status(), 500);
    match reply {
        Reply::Rejected(e) => {
            assert_eq!(e.kind, ErrorKind::Internal);
            assert_eq!(e.message, "remove nothing: nothing not found");
        }
        other => panic!("unexpected {:?}", other),
    }
    let reply = store.run(Operation::delete_by_id("shared", "nothing"));
    assert_eq!(reply.status(), 500);
}

#[test]
fn an_invalid_name_asks_nothing_of_the_store() {
    let e = Operation::create("shared", "id1", &request(10, Some("bad/name"), None)).unwrap_err();
    assert_eq!(e.kind, ErrorKind::InvalidArgument);
    assert_eq!(e.message, "Only numbers and letters are allowed in the volume name");
    let e = Operation::create_fresh("shared", &request(10, Some("a b"), None)).unwrap_err();
    assert_eq!(e.kind, ErrorKind::InvalidArgument);
}

#[test]
fn a_size_without_bytes_is_an_invalid_argument() {
    let e = Operation::create("shared", "id1", &request(17179869184, Some("a"), None)).unwrap_err();
    assert_eq!(e.kind, ErrorKind::InvalidArgument);
    assert_eq!(e.message, "The size in bytes does not fit in 64 bits");
    assert!(Operation::create("shared", "id1", &request(17179869183, Some("a"), None)).is_ok());
}

#[test]
fn the_actions_of_a_creation_with_a_group() {
    let mut store = Store::new(&["host"]);
    let op = Operation::create("shared", "id1", &request(2, Some("n"), Some(1000))).unwrap();
    store.run(op);
    assert_eq!(
        store.asked,
        vec![
            StoreAction::Exists { path: path("id1") },
            StoreAction::MakeDir { path: path("id1"), mode: 0o700 },
            StoreAction::MakeDir { path: path("id1/n"), mode: 0o700 },
            StoreAction::ChangeOwner { path: path("id1"), uid: 0, gid: 1000 },
            StoreAction::ChangeOwner { path: path("id1/n"), uid: 0, gid: 1000 },
            StoreAction::ChangeMode { path: path("id1"), mode: 0o570 },
            StoreAction::ChangeMode { path: path("id1/n"), mode: 0o570 },
            StoreAction::SetQuota { volume: path("shared"), path: path("/id1"), bytes: 2147483648 },
        ]
    );
}

#[test]
fn the_actions_of_a_creation_without_a_group() {
    let mut store = Store::new(&["host"]);
    let op = Operation::create("shared", "id1", &request(1, Some("n"), None)).unwrap();
    store.run(op);
    assert_eq!(
        store.asked,
        vec![
            StoreAction::Exists { path: path("id1") },
            StoreAction::MakeDir { path: path("id1"), mode: 0o700 },
            StoreAction::MakeDir { path: path("id1/n"), mode: 0o700 },
            StoreAction::ChangeMode { path: path("id1"), mode: 0o570 },
            StoreAction::ChangeMode { path: path("id1/n"), mode: 0o570 },
            StoreAction::SetQuota { volume: path("shared"), path: path("/id1"), bytes: 1073741824 },
        ]
    );
}

#[test]
fn an_existing_identity_is_not_made_again() {
    let mut store = Store::new(&["host"]);
    store.dirs.insert(path("id1"));
    store.dirs.insert(path("id1/n"));
    let op = Operation::create("shared", "id1", &request(1, Some("n"), None)).unwrap();
    let reply = store.run(op);
    assert_eq!(reply.status(), 202);
    assert_eq!(
        store.asked,
        vec![
            StoreAction::Exists { path: path("id1") },
            StoreAction::ChangeMode { path: path("id1"), mode: 0o570 },
            StoreAction::ChangeMode { path: path("id1/n"), mode: 0o570 },
            StoreAction::SetQuota { volume: path("shared"), path: path("/id1"), bytes: 1073741824 },
        ]
    );
}

#[test]
fn the_group_is_taken_by_its_low_32_bits() {
    let op = Operation::create("shared", "id1", &request(1, Some("n"), Some(4294967296 + 5)))
        .unwrap();
    assert_eq!(op.gid, Some(5));
    let op = Operation::create("shared", "id1", &request(1, Some("n"), Some(4294967295))).unwrap();
    assert_eq!(op.gid, Some(4294967295));
}

#[test]
fn a_quota_that_cannot_be_set_does_not_undo_a_creation() {
    let mut store = Store::new(&["host"]);
    store.quotas_fail = true;
    let op = Operation::create("shared", "id1", &request(1, Some("n"), None)).unwrap();
    let reply = store.run(op);
    assert_eq!(reply, Reply::Accepted { location: path("/volumes/shared/id1/n") });
    assert!(store.quotas.is_empty());
    match store.run(Operation::describe_named("shared", "id1", "n")) {
        Reply::Volume(info) => assert_eq!(info.size, 0),
        other => panic!("unexpected {:?}", other),
    }
}

#[test]
fn a_failure_of_the_store_ends_a_creation() {
    let op = Operation::create("shared", "id1", &request(1, Some("n"), None)).unwrap();
    let op = match op.resume(StoreEvent::Exists(false)) {
        Progress::Continue(op) => op,
        other => panic!("unexpected {:?}", other),
    };
    assert_eq!(op.action(), StoreAction::MakeDir { path: path("id1"), mode: 0o700 });
    match op.resume(StoreEvent::Failed(path("permission denied"))) {
        Progress::Finished(Reply::Rejected(e)) => {
            assert_eq!(e.kind, ErrorKind::Internal);
            assert_eq!(e.message, "make directory id1: permission denied");
        }
        other => panic!("unexpected {:?}", other),
    }
}

#[test]
fn every_failure_tells_what_was_tried() {
    let said = "no";
    let path = |p: &str| p.to_string();
    let cases = vec![
        (StoreAction::Exists { path: path("a") }, "look up a: no"),
        (StoreAction::MakeDir { path: path("a/b"), mode: 0o700 }, "make directory a/b: no"),
        (StoreAction::ChangeOwner { path: path("a"), uid: 0, gid: 5 }, "change owner of a: no"),
        (StoreAction::ChangeMode { path: path("a"), mode: 0o570 }, "change mode of a: no"),
        (StoreAction::OpenDir { path: path("/") }, "list directory /: no"),
        (StoreAction::RemoveTree { path: path("a") }, "remove a: no"),
        (
            StoreAction::SetQuota { volume: path("v"), path: path("/a"), bytes: 1 },
            "set quota on /a: no",
        ),
        (StoreAction::GetQuotas { volume: path("v") }, "list quotas of v: no"),
        (StoreAction::ListPeers, "list peers: no"),
    ];
    for (action, message) in cases.iter() {
        assert_eq!(action.failure(said), *message);
    }
}

#[test]
fn two_creations_of_one_name_do_not_meet() {
    let mut store = Store::new(&["host"]);
    let mut first = Operation::create("shared", "id1", &request(1, Some("data"), None)).unwrap();
    let mut second = Operation::create("shared", "id2", &request(2, Some("data"), None)).unwrap();
    let mut replies = Vec::new();
    loop {
        let event = store.perform(&first.action());
        let one = first.clone().resume(event);
        let event = store.perform(&second.action());
        let two = second.clone().resume(event);
        match (one, two) {
            (Progress::Continue(a), Progress::Continue(b)) => {
                first = a;
                second = b;
            }
            (Progress::Finished(a), Progress::Finished(b)) => {
                replies.push(a);
                replies.push(b);
                break;
            }
            other => panic!("unexpected {:?}", other),
        }
    }
    assert_eq!(
        replies,
        vec![
            Reply::Accepted { location: path("/volumes/shared/id1/data") },
            Reply::Accepted { location: path("/volumes/shared/id2/data") },
        ]
    );
    for dir in ["id1", "id1/data", "id2", "id2/data"].iter() {
        assert!(store.dirs.contains(*dir));
    }
    assert_eq!(store.quotas.len(), 2);
}

#[test]
fn two_creations_of_one_identity_leave_one_volume() {
    let mut store = Store::new(&["host"]);
    let first = Operation::create("shared", "id1", &request(1, Some("one"), None)).unwrap();
    let second = Operation::create("shared", "id1", &request(1, Some("two"), None)).unwrap();
    let exists = store.perform(&first.action());
    let first = match first.resume(exists) {
        Progress::Continue(op) => op,
        other => panic!("unexpected {:?}", other),
    };
    let exists = store.perform(&second.action());
    let second = match second.resume(exists) {
        Progress::Continue(op) => op,
        other => panic!("unexpected {:?}", other),
    };
    assert_eq!(first.stage, Stage::MakingTop);
    assert_eq!(second.stage, Stage::MakingTop);
    let made = store.perform(&first.action());
    let first = first.resume(made);
    let made = store.perform(&second.action());
    match second.resume(made) {
        Progress::Finished(Reply::Rejected(e)) => {
            assert_eq!(e.kind, ErrorKind::Internal);
            assert_eq!(e.message, "make directory id1: id1 exists");
        }
        other => panic!("unexpected {:?}", other),
    }
    let reply = store.run_from(first);
    assert_eq!(reply, Reply::Accepted { location: path("/volumes/shared/id1/one") });
    assert_eq!(store.run(Operation::describe("shared", "id1")).state(), Some(VolumeState::Ready));
    assert!(!store.dirs.contains("id1/two"));
}

#[test]
fn a_volume_that_is_not_there_has_no_content() {
    let mut store = Store::new(&["host"]);
    let reply = store.run(Operation::describe("shared", "id1"));
    assert_eq!(reply, Reply::NoContent);
    assert_eq!(reply.status(), 204);
    assert_eq!(store.asked, vec![StoreAction::Exists { path: path("id1") }]);
    assert_eq!(store.run(Operation::describe_named("shared", "id1", "n")), Reply::NoContent);
}

#[test]
fn delete_then_describe_has_no_content() {
    let mut store = Store::new(&["host"]);
    let op = Operation::create("shared", "id1", &request(1, Some("n"), None)).unwrap();
    store.run(op);
    let reply = store.run(Operation::delete("shared", "id1", "n"));
    assert_eq!(reply, Reply::Accepted { location: path("/volumes/shared/id1/n") });
    assert!(store.dirs.is_empty());
    assert_eq!(store.run(Operation::describe("shared", "id1")), Reply::NoContent);
    assert_eq!(store.run(Operation::describe("shared", "id1")), Reply::NoContent);
    assert!(store.dirs.is_empty());
}

#[test]
fn delete_by_identity_reads_the_display_name() {
    let mut store = Store::new(&["host"]);
    let op = Operation::create("shared", "id1", &request(1, Some("n"), None)).unwrap();
    store.run(op);
    store.asked.clear();
    let reply = store.run(Operation::delete_by_id("shared", "id1"));
    assert_eq!(reply, Reply::Accepted { location: path("/volumes/shared/id1/n") });
    assert_eq!(
        store.asked,
        vec![
            StoreAction::OpenDir { path: path("id1") },
            StoreAction::RemoveTree { path: path("id1") },
        ]
    );
    assert!(store.dirs.is_empty());
}

#[test]
fn expand_without_quota_is_not_found() {
    let mut store = Store::new(&["host"]);
    store.dirs.insert(path("id1"));
    let reply = store.run(Operation::expand("shared", "id1", "n", 5));
    assert_eq!(reply.status(), 404);
    match reply {
        Reply::Rejected(e) => {
            assert_eq!(e.kind, ErrorKind::NotFound);
            assert_eq!(e.message, "The volume has no quota to expand");
        }
        other => panic!("unexpected {:?}", other),
    }
    assert_eq!(store.asked, vec![StoreAction::GetQuotas { volume: path("shared") }]);
}

#[test]
fn expand_adds_to_the_quota() {
    let mut store = Store::new(&["host"]);
    let op = Operation::create("shared", "id1", &request(10, Some("n"), None)).unwrap();
    store.run(op);
    store.asked.clear();
    let reply = store.run(Operation::expand("shared", "id1", "n", 5));
    assert_eq!(reply, Reply::Accepted { location: path("/volumes/shared/id1/n") });
    assert_eq!(
        store.asked,
        vec![
            StoreAction::GetQuotas { volume: path("shared") },
            StoreAction::SetQuota {
                volume: path("shared"),
                path: path("/id1"),
                bytes: 15 * BYTES_PER_GIGABYTE,
            },
        ]
    );
    match store.run(Operation::describe_named("shared", "id1", "n")) {
        Reply::Volume(info) => assert_eq!(info.size, 15),
        other => panic!("unexpected {:?}", other),
    }
    store.run(Operation::expand("shared", "id1", "n", 0));
    assert_eq!(store.quotas[0].limit_bytes, 15 * BYTES_PER_GIGABYTE);
}

#[test]
fn expand_beyond_64_bits_is_an_invalid_argument() {
    let mut store = Store::new(&["host"]);
    store.quotas.push(QuotaEntry { path: path("/id1"), limit_bytes: u64::MAX - 5 });
    let reply = store.run(Operation::expand("shared", "id1", "n", 1));
    match reply {
        Reply::Rejected(e) => assert_eq!(e.kind, ErrorKind::InvalidArgument),
        other => panic!("unexpected {:?}", other),
    }
    assert_eq!(store.quotas[0].limit_bytes, u64::MAX - 5);
}

#[test]
fn a_quota_that_the_store_refuses_is_an_invalid_argument() {
    let op = Operation::expand("shared", "id1", "n", 1);
    let quotas = vec![QuotaEntry { path: path("/id1"), limit_bytes: 7 }];
    let op = match op.resume(StoreEvent::Quotas(quotas)) {
        Progress::Continue(op) => op,
        other => panic!("unexpected {:?}", other),
    };
    assert_eq!(op.stage, Stage::Limiting);
    assert_eq!(op.bytes, 1073741831);
    match op.resume(StoreEvent::Failed(path("cannot shrink"))) {
        Progress::Finished(Reply::Rejected(e)) => {
            assert_eq!(e.kind, ErrorKind::InvalidArgument);
            assert_eq!(e.message, "set quota on /id1: cannot shrink");
        }
        other => panic!("unexpected {:?}", other),
    }
}

#[test]
fn quotas_that_cannot_be_listed_fail_an_expansion() {
    let mut store = Store::new(&["host"]);
    store.quotas_fail = true;
    match store.run(Operation::expand("shared", "id1", "n", 1)) {
        Reply::Rejected(e) => {
            assert_eq!(e.kind, ErrorKind::Internal);
            assert_eq!(e.message, "list quotas of shared: quota command failed");
        }
        other => panic!("unexpected {:?}", other),
    }
}

#[test]
fn a_cluster_without_peers_is_unavailable() {
    let mut store = Store::new(&[]);
    store.dirs.insert(path("id1"));
    let reply = store.run(Operation::describe("shared", "id1"));
    assert_eq!(reply.status(), 503);
    match reply {
        Reply::Rejected(e) => {
            assert_eq!(e.kind, ErrorKind::Unavailable);
            assert_eq!(e.message, "The storage cluster lists no peers");
        }
        other => panic!("unexpected {:?}", other),
    }
}

#[test]
fn a_volume_without_subdirectory_is_described_without_name() {
    let mut store = Store::new(&["host"]);
    store.dirs.insert(path("id1"));
    match store.run(Operation::describe("shared", "id1")) {
        Reply::Volume(info) => {
            assert_eq!(info.display_name, None);
            assert_eq!(info.name, "shared/id1/");
            assert_eq!(info.mount.export_path, "host:/shared/id1/");
            assert_eq!(info.size, 0);
        }
        other => panic!("unexpected {:?}", other),
    }
}

#[test]
fn the_actions_of_a_description() {
    let mut store = Store::new(&["h1", "h2"]);
    store.dirs.insert(path("id1"));
    store.dirs.insert(path("id1/n"));
    store.run(Operation::describe("shared", "id1"));
    assert_eq!(
        store.asked,
        vec![
            StoreAction::Exists { path: path("id1") },
            StoreAction::ListPeers,
            StoreAction::OpenDir { path: path("id1") },
            StoreAction::GetQuotas { volume: path("shared") },
        ]
    );
    store.asked.clear();
    store.run(Operation::describe_named("shared", "id1", "n"));
    assert_eq!(
        store.asked,
        vec![
            StoreAction::Exists { path: path("id1") },
            StoreAction::ListPeers,
            StoreAction::GetQuotas { volume: path("shared") },
        ]
    );
}

#[test]
fn an_answer_that_was_not_asked_for_is_a_failure() {
    let op = Operation::describe("shared", "id1");
    match op.resume(StoreEvent::Done) {
        Progress::Finished(Reply::Rejected(e)) => {
            assert_eq!(e.kind, ErrorKind::Internal);
            assert_eq!(e.message, "The volume store gave an answer that was not asked for");
        }
        other => panic!("unexpected {:?}", other),
    }
    let op = Operation::delete("shared", "id1", "n");
    assert!(matches!(
        op.resume(StoreEvent::Exists(true)),
        Progress::Finished(Reply::Rejected(_))
    ));
    let op = Operation::list("shared");
    assert!(matches!(
        op.resume(StoreEvent::Peers(vec![path("h")])),
        Progress::Finished(Reply::Rejected(_))
    ));
}

#[test]
fn volumes_are_the_directories_at_the_top() {
    let mut store = Store::new(&["host"]);
    for id in ["b", "a"].iter() {
        let op = Operation::create("shared", id, &request(1, None, None)).unwrap();
        store.run(op);
    }
    store.asked.clear();
    let reply = store.run(Operation::list("shared"));
    assert_eq!(reply, Reply::Volumes(vec![path("a"), path("b")]));
    assert_eq!(reply.status(), 200);
    assert_eq!(store.asked, vec![StoreAction::OpenDir { path: path("/") }]);
}

#[test]
fn a_survey_lists_every_name() {
    let op = Operation::survey("shared");
    assert_eq!(op.action(), StoreAction::OpenDir { path: path("/") });
    let entries = vec![
        DirEntry { name: path("."), file_type: libc::DT_DIR },
        DirEntry { name: path(".."), file_type: libc::DT_DIR },
        DirEntry { name: path("file"), file_type: libc::DT_REG },
        DirEntry { name: path("id1"), file_type: libc::DT_DIR },
    ];
    assert_eq!(
        op.resume(StoreEvent::Entries(entries)),
        Progress::Finished(Reply::Volumes(vec![path("file"), path("id1")]))
    );
}

#[test]
fn a_description_shows_the_state_of_the_volume() {
    let mut store = Store::new(&["host"]);
    assert_eq!(store.run(Operation::describe("shared", "id1")).state(), Some(VolumeState::Absent));
    store.dirs.insert(path("id1"));
    assert_eq!(store.run(Operation::describe("shared", "id1")).state(), Some(VolumeState::Partial));
    store.dirs.insert(path("id1/n"));
    assert_eq!(store.run(Operation::describe("shared", "id1")).state(), Some(VolumeState::Ready));
    store.run(Operation::delete("shared", "id1", "n"));
    assert_eq!(store.run(Operation::describe("shared", "id1")).state(), Some(VolumeState::Absent));
    assert_eq!(store.run(Operation::list("shared")).state(), None);
    assert_eq!(Reply::Accepted { location: path("/") }.state(), None);
}

#[test]
fn a_request_that_was_not_let_in_asks_nothing() {
    let mut store = Store::new(&["host"]);
    let e = gluster_flexvol::error::Error::new(ErrorKind::Unauthenticated, "no token");
    let progress = Operation::delete("shared", "id1", "n").guarded(Err(e.clone()));
    assert_eq!(progress, Progress::Finished(Reply::Rejected(e)));
    let op = Operation::describe("shared", "id1");
    match op.clone().guarded(Ok(())) {
        Progress::Continue(same) => assert_eq!(same, op),
        other => panic!("unexpected {:?}", other),
    }
    assert_eq!(store.run(op), Reply::NoContent);
}

#[test]
fn files_at_the_top_are_no_volumes() {
    let op = Operation::list("shared");
    let entries = vec![
        DirEntry { name: path("."), file_type: libc::DT_DIR },
        DirEntry { name: path("file"), file_type: libc::DT_REG },
        DirEntry { name: path("id1"), file_type: libc::DT_DIR },
    ];
    assert_eq!(
        op.resume(StoreEvent::Entries(entries)),
        Progress::Finished(Reply::Volumes(vec![path("id1")]))
    );
}

#[test]
fn a_fresh_identity_is_a_random_uuid() {
    let op = Operation::create_fresh("shared", &request(1, None, None)).unwrap();
    let id: Vec<char> = op.id.chars().collect();
    assert_eq!(id.len(), 36);
    assert_eq!(id[14], '4');
    assert!("89ab".contains(id[19]));
    assert_eq!(op.name, Some(format!("vol_{}", op.id)));
    assert_eq!(op.kind, Kind::Create);
    assert_eq!(op.stage, Stage::Probing);
    let other = Operation::create_fresh("shared", &request(1, None, None)).unwrap();
    assert_ne!(op.id, other.id);
}
