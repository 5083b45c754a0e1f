use gluster_flexvol::error::ErrorKind;
use gluster_flexvol::identity::Identity;
use gluster_flexvol::topology::{
    address_in_line, describe_cluster, describe_node, files_absent, find_setting,
    identity_in_line, list_clusters, locate, new_cluster, read_local_identity, read_peer_address,
    read_peer_identities, read_settings, refuse, setting_in_line, InventoryCall, Setting,
    Whereabouts,
};

fn lines(text: &[&str]) -> Vec<String> {
    text.iter().map(|l| l.to_string()).collect()
}

const NODE: u128 = 0xa1a2a3a4b1b2c1c2d1d2d3d4d5d6d7d8;

#[test]
fn the_identity_is_on_the_line_with_its_key() {
    let file = lines(&["operating-version=30712", "UUID=a1a2a3a4-b1b2-c1c2-d1d2-d3d4d5d6d7d8"]);
    assert_eq!(read_local_identity(&file), Ok(Some(Identity { value: NODE })));
}

#[test]
fn the_first_line_with_the_key_decides() {
    let file = lines(&[
        "UUID=a1a2a3a4-b1b2-c1c2-d1d2-d3d4d5d6d7d8",
        "UUID=00000000-0000-0000-0000-000000000000",
    ]);
    assert_eq!(read_local_identity(&file), Ok(Some(Identity { value: NODE })));
    let file = lines(&["UUID=broken", "UUID=a1a2a3a4-b1b2-c1c2-d1d2-d3d4d5d6d7d8"]);
    assert!(read_local_identity(&file).is_err());
}

#[test]
fn a_file_without_the_key_gives_no_identity() {
    assert_eq!(read_local_identity(&Vec::new()), Ok(None));
    assert_eq!(read_local_identity(&lines(&["operating-version=30712", "uuid=x"])), Ok(None));
}

#[test]
fn an_identity_that_cannot_be_read_is_a_failure() {
    let e = read_local_identity(&lines(&["UUIDx"])).unwrap_err();
    assert_eq!(e.kind, ErrorKind::Internal);
    let said = Identity::parse("UUIDx").unwrap_err().message;
    assert_eq!(e.message, format!("identity of this node: {}", said));
    assert!(matches!(identity_in_line("UUID=zz"), Some(Err(_))));
    assert_eq!(identity_in_line("other=1"), None);
    assert_eq!(
        identity_in_line("UUID=a1a2a3a4-b1b2-c1c2-d1d2-d3d4d5d6d7d8"),
        Some(Ok(Identity { value: NODE }))
    );
}

#[test]
fn the_address_is_on_the_line_with_its_key() {
    let file = lines(&["uuid=a1a2a3a4-b1b2-c1c2-d1d2-d3d4d5d6d7d8", "state=3", "hostname1=192.168.1.2"]);
    assert_eq!(read_peer_address(&file), Some("192.168.1.2".to_string()));
    assert_eq!(read_peer_address(&lines(&["state=3"])), None);
    assert_eq!(read_peer_address(&Vec::new()), None);
}

#[test]
fn only_the_first_key_is_taken_off_the_address() {
    assert_eq!(address_in_line("hostname1=10.0.0.1"), Some("10.0.0.1".to_string()));
    assert_eq!(address_in_line("hostname2=10.0.0.1"), Some("hostname2=10.0.0.1".to_string()));
    assert_eq!(address_in_line("hostname"), Some("hostname".to_string()));
    assert_eq!(address_in_line("host=1"), None);
}

#[test]
fn peers_are_named_by_their_identities() {
    let names = lines(&[
        "a1a2a3a4-b1b2-c1c2-d1d2-d3d4d5d6d7d8",
        "00000000-0000-0000-0000-000000000001",
    ]);
    assert_eq!(
        read_peer_identities(&names),
        Ok(vec![Identity { value: NODE }, Identity { value: 1 }])
    );
    assert_eq!(read_peer_identities(&Vec::new()), Ok(Vec::new()));
}

#[test]
fn a_peer_file_with_another_name_is_a_failure() {
    let names = lines(&["a1a2a3a4-b1b2-c1c2-d1d2-d3d4d5d6d7d8", "README", "also broken"]);
    let e = read_peer_identities(&names).unwrap_err();
    assert_eq!(e.kind, ErrorKind::Internal);
    let said = Identity::parse("README").unwrap_err().message;
    assert_eq!(e.message, format!("identity of peer README: {}", said));
}

#[test]
fn a_node_is_this_one_or_a_peer() {
    let node = Identity { value: NODE };
    assert_eq!(locate(node, Some(node)), Ok(Whereabouts::Local));
    assert_eq!(
        locate(node, Some(Identity { value: 1 })),
        Ok(Whereabouts::Peer { file: "a1a2a3a4-b1b2-c1c2-d1d2-d3d4d5d6d7d8".to_string() })
    );
}

#[test]
fn without_an_identity_of_its_own_the_cluster_is_unavailable() {
    let e = locate(Identity { value: NODE }, None).unwrap_err();
    assert_eq!(e.kind, ErrorKind::Unavailable);
    assert_eq!(e.message, "Unable to find local gluster uuid");
    assert_eq!(e.kind.status(), 503);
}

#[test]
fn a_node_manages_and_stores_for_itself() {
    let node = Identity { value: NODE };
    let info = describe_node(node, Some("192.168.1.2".to_string())).unwrap();
    assert_eq!(info.zone, 1);
    assert_eq!(info.id, node);
    assert_eq!(info.cluster, "cluster-test");
    assert_eq!(info.state, "online");
    assert_eq!(info.manage_hosts, vec!["192.168.1.2".to_string()]);
    assert_eq!(info.storage_hosts, vec!["192.168.1.2".to_string()]);
}

#[test]
fn a_node_without_address_is_not_found() {
    let e = describe_node(Identity { value: NODE }, None).unwrap_err();
    assert_eq!(e.kind, ErrorKind::NotFound);
    assert_eq!(e.message, "Unable to find info for a1a2a3a4-b1b2-c1c2-d1d2-d3d4d5d6d7d8");
    assert_eq!(e.kind.status(), 404);
}

#[test]
fn a_new_cluster_is_empty() {
    let cluster = new_cluster();
    assert_eq!(cluster.id, "cluster-test");
    assert!(cluster.nodes.is_empty());
    assert!(cluster.volumes.is_empty());
}

#[test]
fn a_cluster_lists_peers_then_this_node() {
    let names = vec!["id1".to_string(), "stray".to_string()];
    let peers = vec![Identity { value: 1 }, Identity { value: 2 }];
    let cluster = describe_cluster("mine", Some(Identity { value: NODE }), &peers, names);
    assert_eq!(cluster.id, "mine");
    assert_eq!(
        cluster.nodes,
        vec![
            "00000000-0000-0000-0000-000000000001".to_string(),
            "00000000-0000-0000-0000-000000000002".to_string(),
            "a1a2a3a4-b1b2-c1c2-d1d2-d3d4d5d6d7d8".to_string(),
        ]
    );
    assert_eq!(cluster.volumes, vec!["id1".to_string(), "stray".to_string()]);
    let cluster = describe_cluster("mine", None, &peers, Vec::new());
    assert_eq!(cluster.nodes.len(), 2);
    assert!(cluster.volumes.is_empty());
}

#[test]
fn the_one_cluster_is_the_shared_volume() {
    assert_eq!(list_clusters("shared"), vec!["shared".to_string()]);
}

fn setting(key: &str, value: &str) -> Setting {
    Setting { key: key.to_string(), value: value.to_string() }
}

#[test]
fn a_line_with_one_sign_is_a_setting() {
    assert_eq!(setting_in_line("type=2"), Some(setting("type", "2")));
    assert_eq!(setting_in_line("brick-0=host:-data"), Some(setting("brick-0", "host:-data")));
    assert_eq!(setting_in_line("="), Some(setting("", "")));
    assert_eq!(setting_in_line("key="), Some(setting("key", "")));
    assert_eq!(setting_in_line("=value"), Some(setting("", "value")));
}

#[test]
fn other_lines_are_no_settings() {
    assert_eq!(setting_in_line(""), None);
    assert_eq!(setting_in_line("no sign"), None);
    assert_eq!(setting_in_line("a=b=c"), None);
    assert_eq!(setting_in_line("=="), None);
}

#[test]
fn settings_agree_with_the_split_at_the_sign() {
    for line in ["a=b", "a", "a=b=c", "=", "", "x=", "=y", "β=γ"].iter() {
        let parts: Vec<&str> = line.split("=").collect();
        let expected = if parts.len() == 2 { Some(setting(parts[0], parts[1])) } else { None };
        assert_eq!(setting_in_line(line), expected);
    }
}

#[test]
fn the_settings_of_a_file_keep_their_order() {
    let file = lines(&["type=2", "broken", "count=3", "a=b=c", "type=5"]);
    let settings = read_settings(&file);
    assert_eq!(settings, vec![setting("type", "2"), setting("count", "3"), setting("type", "5")]);
    assert!(read_settings(&Vec::new()).is_empty());
}

#[test]
fn the_last_line_of_a_key_is_in_force() {
    let settings = vec![setting("type", "2"), setting("count", "3"), setting("type", "5")];
    assert_eq!(find_setting(&settings, "type"), Some("5".to_string()));
    assert_eq!(find_setting(&settings, "count"), Some("3".to_string()));
    assert_eq!(find_setting(&settings, "status"), None);
    assert_eq!(find_setting(&Vec::new(), "type"), None);
}

#[test]
fn files_that_cannot_be_read_make_the_cluster_unavailable() {
    let e = files_absent("No such file or directory (os error 2)".to_string());
    assert_eq!(e.kind, ErrorKind::Unavailable);
    assert_eq!(e.message, "No such file or directory (os error 2)");
}

#[test]
fn nodes_and_devices_are_not_managed_here() {
    let calls = [
        (InventoryCall::AddNode, "Nodes cannot be added here"),
        (InventoryCall::DeleteNode, "Nodes cannot be deleted here"),
        (InventoryCall::AddDevice, "Devices cannot be added here"),
        (InventoryCall::DeleteDevice, "Devices cannot be deleted here"),
    ];
    for (call, message) in calls.iter() {
        let e = refuse(*call);
        assert_eq!(e.kind, ErrorKind::Unsupported);
        assert_eq!(e.message, *message);
        assert_eq!(e.kind.status(), 501);
    }
}
