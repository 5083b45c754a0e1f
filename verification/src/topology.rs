//! The topology of the storage cluster: this node's identity, its peers and
//! their addresses, as the cluster's own files give them.
//!
//! The files are read by the caller, line by line. Nothing here is kept
//! between calls: the peers may change at any time.

use vstd::prelude::*;
use vstd::string::*;
use crate::error::{Error, ErrorKind, ErrorView};
use crate::identity::{hyphenated, parsed_identity, Identity};
use crate::text::{chars_of, has_prefix, optional_text, part, remove_all, texts, without};
use crate::volume::{cluster_name, the_cluster};

verus! {

/// Whether a line of the node's own file is the one that gives its identity.
pub open spec fn gives_identity(line: Seq<char>) -> bool {
    "UUID"@.is_prefix_of(line)
}

/// What the line that gives the identity gives: the line without its key
/// is read as an identity.
pub open spec fn identity_given(line: Seq<char>) -> Result<u128, Seq<char>> {
    parsed_identity(without(line, "UUID="@))
}

/// The identity of this node as its file gives it: that of the first line
/// that gives one, and none where no line does. A line that gives one that
/// cannot be read is an error, with the message of the parser.
pub open spec fn local_identity(lines: Seq<Seq<char>>) -> Result<Option<u128>, Seq<char>>
    decreases lines.len(),
{
    if lines.len() == 0 {
        Ok(None)
    } else if gives_identity(lines[0]) {
        match identity_given(lines[0]) {
            Ok(value) => Ok(Some(value)),
            Err(message) => Err(message),
        }
    } else {
        local_identity(lines.subrange(1, lines.len() as int))
    }
}

/// Whether a line of a peer's file is the one that gives its address.
pub open spec fn gives_address(line: Seq<char>) -> bool {
    "hostname"@.is_prefix_of(line)
}

/// The address that a line of a peer's file gives: the line without its key.
pub open spec fn address_given(line: Seq<char>) -> Seq<char> {
    without(line, "hostname1="@)
}

/// The address of a peer as its file gives it: that of the first line that
/// gives one.
pub open spec fn peer_address(lines: Seq<Seq<char>>) -> Option<Seq<char>>
    decreases lines.len(),
{
    if lines.len() == 0 {
        None
    } else if gives_address(lines[0]) {
        Some(address_given(lines[0]))
    } else {
        peer_address(lines.subrange(1, lines.len() as int))
    }
}

/// The identities that the names of the peers' files stand for, in their
/// order; where a name stands for none, the failure of the first that does
/// not.
pub open spec fn peer_identities(names: Seq<Seq<char>>) -> Result<Seq<u128>, ErrorView>
    decreases names.len(),
{
    if names.len() == 0 {
        Ok(Seq::empty())
    } else {
        match peer_identities(names.drop_last()) {
            Err(e) => Err(e),
            Ok(before) => match parsed_identity(names.last()) {
                Ok(value) => Ok(before.push(value)),
                Err(said) => Err(peer_identity_failure(names.last(), said)),
            },
        }
    }
}

/// The values of a list of identities.
pub open spec fn values(ids: Seq<Identity>) -> Seq<u128> {
    Seq::new(ids.len(), |i: int| ids[i].value)
}

/// The failure to read the identity of this node, given what the parser
/// said.
pub open spec fn local_identity_failure(said: Seq<char>) -> ErrorView {
    ErrorView { kind: ErrorKind::Internal, message: "identity of this node: "@ + said }
}

/// The failure to read the identity of the peer whose file is `name`, given
/// what the parser said.
pub open spec fn peer_identity_failure(name: Seq<char>, said: Seq<char>) -> ErrorView {
    ErrorView { kind: ErrorKind::Internal, message: "identity of peer "@ + name + ": "@ + said }
}

/// What one line of the node's own file says of its identity: nothing, the
/// identity, or that it cannot be read.
pub fn identity_in_line(line: &str) -> (found: Option<Result<Identity, Error>>)
    ensures
        match found {
            None => !gives_identity(line@),
            Some(Ok(id)) => gives_identity(line@) && identity_given(line@) == Ok::<
                u128,
                Seq<char>,
            >(id.value),
            Some(Err(e)) => gives_identity(line@) && identity_given(line@) is Err && e@
                == local_identity_failure(identity_given(line@)->Err_0),
        },
{
    if !has_prefix(line, "UUID") {
        return None;
    }
    let rest = remove_all(line, "UUID=");
    match Identity::parse(rest.as_str()) {
        Ok(id) => Some(Ok(id)),
        Err(e) => {
            let mut message = String::from_str("identity of this node: ");
            message.append(e.message.as_str());
            Some(Err(Error { kind: ErrorKind::Internal, message }))
        },
    }
}

/// The identity of this node, from the lines of its own file.
pub fn read_local_identity(lines: &Vec<String>) -> (found: Result<Option<Identity>, Error>)
    ensures
        match found {
            Ok(Some(id)) => local_identity(texts(lines@)) == Ok::<Option<u128>, Seq<char>>(
                Some(id.value),
            ),
            Ok(None) => local_identity(texts(lines@)) == Ok::<Option<u128>, Seq<char>>(None),
            Err(e) => local_identity(texts(lines@)) is Err && e@ == local_identity_failure(
                local_identity(texts(lines@))->Err_0,
            ),
        },
{
    let ghost all = texts(lines@);
    let mut i: usize = 0;
    assert(all.subrange(0, all.len() as int) =~= all);
    while i < lines.len()
        invariant
            i <= lines.len(),
            all == texts(lines@),
            local_identity(all) == local_identity(all.subrange(i as int, all.len() as int)),
        decreases lines.len() - i,
    {
        proof {
            let rest = all.subrange(i as int, all.len() as int);
            assert(rest[0] == lines[i as int]@);
            assert(rest.subrange(1, rest.len() as int) =~= all.subrange(i + 1, all.len() as int));
        }
        match identity_in_line(lines[i].as_str()) {
            Some(Ok(id)) => {
                return Ok(Some(id));
            },
            Some(Err(e)) => {
                return Err(e);
            },
            None => {},
        }
        i += 1;
    }
    Ok(None)
}

/// What one line of a peer's file says of its address.
pub fn address_in_line(line: &str) -> (found: Option<String>)
    ensures
        match found {
            None => !gives_address(line@),
            Some(address) => gives_address(line@) && address@ == address_given(line@),
        },
{
    if has_prefix(line, "hostname") {
        Some(remove_all(line, "hostname1="))
    } else {
        None
    }
}

/// The address of a peer, from the lines of its file.
pub fn read_peer_address(lines: &Vec<String>) -> (found: Option<String>)
    ensures
        optional_text(found) == peer_address(texts(lines@)),
{
    let ghost all = texts(lines@);
    let mut i: usize = 0;
    assert(all.subrange(0, all.len() as int) =~= all);
    while i < lines.len()
        invariant
            i <= lines.len(),
            all == texts(lines@),
            peer_address(all) == peer_address(all.subrange(i as int, all.len() as int)),
        decreases lines.len() - i,
    {
        proof {
            let rest = all.subrange(i as int, all.len() as int);
            assert(rest[0] == lines[i as int]@);
            assert(rest.subrange(1, rest.len() as int) =~= all.subrange(i + 1, all.len() as int));
        }
        match address_in_line(lines[i].as_str()) {
            Some(address) => {
                return Some(address);
            },
            None => {},
        }
        i += 1;
    }
    None
}

/// The identities of the peers, from the names of their files.
pub fn read_peer_identities(names: &Vec<String>) -> (found: Result<Vec<Identity>, Error>)
    ensures
        match found {
            Ok(ids) => peer_identities(texts(names@)) == Ok::<Seq<u128>, ErrorView>(values(ids@)),
            Err(e) => peer_identities(texts(names@)) == Err::<Seq<u128>, ErrorView>(e@),
        },
{
    let ghost all = texts(names@);
    let mut ids: Vec<Identity> = Vec::new();
    let mut i: usize = 0;
    assert(values(ids@) =~= Seq::empty());
    while i < names.len()
        invariant
            i <= names.len(),
            all == texts(names@),
            peer_identities(all.take(i as int)) == Ok::<Seq<u128>, ErrorView>(values(ids@)),
        decreases names.len() - i,
    {
        let ghost before = values(ids@);
        proof {
            let next = all.take(i + 1);
            assert(next.drop_last() =~= all.take(i as int));
            assert(next.last() == names[i as int]@);
        }
        match Identity::parse(names[i].as_str()) {
            Ok(id) => {
                ids.push(id);
                assert(values(ids@) =~= before.push(id.value));
            },
            Err(e) => {
                proof {
                    lemma_first_failure_stays(all, i + 1);
                }
                let mut message = String::from_str("identity of peer ");
                message.append(names[i].as_str());
                message.append(": ");
                message.append(e.message.as_str());
                return Err(Error { kind: ErrorKind::Internal, message });
            },
        }
        i += 1;
    }
    assert(all.take(names.len() as int) =~= all);
    Ok(ids)
}

/// Once a name cannot be read, the names after it do not matter.
pub proof fn lemma_first_failure_stays(names: Seq<Seq<char>>, upto: int)
    requires
        0 <= upto <= names.len(),
        peer_identities(names.take(upto)) is Err,
    ensures
        peer_identities(names) == peer_identities(names.take(upto)),
    decreases names.len() - upto,
{
    if upto < names.len() {
        let next = names.take(upto + 1);
        assert(next.drop_last() =~= names.take(upto));
        lemma_first_failure_stays(names, upto + 1);
    } else {
        assert(names.take(upto) =~= names);
    }
}

/// Where the address of a node is to be had.
#[derive(Clone, Debug, PartialEq, Eq)]
pub enum Whereabouts {
    /// The node is this one: its address is the local address.
    Local,
    /// The node may be a peer: its address is in the peer file of this name.
    Peer { file: String },
}

/// The message of the failure of a node without an identity of its own.
pub open spec fn no_local_identity_message() -> Seq<char> {
    "Unable to find local gluster uuid"@
}

/// The message of the failure to find the node `text`.
pub open spec fn unknown_node_message(text: Seq<char>) -> Seq<char> {
    "Unable to find info for "@ + text
}

/// Where the address of `node` is to be had, given the identity of this
/// node. Without an identity of its own the node cannot tell, and the
/// cluster counts as unavailable.
pub fn locate(node: Identity, local: Option<Identity>) -> (place: Result<Whereabouts, Error>)
    ensures
        match place {
            Ok(Whereabouts::Local) => local == Some(node),
            Ok(Whereabouts::Peer { file }) => local is Some && local != Some(node) && file@
                == hyphenated(node.value),
            Err(e) => local is None && e@ == (ErrorView {
                kind: ErrorKind::Unavailable,
                message: no_local_identity_message(),
            }),
        },
{
    match local {
        None => Err(Error::new(ErrorKind::Unavailable, "Unable to find local gluster uuid")),
        Some(own) => if own.value == node.value {
            Ok(Whereabouts::Local)
        } else {
            Ok(Whereabouts::Peer { file: node.text() })
        },
    }
}

/// The description of one node.
#[derive(Clone, Debug, PartialEq, Eq)]
pub struct NodeInfo {
    pub zone: u8,
    /// The hosts that manage the node: the node itself.
    pub manage_hosts: Vec<String>,
    /// The hosts that store for the node: the node itself.
    pub storage_hosts: Vec<String>,
    pub cluster: String,
    pub id: Identity,
    pub state: String,
}

/// What a `NodeInfo` is in contracts.
pub struct NodeView {
    pub zone: u8,
    pub manage_hosts: Seq<Seq<char>>,
    pub storage_hosts: Seq<Seq<char>>,
    pub cluster: Seq<char>,
    pub id: Identity,
    pub state: Seq<char>,
}

impl View for NodeInfo {
    type V = NodeView;

    open spec fn view(&self) -> NodeView {
        NodeView {
            zone: self.zone,
            manage_hosts: texts(self.manage_hosts@),
            storage_hosts: texts(self.storage_hosts@),
            cluster: self.cluster@,
            id: self.id,
            state: self.state@,
        }
    }
}

/// The zone that every node is in.
pub const ZONE: u8 = 1;

/// The description of the node `node` at `address`.
pub open spec fn node_info_of(node: Identity, address: Seq<char>) -> NodeView {
    NodeView {
        zone: ZONE,
        manage_hosts: seq![address],
        storage_hosts: seq![address],
        cluster: cluster_name(),
        id: node,
        state: "online"@,
    }
}

/// The description of `node`, given the address that was found for it. A
/// node for which none was found is neither this node nor a peer.
pub fn describe_node(node: Identity, address: Option<String>) -> (info: Result<NodeInfo, Error>)
    ensures
        match info {
            Ok(n) => address is Some && n@ == node_info_of(node, address->0@),
            Err(e) => address is None && e@ == (ErrorView {
                kind: ErrorKind::NotFound,
                message: unknown_node_message(hyphenated(node.value)),
            }),
        },
{
    match address {
        Some(a) => {
            let mut manage_hosts: Vec<String> = Vec::new();
            manage_hosts.push(a.clone());
            let mut storage_hosts: Vec<String> = Vec::new();
            storage_hosts.push(a);
            let info = NodeInfo {
                zone: ZONE,
                manage_hosts,
                storage_hosts,
                cluster: the_cluster(),
                id: node,
                state: String::from_str("online"),
            };
            assert(info@.manage_hosts =~= seq![a@]);
            assert(info@.storage_hosts =~= seq![a@]);
            Ok(info)
        },
        None => {
            let mut message = String::from_str("Unable to find info for ");
            message.append(node.text().as_str());
            Err(Error { kind: ErrorKind::NotFound, message })
        },
    }
}

/// The description of a cluster.
#[derive(Clone, Debug, PartialEq, Eq)]
pub struct ClusterInfo {
    pub id: String,
    /// The identities of the nodes, as text.
    pub nodes: Vec<String>,
    /// The names at the top of the shared volume.
    pub volumes: Vec<String>,
}

/// What a `ClusterInfo` is in contracts.
pub struct ClusterView {
    pub id: Seq<char>,
    pub nodes: Seq<Seq<char>>,
    pub volumes: Seq<Seq<char>>,
}

impl View for ClusterInfo {
    type V = ClusterView;

    open spec fn view(&self) -> ClusterView {
        ClusterView { id: self.id@, nodes: texts(self.nodes@), volumes: texts(self.volumes@) }
    }
}

/// The nodes of the cluster: the peers, and this node after them where it
/// has an identity.
pub open spec fn members(local: Option<Identity>, peers: Seq<Identity>) -> Seq<Identity> {
    match local {
        Some(own) => peers.push(own),
        None => peers,
    }
}

/// The texts of a list of identities.
pub open spec fn identity_texts(ids: Seq<Identity>) -> Seq<Seq<char>> {
    Seq::new(ids.len(), |i: int| hyphenated(ids[i].value))
}

/// The cluster as it is when it is made: without nodes and volumes.
pub fn new_cluster() -> (info: ClusterInfo)
    ensures
        info@ == (ClusterView {
            id: cluster_name(),
            nodes: Seq::empty(),
            volumes: Seq::empty(),
        }),
{
    let info = ClusterInfo { id: the_cluster(), nodes: Vec::new(), volumes: Vec::new() };
    assert(info@.nodes =~= Seq::empty());
    assert(info@.volumes =~= Seq::empty());
    info
}

/// The cluster `id` as it is now: its nodes from the topology, its volumes
/// the names at the top of the shared volume.
pub fn describe_cluster(
    id: &str,
    local: Option<Identity>,
    peers: &Vec<Identity>,
    volumes: Vec<String>,
) -> (info: ClusterInfo)
    ensures
        info@ == (ClusterView {
            id: id@,
            nodes: identity_texts(members(local, peers@)),
            volumes: texts(volumes@),
        }),
{
    let mut nodes: Vec<String> = Vec::new();
    let mut i: usize = 0;
    while i < peers.len()
        invariant
            i <= peers.len(),
            nodes.len() == i,
            forall|k: int| 0 <= k < i ==> nodes[k]@ == hyphenated(peers[k].value),
        decreases peers.len() - i,
    {
        nodes.push(peers[i].text());
        i += 1;
    }
    match local {
        Some(own) => {
            nodes.push(own.text());
        },
        None => {},
    }
    let info = ClusterInfo { id: String::from_str(id), nodes, volumes };
    assert(info@.nodes =~= identity_texts(members(local, peers@)));
    info
}

/// The clusters there are: the one of the shared volume.
pub fn list_clusters(volume: &str) -> (names: Vec<String>)
    ensures
        texts(names@) == seq![volume@],
{
    let mut names: Vec<String> = Vec::new();
    names.push(String::from_str(volume));
    assert(texts(names@) =~= seq![volume@]);
    names
}

/// The failure of a cluster whose own files cannot be read, with the
/// message of the attempt.
pub fn files_absent(message: String) -> (e: Error)
    ensures
        e@ == (ErrorView { kind: ErrorKind::Unavailable, message: message@ }),
{
    Error { kind: ErrorKind::Unavailable, message }
}

/// The calls that manage nodes and devices. They are part of the interface,
/// and none of them is offered: nodes and devices come and go in the storage
/// cluster itself.
#[derive(Clone, Copy, Debug, PartialEq, Eq, Structural)]
pub enum InventoryCall {
    AddNode,
    DeleteNode,
    AddDevice,
    DeleteDevice,
}

/// The message of the failure of a call that is not offered.
pub open spec fn not_offered_message(call: InventoryCall) -> Seq<char> {
    match call {
        InventoryCall::AddNode => "Nodes cannot be added here"@,
        InventoryCall::DeleteNode => "Nodes cannot be deleted here"@,
        InventoryCall::AddDevice => "Devices cannot be added here"@,
        InventoryCall::DeleteDevice => "Devices cannot be deleted here"@,
    }
}

/// The failure that answers a call that manages nodes or devices.
pub fn refuse(call: InventoryCall) -> (e: Error)
    ensures
        e@ == (ErrorView { kind: ErrorKind::Unsupported, message: not_offered_message(call) }),
{
    Error::new(
        ErrorKind::Unsupported,
        match call {
            InventoryCall::AddNode => "Nodes cannot be added here",
            InventoryCall::DeleteNode => "Nodes cannot be deleted here",
            InventoryCall::AddDevice => "Devices cannot be added here",
            InventoryCall::DeleteDevice => "Devices cannot be deleted here",
        },
    )
}

/// One setting of the shared volume: a key and its value.
#[derive(Clone, Debug, PartialEq, Eq)]
pub struct Setting {
    pub key: String,
    pub value: String,
}

/// What a `Setting` is in contracts.
pub struct SettingView {
    pub key: Seq<char>,
    pub value: Seq<char>,
}

impl View for Setting {
    type V = SettingView;

    open spec fn view(&self) -> SettingView {
        SettingView { key: self.key@, value: self.value@ }
    }
}

/// Whether `line` holds the sign between key and value at `at` and nowhere
/// else.
pub open spec fn splits_at(line: Seq<char>, at: int) -> bool {
    &&& 0 <= at < line.len()
    &&& line[at] == '='
    &&& forall|j: int| 0 <= j < line.len() && j != at ==> line[j] != '='
}

/// The setting that a line of the volume's file holds: the line holds one
/// where it holds the sign between key and value exactly once.
pub open spec fn setting_in(line: Seq<char>) -> Option<SettingView> {
    if exists|at: int| splits_at(line, at) {
        let at = choose|at: int| splits_at(line, at);
        Some(
            SettingView {
                key: line.subrange(0, at),
                value: line.subrange(at + 1, line.len() as int),
            },
        )
    } else {
        None
    }
}

/// The settings that the lines of the volume's file hold, in their order.
/// Where a key stands on several lines, the last of them is in force.
pub open spec fn settings_in(lines: Seq<Seq<char>>) -> Seq<SettingView>
    decreases lines.len(),
{
    if lines.len() == 0 {
        Seq::empty()
    } else {
        match setting_in(lines.last()) {
            Some(setting) => settings_in(lines.drop_last()).push(setting),
            None => settings_in(lines.drop_last()),
        }
    }
}

/// The views of a list of settings.
pub open spec fn setting_views(settings: Seq<Setting>) -> Seq<SettingView> {
    Seq::new(settings.len(), |i: int| settings[i]@)
}

/// The view of an optional setting.
pub open spec fn optional_setting(setting: Option<Setting>) -> Option<SettingView> {
    match setting {
        Some(s) => Some(s@),
        None => None,
    }
}

/// The setting that one line of the volume's file holds.
pub fn setting_in_line(line: &str) -> (setting: Option<Setting>)
    ensures
        optional_setting(setting) == setting_in(line@),
{
    let text = chars_of(line);
    let mut at: Option<usize> = None;
    let mut i: usize = 0;
    while i < text.len()
        invariant
            i <= text.len(),
            text@ == line@,
            match at {
                Some(a) => a < i && text[a as int] == '=' && forall|j: int|
                    0 <= j < i && j != a ==> text[j] != '=',
                None => forall|j: int| 0 <= j < i ==> text[j] != '=',
            },
        decreases text.len() - i,
    {
        if text[i] == '=' {
            match at {
                Some(a) => {
                    assert forall|k: int| !splits_at(line@, k) by {
                        if splits_at(line@, k) {
                            if k != a {
                                assert(text@[a as int] != '=');
                            } else {
                                assert(text@[i as int] != '=');
                            }
                        }
                    }
                    return None;
                },
                None => {
                    at = Some(i);
                },
            }
        }
        i += 1;
    }
    match at {
        Some(a) => {
            assert(splits_at(text@, a as int));
            let ghost chosen = choose|k: int| splits_at(text@, k);
            assert(chosen == a);
            Some(Setting { key: part(&text, 0, a), value: part(&text, a + 1, text.len()) })
        },
        None => {
            assert forall|k: int| !splits_at(line@, k) by {
                if splits_at(line@, k) {
                    assert(text@[k] == '=');
                }
            }
            None
        },
    }
}

/// The settings that the lines of the volume's file hold.
pub fn read_settings(lines: &Vec<String>) -> (settings: Vec<Setting>)
    ensures
        setting_views(settings@) == settings_in(texts(lines@)),
{
    let ghost all = texts(lines@);
    let mut settings: Vec<Setting> = Vec::new();
    let mut i: usize = 0;
    assert(setting_views(settings@) =~= settings_in(all.take(0)));
    while i < lines.len()
        invariant
            i <= lines.len(),
            all == texts(lines@),
            setting_views(settings@) == settings_in(all.take(i as int)),
        decreases lines.len() - i,
    {
        let ghost before = setting_views(settings@);
        proof {
            let next = all.take(i + 1);
            assert(next.drop_last() =~= all.take(i as int));
            assert(next.last() == lines[i as int]@);
        }
        match setting_in_line(lines[i].as_str()) {
            Some(setting) => {
                settings.push(setting);
                assert(setting_views(settings@) =~= before.push(setting@));
            },
            None => {},
        }
        i += 1;
    }
    assert(all.take(lines.len() as int) =~= all);
    settings
}

/// The value of `key` that is in force among `settings`.
pub open spec fn setting_of(settings: Seq<SettingView>, key: Seq<char>) -> Option<Seq<char>>
    decreases settings.len(),
{
    if settings.len() == 0 {
        None
    } else if settings.last().key == key {
        Some(settings.last().value)
    } else {
        setting_of(settings.drop_last(), key)
    }
}

/// The value of `key` that is in force among `settings`.
pub fn find_setting(settings: &Vec<Setting>, key: &str) -> (value: Option<String>)
    ensures
        optional_text(value) == setting_of(setting_views(settings@), key@),
{
    let ghost all = setting_views(settings@);
    let mut i: usize = settings.len();
    assert(all.take(all.len() as int) =~= all);
    while i > 0
        invariant
            i <= settings.len(),
            all == setting_views(settings@),
            setting_of(all, key@) == setting_of(all.take(i as int), key@),
        decreases i,
    {
        proof {
            let now = all.take(i as int);
            assert(now.last() == settings[i - 1]@);
            assert(now.drop_last() =~= all.take(i - 1));
        }
        if settings[i - 1].key.as_str().eq(key) {
            return Some(settings[i - 1].value.clone());
        }
        i -= 1;
    }
    None
}

} // verus!
