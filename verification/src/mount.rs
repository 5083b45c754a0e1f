//! What a client needs to mount a volume: the host to ask first, the path to
//! mount, and the hosts to fall back to.

use vstd::prelude::*;
use vstd::string::*;
use crate::names::{export_path, export_path_of};
use crate::text::{holds_text, texts};

verus! {

/// The mount option that carries the fallback hosts.
pub open spec fn backup_option_key() -> Seq<char> {
    "backup-volfile-servers"@
}

/// One mount option.
#[derive(Clone, Debug, PartialEq, Eq)]
pub struct MountOption {
    pub key: String,
    pub value: String,
}

/// What a `MountOption` is in contracts.
pub struct OptionView {
    pub key: Seq<char>,
    pub value: Seq<char>,
}

impl View for MountOption {
    type V = OptionView;

    open spec fn view(&self) -> OptionView {
        OptionView { key: self.key@, value: self.value@ }
    }
}

/// The connection information of one volume. It is made anew for every
/// description, from the peers as they are at that moment.
#[derive(Clone, Debug, PartialEq, Eq)]
pub struct MountDescriptor {
    /// The host that exports the volume: the first peer.
    pub primary_host: String,
    /// The path to mount, on the primary host.
    pub export_path: String,
    /// Every peer once, in the order in which the cluster lists them.
    pub backup_hosts: Vec<String>,
    /// The mount options, each key once.
    pub options: Vec<MountOption>,
}

/// What a `MountDescriptor` is in contracts.
pub struct MountView {
    pub primary_host: Seq<char>,
    pub export_path: Seq<char>,
    pub backup_hosts: Seq<Seq<char>>,
    pub options: Seq<OptionView>,
}

impl View for MountDescriptor {
    type V = MountView;

    open spec fn view(&self) -> MountView {
        MountView {
            primary_host: self.primary_host@,
            export_path: self.export_path@,
            backup_hosts: texts(self.backup_hosts@),
            options: Seq::new(self.options@.len(), |i: int| self.options@[i]@),
        }
    }
}

/// The hosts of `hosts`, each at its first place and nowhere else.
pub open spec fn distinct(hosts: Seq<Seq<char>>) -> Seq<Seq<char>>
    decreases hosts.len(),
{
    if hosts.len() == 0 {
        Seq::empty()
    } else {
        let before = distinct(hosts.drop_last());
        if before.contains(hosts.last()) {
            before
        } else {
            before.push(hosts.last())
        }
    }
}

/// The texts of `parts` in a row, with `separator` between each two.
pub open spec fn joined(parts: Seq<Seq<char>>, separator: Seq<char>) -> Seq<char>
    decreases parts.len(),
{
    if parts.len() == 0 {
        Seq::empty()
    } else if parts.len() == 1 {
        parts[0]
    } else {
        joined(parts.drop_last(), separator) + separator + parts.last()
    }
}

/// The descriptor of volume `id` with display name `name` on the shared
/// volume `volume`, for a cluster that lists `peers`, at least one.
pub open spec fn mount_of(
    peers: Seq<Seq<char>>,
    volume: Seq<char>,
    id: Seq<char>,
    name: Seq<char>,
) -> MountView {
    MountView {
        primary_host: peers[0],
        export_path: export_path(peers[0], volume, id, name),
        backup_hosts: distinct(peers),
        options: seq![
            OptionView { key: backup_option_key(), value: joined(distinct(peers), ","@) },
        ],
    }
}

/// `Itertools::join` on the strings of `parts`: it writes each string as it
/// is, in order, and `separator` between each two of them; of no strings it
/// makes the empty string.
#[verifier::external_body]
fn join_texts(parts: &Vec<String>, separator: &str) -> (out: String)
    ensures
        out@ == joined(texts(parts@), separator@),
{
    itertools::Itertools::join(&mut parts.iter(), separator)
}

/// The hosts of `hosts`, each once, in the order of their first places.
pub fn distinct_hosts(hosts: &Vec<String>) -> (out: Vec<String>)
    ensures
        texts(out@) == distinct(texts(hosts@)),
{
    let mut out: Vec<String> = Vec::new();
    let mut i: usize = 0;
    assert(texts(hosts@).take(0) =~= Seq::empty());
    assert(texts(out@) =~= Seq::empty());
    while i < hosts.len()
        invariant
            i <= hosts.len(),
            texts(out@) == distinct(texts(hosts@).take(i as int)),
        decreases hosts.len() - i,
    {
        let ghost before = texts(out@);
        proof {
            let next = texts(hosts@).take(i + 1);
            assert(next.drop_last() =~= texts(hosts@).take(i as int));
            assert(next.last() == hosts[i as int]@);
        }
        if !holds_text(&out, hosts[i].as_str()) {
            out.push(hosts[i].clone());
            assert(texts(out@) =~= before.push(hosts[i as int]@));
        }
        i += 1;
    }
    assert(texts(hosts@).take(hosts.len() as int) =~= texts(hosts@));
    out
}

/// The connection information of volume `id` with display name `name`, or
/// nothing where the cluster lists no peer to export it.
pub fn describe_mount(peers: &Vec<String>, volume: &str, id: &str, name: &str) -> (mount: Option<
    MountDescriptor,
>)
    ensures
        match mount {
            Some(m) => peers.len() > 0 && m@ == mount_of(texts(peers@), volume@, id@, name@),
            None => peers.len() == 0,
        },
{
    if peers.len() == 0 {
        return None;
    }
    let backup_hosts = distinct_hosts(peers);
    let value = join_texts(&backup_hosts, ",");
    let mut options: Vec<MountOption> = Vec::new();
    options.push(MountOption { key: String::from_str("backup-volfile-servers"), value });
    let mount = MountDescriptor {
        primary_host: peers[0].clone(),
        export_path: export_path_of(peers[0].as_str(), volume, id, name),
        backup_hosts,
        options,
    };
    proof {
        assert(mount@.options =~= mount_of(texts(peers@), volume@, id@, name@).options);
    }
    Some(mount)
}

/// Every host of the cluster is among the distinct hosts, and no other.
pub proof fn lemma_distinct_same_hosts(hosts: Seq<Seq<char>>)
    ensures
        forall|h: Seq<char>| #[trigger] distinct(hosts).contains(h) <==> hosts.contains(h),
    decreases hosts.len(),
{
    if hosts.len() > 0 {
        let front = hosts.drop_last();
        lemma_distinct_same_hosts(front);
        assert forall|h: Seq<char>| distinct(hosts).contains(h) <==> hosts.contains(h) by {
            if hosts.contains(h) {
                let k = choose|k: int| 0 <= k < hosts.len() && hosts[k] == h;
                if k < front.len() {
                    assert(front[k] == h);
                    assert(front.contains(h));
                    assert(distinct(front).contains(h));
                    let j = choose|j: int| 0 <= j < distinct(front).len() && distinct(front)[j] == h;
                    assert(distinct(hosts)[j] == h);
                } else {
                    assert(h == hosts.last());
                    if !distinct(front).contains(h) {
                        assert(distinct(hosts)[distinct(front).len() as int] == h);
                    }
                }
            }
            if distinct(hosts).contains(h) {
                let j = choose|j: int| 0 <= j < distinct(hosts).len() && distinct(hosts)[j] == h;
                if j < distinct(front).len() {
                    assert(distinct(front)[j] == h);
                    assert(distinct(front).contains(h));
                    assert(front.contains(h));
                    let k = choose|k: int| 0 <= k < front.len() && front[k] == h;
                    assert(hosts[k] == h);
                } else {
                    assert(h == hosts.last());
                    assert(hosts[hosts.len() - 1] == h);
                }
            }
        }
    }
}

/// No host is twice among the distinct hosts.
pub proof fn lemma_distinct_once(hosts: Seq<Seq<char>>)
    ensures
        distinct(hosts).no_duplicates(),
    decreases hosts.len(),
{
    if hosts.len() > 0 {
        lemma_distinct_once(hosts.drop_last());
    }
}

/// The first host of the cluster is the first of the distinct hosts.
pub proof fn lemma_distinct_first(hosts: Seq<Seq<char>>)
    requires
        hosts.len() > 0,
    ensures
        distinct(hosts).len() > 0,
        distinct(hosts)[0] == hosts[0],
    decreases hosts.len(),
{
    if hosts.len() > 1 {
        lemma_distinct_first(hosts.drop_last());
    } else {
        assert(distinct(hosts.drop_last()) =~= Seq::empty());
    }
}

/// Where the cluster lists no host twice, the distinct hosts are the hosts
/// as listed.
pub proof fn lemma_distinct_of_distinct(hosts: Seq<Seq<char>>)
    requires
        hosts.no_duplicates(),
    ensures
        distinct(hosts) == hosts,
    decreases hosts.len(),
{
    if hosts.len() > 0 {
        let front = hosts.drop_last();
        lemma_distinct_of_distinct(front);
        if front.contains(hosts.last()) {
            let k = choose|k: int| 0 <= k < front.len() && front[k] == hosts.last();
            assert(hosts[k] == hosts[hosts.len() - 1]);
        }
        assert(front.push(hosts.last()) =~= hosts);
    } else {
        assert(distinct(hosts) =~= hosts);
    }
}

} // verus!
