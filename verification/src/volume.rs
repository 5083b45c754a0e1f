//! The description of a volume as a client gets it.

use vstd::prelude::*;
use vstd::string::*;
use crate::capacity::{current_quota, quota_gigabytes, quota_views, QuotaEntry, QuotaView};
use crate::mount::{describe_mount, mount_of, MountDescriptor, MountView};
use crate::names::{volume_label, volume_label_of};
use crate::text::{optional_text, texts};

verus! {

/// How the data of a volume is kept safe.
#[derive(Clone, Copy, Debug, PartialEq, Eq, Structural)]
pub enum VolumeType {
    /// Every file is kept on several bricks.
    Replicate,
    /// Every file is spread over bricks with redundancy.
    Disperse,
    /// No scheme: the word for it is `none`.
    Plain,
}

impl VolumeType {
    /// The word that stands for a volume type in requests and descriptions.
    pub open spec fn word(self) -> Seq<char> {
        match self {
            VolumeType::Replicate => "replicate"@,
            VolumeType::Disperse => "disperse"@,
            VolumeType::Plain => "none"@,
        }
    }

    /// The word that stands for this volume type.
    pub fn as_word(&self) -> (word: &'static str)
        ensures
            word@ == self.word(),
    {
        match self {
            VolumeType::Replicate => "replicate",
            VolumeType::Disperse => "disperse",
            VolumeType::Plain => "none",
        }
    }

    /// The volume type that `word` stands for, if it stands for one.
    pub fn from_word(word: &str) -> (kind: Option<VolumeType>)
        ensures
            match kind {
                Some(k) => k.word() == word@,
                None => forall|k: VolumeType| k.word() != word@,
            },
    {
        if word.eq("replicate") {
            Some(VolumeType::Replicate)
        } else if word.eq("disperse") {
            Some(VolumeType::Disperse)
        } else if word.eq("none") {
            Some(VolumeType::Plain)
        } else {
            None
        }
    }
}

/// The number of copies that a description reports.
pub const REPLICA_COUNT: u8 = 3;

/// The snapshot factor that a description reports, in hundredths.
pub const SNAPSHOT_FACTOR_PERCENT: u32 = 120;

/// The name of the one cluster there is.
pub open spec fn cluster_name() -> Seq<char> {
    "cluster-test"@
}

/// The name of the one cluster there is.
pub fn the_cluster() -> (name: String)
    ensures
        name@ == cluster_name(),
{
    String::from_str("cluster-test")
}

/// The description of one volume.
#[derive(Clone, Debug, PartialEq, Eq)]
pub struct VolumeInfo {
    /// Shared volume, identity and display name, as a path.
    pub name: String,
    /// The identity.
    pub id: String,
    /// The cluster that holds the volume.
    pub cluster: String,
    /// The size in whole gigabytes; zero while no quota is assigned.
    pub size: u64,
    /// The display name; none while the volume is not fully provisioned.
    pub display_name: Option<String>,
    pub volume_type: VolumeType,
    pub replica: u8,
    pub snapshot_enabled: bool,
    /// The snapshot factor in hundredths.
    pub snapshot_factor_percent: u32,
    pub mount: MountDescriptor,
}

/// What a `VolumeInfo` is in contracts.
pub struct VolumeView {
    pub name: Seq<char>,
    pub id: Seq<char>,
    pub cluster: Seq<char>,
    pub size: u64,
    pub display_name: Option<Seq<char>>,
    pub volume_type: VolumeType,
    pub replica: u8,
    pub snapshot_enabled: bool,
    pub snapshot_factor_percent: u32,
    pub mount: MountView,
}

impl View for VolumeInfo {
    type V = VolumeView;

    open spec fn view(&self) -> VolumeView {
        VolumeView {
            name: self.name@,
            id: self.id@,
            cluster: self.cluster@,
            size: self.size,
            display_name: optional_text(self.display_name),
            volume_type: self.volume_type,
            replica: self.replica,
            snapshot_enabled: self.snapshot_enabled,
            snapshot_factor_percent: self.snapshot_factor_percent,
            mount: self.mount@,
        }
    }
}

/// The display name as it is written into paths: empty while there is none.
pub open spec fn shown_name(name: Option<Seq<char>>) -> Seq<char> {
    match name {
        Some(n) => n,
        None => Seq::empty(),
    }
}

/// The description of volume `id` on the shared volume `volume`, for the
/// peers and quotas that the store lists. There is at least one peer.
pub open spec fn volume_info_of(
    peers: Seq<Seq<char>>,
    quotas: Seq<QuotaView>,
    volume: Seq<char>,
    id: Seq<char>,
    name: Option<Seq<char>>,
) -> VolumeView {
    VolumeView {
        name: volume_label(volume, id, shown_name(name)),
        id,
        cluster: cluster_name(),
        size: quota_gigabytes(quotas, id),
        display_name: name,
        volume_type: VolumeType::Replicate,
        replica: REPLICA_COUNT,
        snapshot_enabled: true,
        snapshot_factor_percent: SNAPSHOT_FACTOR_PERCENT,
        mount: mount_of(peers, volume, id, shown_name(name)),
    }
}

/// The description of volume `id`, or nothing where the cluster lists no
/// peer to export it.
pub fn describe_volume(
    peers: &Vec<String>,
    quotas: &Vec<QuotaEntry>,
    volume: &str,
    id: &str,
    name: &Option<String>,
) -> (info: Option<VolumeInfo>)
    ensures
        match info {
            Some(v) => peers.len() > 0 && v@ == volume_info_of(
                texts(peers@),
                quota_views(quotas@),
                volume@,
                id@,
                optional_text(*name),
            ),
            None => peers.len() == 0,
        },
{
    let (shown, display_name) = match name {
        Some(n) => (n.clone(), Some(n.clone())),
        None => (String::new(), None),
    };
    match describe_mount(peers, volume, id, shown.as_str()) {
        Some(mount) => Some(
            VolumeInfo {
                name: volume_label_of(volume, id, shown.as_str()),
                id: String::from_str(id),
                cluster: the_cluster(),
                size: current_quota(quotas, id),
                display_name,
                volume_type: VolumeType::Replicate,
                replica: REPLICA_COUNT,
                snapshot_enabled: true,
                snapshot_factor_percent: SNAPSHOT_FACTOR_PERCENT,
                mount,
            },
        ),
        None => None,
    }
}

} // verus!
