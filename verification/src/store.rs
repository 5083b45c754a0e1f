//! The volume store as the library sees it: the actions it asks for, the
//! answers it gets back, and what an action does to the directories.
//!
//! The library performs no action itself. An operation names the next action,
//! the caller carries it out on the store and hands back the answer.

use vstd::prelude::*;
use vstd::string::*;
use crate::capacity::{quota_views, QuotaEntry, QuotaView};
use crate::text::texts;

verus! {

/// The mode of a directory while it is being set up: the owner reads, writes
/// and enters, and no one else does anything.
pub const MODE_SETUP: u32 = 0o700;

/// The mode of a volume's directories in use: the owner reads and enters,
/// the group reads, writes and enters.
pub const MODE_IN_USE: u32 = 0o570;

/// The owner of every volume directory.
pub const OWNER_ROOT: u32 = 0;

/// The type that marks a directory entry as a directory.
pub const TYPE_DIRECTORY: u8 = 4;

/// `libc::S_IRWXU`: the bits that let the owner read, write and enter.
#[verifier::external_body]
fn owner_all_bits() -> (bits: u32)
    ensures
        bits == MODE_SETUP,
{
    libc::S_IRWXU as u32
}

/// `libc::S_IRUSR`: the bit that lets the owner read.
#[verifier::external_body]
fn owner_read_bit() -> (bits: u32)
    ensures
        bits == 0o400,
{
    libc::S_IRUSR as u32
}

/// `libc::S_IXUSR`: the bit that lets the owner enter.
#[verifier::external_body]
fn owner_enter_bit() -> (bits: u32)
    ensures
        bits == 0o100,
{
    libc::S_IXUSR as u32
}

/// `libc::S_IRGRP`: the bit that lets the group read.
#[verifier::external_body]
fn group_read_bit() -> (bits: u32)
    ensures
        bits == 0o040,
{
    libc::S_IRGRP as u32
}

/// `libc::S_IWGRP`: the bit that lets the group write.
#[verifier::external_body]
fn group_write_bit() -> (bits: u32)
    ensures
        bits == 0o020,
{
    libc::S_IWGRP as u32
}

/// `libc::S_IXGRP`: the bit that lets the group enter.
#[verifier::external_body]
fn group_enter_bit() -> (bits: u32)
    ensures
        bits == 0o010,
{
    libc::S_IXGRP as u32
}

/// `libc::DT_DIR`: the type of a directory entry that is a directory.
#[verifier::external_body]
fn directory_type() -> (kind: u8)
    ensures
        kind == TYPE_DIRECTORY,
{
    libc::DT_DIR
}

/// The mode of a directory while it is being set up.
pub fn setup_mode() -> (mode: u32)
    ensures
        mode == MODE_SETUP,
{
    owner_all_bits()
}

/// The mode of a volume's directories in use.
pub fn in_use_mode() -> (mode: u32)
    ensures
        mode == MODE_IN_USE,
{
    let owner = owner_read_bit() | owner_enter_bit();
    let group = group_read_bit() | group_write_bit() | group_enter_bit();
    assert(0o400u32 | 0o100u32 == 0o500u32) by (bit_vector);
    assert(0o040u32 | 0o020u32 | 0o010u32 == 0o070u32) by (bit_vector);
    assert(0o500u32 | 0o070u32 == 0o570u32) by (bit_vector);
    owner | group
}

/// One entry of a directory listing: its name and its type.
#[derive(Clone, Debug, PartialEq, Eq)]
pub struct DirEntry {
    pub name: String,
    pub file_type: u8,
}

/// What a `DirEntry` is in contracts.
pub struct EntryView {
    pub name: Seq<char>,
    pub file_type: u8,
}

impl View for DirEntry {
    type V = EntryView;

    open spec fn view(&self) -> EntryView {
        EntryView { name: self.name@, file_type: self.file_type }
    }
}

impl EntryView {
    /// Whether the entry is a directory.
    pub open spec fn is_dir(self) -> bool {
        self.file_type == TYPE_DIRECTORY
    }
}

impl DirEntry {
    /// Whether the entry is a directory.
    pub fn is_dir(&self) -> (yes: bool)
        ensures
            yes == self@.is_dir(),
    {
        self.file_type == directory_type()
    }
}

/// The views of the entries of a directory listing.
pub open spec fn entry_views(entries: Seq<DirEntry>) -> Seq<EntryView> {
    Seq::new(entries.len(), |i: int| entries[i]@)
}

/// An action on the volume store. Paths without a leading slash are taken
/// from the top of the shared volume.
#[derive(Clone, Debug, PartialEq, Eq)]
pub enum StoreAction {
    /// Ask whether `path` exists.
    Exists { path: String },
    /// Create the directory `path` with `mode`.
    MakeDir { path: String, mode: u32 },
    /// Give `path` to user `uid` and group `gid`.
    ChangeOwner { path: String, uid: u32, gid: u32 },
    /// Set the mode of `path`.
    ChangeMode { path: String, mode: u32 },
    /// List the entries of the directory `path`.
    OpenDir { path: String },
    /// Remove `path` and everything beneath it.
    RemoveTree { path: String },
    /// Limit `path` of the shared volume `volume` to `bytes`.
    SetQuota { volume: String, path: String, bytes: u64 },
    /// List the quotas of the shared volume `volume`.
    GetQuotas { volume: String },
    /// List the host names of the peers of the storage cluster.
    ListPeers,
}

/// What a `StoreAction` is in contracts.
pub enum ActionView {
    Exists { path: Seq<char> },
    MakeDir { path: Seq<char>, mode: u32 },
    ChangeOwner { path: Seq<char>, uid: u32, gid: u32 },
    ChangeMode { path: Seq<char>, mode: u32 },
    OpenDir { path: Seq<char> },
    RemoveTree { path: Seq<char> },
    SetQuota { volume: Seq<char>, path: Seq<char>, bytes: u64 },
    GetQuotas { volume: Seq<char> },
    ListPeers,
}

impl View for StoreAction {
    type V = ActionView;

    open spec fn view(&self) -> ActionView {
        match *self {
            StoreAction::Exists { path } => ActionView::Exists { path: path@ },
            StoreAction::MakeDir { path, mode } => ActionView::MakeDir { path: path@, mode },
            StoreAction::ChangeOwner { path, uid, gid } => ActionView::ChangeOwner {
                path: path@,
                uid,
                gid,
            },
            StoreAction::ChangeMode { path, mode } => ActionView::ChangeMode { path: path@, mode },
            StoreAction::OpenDir { path } => ActionView::OpenDir { path: path@ },
            StoreAction::RemoveTree { path } => ActionView::RemoveTree { path: path@ },
            StoreAction::SetQuota { volume, path, bytes } => ActionView::SetQuota {
                volume: volume@,
                path: path@,
                bytes,
            },
            StoreAction::GetQuotas { volume } => ActionView::GetQuotas { volume: volume@ },
            StoreAction::ListPeers => ActionView::ListPeers,
        }
    }
}

impl ActionView {
    /// The action in words, as the message of a failure names it.
    pub open spec fn label(self) -> Seq<char> {
        match self {
            ActionView::Exists { path } => "look up "@ + path,
            ActionView::MakeDir { path, .. } => "make directory "@ + path,
            ActionView::ChangeOwner { path, .. } => "change owner of "@ + path,
            ActionView::ChangeMode { path, .. } => "change mode of "@ + path,
            ActionView::OpenDir { path } => "list directory "@ + path,
            ActionView::RemoveTree { path } => "remove "@ + path,
            ActionView::SetQuota { path, .. } => "set quota on "@ + path,
            ActionView::GetQuotas { volume } => "list quotas of "@ + volume,
            ActionView::ListPeers => "list peers"@,
        }
    }

    /// The message of the failure of the action: what was tried, and what
    /// the store said.
    pub open spec fn failure(self, said: Seq<char>) -> Seq<char> {
        self.label() + ": "@ + said
    }
}

impl StoreAction {
    /// The message of the failure of the action: what was tried, and what
    /// the store said.
    pub fn failure(&self, said: &str) -> (message: String)
        ensures
            message@ == self@.failure(said@),
    {
        let mut message = match self {
            StoreAction::Exists { path } => {
                let mut m = String::from_str("look up ");
                m.append(path.as_str());
                m
            },
            StoreAction::MakeDir { path, .. } => {
                let mut m = String::from_str("make directory ");
                m.append(path.as_str());
                m
            },
            StoreAction::ChangeOwner { path, .. } => {
                let mut m = String::from_str("change owner of ");
                m.append(path.as_str());
                m
            },
            StoreAction::ChangeMode { path, .. } => {
                let mut m = String::from_str("change mode of ");
                m.append(path.as_str());
                m
            },
            StoreAction::OpenDir { path } => {
                let mut m = String::from_str("list directory ");
                m.append(path.as_str());
                m
            },
            StoreAction::RemoveTree { path } => {
                let mut m = String::from_str("remove ");
                m.append(path.as_str());
                m
            },
            StoreAction::SetQuota { path, .. } => {
                let mut m = String::from_str("set quota on ");
                m.append(path.as_str());
                m
            },
            StoreAction::GetQuotas { volume } => {
                let mut m = String::from_str("list quotas of ");
                m.append(volume.as_str());
                m
            },
            StoreAction::ListPeers => String::from_str("list peers"),
        };
        message.append(": ");
        message.append(said);
        message
    }
}

/// The store's answer to an action.
#[derive(Clone, Debug, PartialEq, Eq)]
pub enum StoreEvent {
    /// The action was carried out; it has nothing to report.
    Done,
    /// Whether the path exists.
    Exists(bool),
    /// The entries of the directory.
    Entries(Vec<DirEntry>),
    /// The quotas of the shared volume.
    Quotas(Vec<QuotaEntry>),
    /// The host names of the peers.
    Peers(Vec<String>),
    /// The action failed, with the store's message.
    Failed(String),
}

/// What a `StoreEvent` is in contracts.
pub enum EventView {
    Done,
    Exists(bool),
    Entries(Seq<EntryView>),
    Quotas(Seq<QuotaView>),
    Peers(Seq<Seq<char>>),
    Failed(Seq<char>),
}

impl View for StoreEvent {
    type V = EventView;

    open spec fn view(&self) -> EventView {
        match *self {
            StoreEvent::Done => EventView::Done,
            StoreEvent::Exists(yes) => EventView::Exists(yes),
            StoreEvent::Entries(entries) => EventView::Entries(entry_views(entries@)),
            StoreEvent::Quotas(quotas) => EventView::Quotas(quota_views(quotas@)),
            StoreEvent::Peers(peers) => EventView::Peers(texts(peers@)),
            StoreEvent::Failed(message) => EventView::Failed(message@),
        }
    }
}

/// Whether `path` lies beneath the directory `top`.
pub open spec fn beneath(path: Seq<char>, top: Seq<char>) -> bool {
    (top + "/"@).is_prefix_of(path)
}

impl ActionView {
    /// The path that the action is about, where it is about one.
    pub open spec fn touched(self) -> Option<Seq<char>> {
        match self {
            ActionView::Exists { path } => Some(path),
            ActionView::MakeDir { path, .. } => Some(path),
            ActionView::ChangeOwner { path, .. } => Some(path),
            ActionView::ChangeMode { path, .. } => Some(path),
            ActionView::OpenDir { path } => Some(path),
            ActionView::RemoveTree { path } => Some(path),
            ActionView::SetQuota { path, .. } => Some(path),
            ActionView::GetQuotas { .. } => None,
            ActionView::ListPeers => None,
        }
    }

    /// Whether the action changes anything in the store.
    pub open spec fn mutates(self) -> bool {
        match self {
            ActionView::Exists { .. } => false,
            ActionView::OpenDir { .. } => false,
            ActionView::GetQuotas { .. } => false,
            ActionView::ListPeers => false,
            _ => true,
        }
    }

    /// The directories that exist once the action has succeeded on a store
    /// that held the directories `dirs`.
    pub open spec fn directories_after(self, dirs: Set<Seq<char>>) -> Set<Seq<char>> {
        match self {
            ActionView::MakeDir { path, .. } => dirs.insert(path),
            ActionView::RemoveTree { path } => Set::new(
                |d: Seq<char>| dirs.contains(d) && d != path && !beneath(d, path),
            ),
            _ => dirs,
        }
    }

    /// The limits that are assigned once the action has succeeded on a store
    /// that had assigned `limits` to the paths of the shared volume `shared`.
    pub open spec fn limits_after(self, shared: Seq<char>, limits: Map<Seq<char>, u64>) -> Map<
        Seq<char>,
        u64,
    > {
        match self {
            ActionView::SetQuota { volume, path, bytes } => if volume == shared {
                limits.insert(path, bytes)
            } else {
                limits
            },
            _ => limits,
        }
    }
}

} // verus!
