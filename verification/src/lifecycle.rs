//! The lifecycle of a volume: create, describe, expand, delete and list,
//! each as a sequence of store actions that the answers of the store drive.
//!
//! An `Operation` names the action to carry out next. The caller carries it
//! out and hands the store's answer to `resume`, which gives either the
//! operation in its next stage or the reply for the client. Nothing is tried
//! twice: a failure of the store ends the operation with a reply.

use vstd::prelude::*;
use vstd::string::*;
use crate::capacity::{
    assigned_limit, bytes_from_gigabytes, expanded_limit, find_limit, grown_limit, quota_views,
    size_message, QuotaEntry, QuotaView, BYTES_PER_GIGABYTE,
};
use crate::error::{Error, ErrorKind, ErrorView};
use crate::identity::{hyphenated, marked_random, Identity};
use crate::names::{
    choose_name, chosen_name, entry_names, first_subdirectory, invalid_name_message, list_names,
    list_subdirectories, location, location_of, quota_path, quota_path_of, requested_name,
    resolve_name, sub_directory, sub_directory_of, subdirectories, valid_name,
};
use crate::store::{
    in_use_mode, setup_mode, ActionView, EventView, StoreAction, StoreEvent, MODE_IN_USE,
    MODE_SETUP, OWNER_ROOT,
};
use crate::text::{optional_text, texts};
use crate::volume::{describe_volume, shown_name, volume_info_of, VolumeInfo, VolumeView};

verus! {

/// What a client asks for when it creates a volume.
#[derive(Clone, Debug, PartialEq, Eq)]
pub struct CreateRequest {
    /// The size in gigabytes.
    pub size: u64,
    /// The display name; without one, or with an empty one, a name is
    /// generated.
    pub name: Option<String>,
    /// The group that is to use the volume.
    pub gid: Option<u64>,
}

/// The reply to a client.
#[derive(Clone, Debug, PartialEq, Eq)]
pub enum Reply {
    /// The request was taken on; the client finds the volume at `location`
    /// and asks there until it sees the state it waits for.
    Accepted { location: String },
    /// The volume is not there, or not there yet.
    NoContent,
    /// The description of the volume.
    Volume(VolumeInfo),
    /// The names at the top of the shared volume: the identities of the
    /// volumes, or every name where every name was asked for.
    Volumes(Vec<String>),
    /// The request failed.
    Rejected(Error),
}

/// What a `Reply` is in contracts.
pub enum ReplyView {
    Accepted { location: Seq<char> },
    NoContent,
    Volume(VolumeView),
    Volumes(Seq<Seq<char>>),
    Rejected(ErrorView),
}

impl View for Reply {
    type V = ReplyView;

    open spec fn view(&self) -> ReplyView {
        match *self {
            Reply::Accepted { location } => ReplyView::Accepted { location: location@ },
            Reply::NoContent => ReplyView::NoContent,
            Reply::Volume(info) => ReplyView::Volume(info@),
            Reply::Volumes(ids) => ReplyView::Volumes(texts(ids@)),
            Reply::Rejected(e) => ReplyView::Rejected(e@),
        }
    }
}

/// The states of a volume that a description can show.
#[derive(Clone, Copy, Debug, PartialEq, Eq, Structural)]
pub enum VolumeState {
    /// There is no identity directory: the volume was never made, or is
    /// deleted.
    Absent,
    /// The identity directory is there without a display name beneath it:
    /// the volume is being made or being deleted.
    Partial,
    /// The volume is there with its display name.
    Ready,
}

impl ReplyView {
    /// The state of the volume that the reply shows, where it shows one.
    pub open spec fn shown_state(self) -> Option<VolumeState> {
        match self {
            ReplyView::NoContent => Some(VolumeState::Absent),
            ReplyView::Volume(info) => if info.display_name is Some {
                Some(VolumeState::Ready)
            } else {
                Some(VolumeState::Partial)
            },
            _ => None,
        }
    }

    /// The HTTP status of the reply.
    pub open spec fn status_of(self) -> u16 {
        match self {
            ReplyView::Accepted { .. } => 202,
            ReplyView::NoContent => 204,
            ReplyView::Volume(_) => 200,
            ReplyView::Volumes(_) => 200,
            ReplyView::Rejected(e) => e.kind.status_of(),
        }
    }
}

impl Reply {
    /// The state of the volume that the reply to a description shows; none
    /// where the reply is a failure or answers another request.
    pub fn state(&self) -> (state: Option<VolumeState>)
        ensures
            state == self@.shown_state(),
    {
        match self {
            Reply::NoContent => Some(VolumeState::Absent),
            Reply::Volume(info) => if info.display_name.is_some() {
                Some(VolumeState::Ready)
            } else {
                Some(VolumeState::Partial)
            },
            _ => None,
        }
    }

    /// The HTTP status of the reply.
    pub fn status(&self) -> (code: u16)
        ensures
            code == self@.status_of(),
    {
        match self {
            Reply::Accepted { .. } => 202,
            Reply::NoContent => 204,
            Reply::Volume(_) => 200,
            Reply::Volumes(_) => 200,
            Reply::Rejected(e) => e.kind.status(),
        }
    }
}

/// The operations on volumes.
#[derive(Clone, Copy, Debug, PartialEq, Eq, Structural)]
pub enum Kind {
    /// Make a volume.
    Create,
    /// Describe a volume.
    Describe,
    /// Add to the quota of a volume.
    Expand,
    /// Remove a volume.
    Delete,
    /// List the volumes: the directories at the top of the shared volume.
    List,
    /// List every name at the top of the shared volume, directory or not.
    Survey,
}

/// Where an operation stands: the action that it waits on.
#[derive(Clone, Copy, Debug, PartialEq, Eq, Structural)]
pub enum Stage {
    /// Asking whether the identity directory exists.
    Probing,
    /// Making the identity directory.
    MakingTop,
    /// Making the directory of the display name.
    MakingSub,
    /// Giving the identity directory to the group.
    OwningTop,
    /// Giving the directory of the display name to the group.
    OwningSub,
    /// Opening the identity directory for use.
    OpeningTop,
    /// Opening the directory of the display name for use.
    OpeningSub,
    /// Setting the quota.
    Limiting,
    /// Listing the peers.
    ListingPeers,
    /// Listing a directory for the names in it.
    Naming,
    /// Listing the quotas.
    Measuring,
    /// Removing the identity directory.
    Removing,
}

/// One operation under way.
#[derive(Clone, Debug, PartialEq, Eq)]
pub struct Operation {
    pub kind: Kind,
    pub stage: Stage,
    /// The shared volume.
    pub volume: String,
    /// The identity of the volume; empty for a listing.
    pub id: String,
    /// The display name, as far as it is known.
    pub name: Option<String>,
    /// Whether the display name is still to be read from the store.
    pub lookup: bool,
    /// The group to give the directories to.
    pub gid: Option<u32>,
    /// The gigabytes that the request asks for.
    pub gigabytes: u64,
    /// The limit in bytes to set.
    pub bytes: u64,
    /// The peers, once they are listed.
    pub peers: Vec<String>,
}

/// What an `Operation` is in contracts.
pub struct OperationView {
    pub kind: Kind,
    pub stage: Stage,
    pub volume: Seq<char>,
    pub id: Seq<char>,
    pub name: Option<Seq<char>>,
    pub lookup: bool,
    pub gid: Option<u32>,
    pub gigabytes: u64,
    pub bytes: u64,
    pub peers: Seq<Seq<char>>,
}

impl View for Operation {
    type V = OperationView;

    open spec fn view(&self) -> OperationView {
        OperationView {
            kind: self.kind,
            stage: self.stage,
            volume: self.volume@,
            id: self.id@,
            name: optional_text(self.name),
            lookup: self.lookup,
            gid: self.gid,
            gigabytes: self.gigabytes,
            bytes: self.bytes,
            peers: texts(self.peers@),
        }
    }
}

/// An operation after an answer of the store.
#[derive(Clone, Debug, PartialEq, Eq)]
pub enum Progress {
    /// The operation goes on: carry out its action and resume it.
    Continue(Operation),
    /// The operation is over, with this reply.
    Finished(Reply),
}

/// What a `Progress` is in contracts.
pub enum ProgressView {
    Continue(OperationView),
    Finished(ReplyView),
}

impl View for Progress {
    type V = ProgressView;

    open spec fn view(&self) -> ProgressView {
        match *self {
            Progress::Continue(op) => ProgressView::Continue(op@),
            Progress::Finished(reply) => ProgressView::Finished(reply@),
        }
    }
}

/// The message of the failure of a cluster that lists no peers.
pub open spec fn no_peers_message() -> Seq<char> {
    "The storage cluster lists no peers"@
}

/// The message of the failure to expand a volume that has no quota.
pub open spec fn no_quota_message() -> Seq<char> {
    "The volume has no quota to expand"@
}

/// The message of the failure that an answer to another question gives.
pub open spec fn unexpected_message() -> Seq<char> {
    "The volume store gave an answer that was not asked for"@
}

/// The reply that rejects a request.
pub open spec fn rejected(kind: ErrorKind, message: Seq<char>) -> ProgressView {
    ProgressView::Finished(ReplyView::Rejected(ErrorView { kind, message }))
}

/// The group that a request names, as the store takes it: the low 32 bits.
pub open spec fn store_gid(gid: Option<u64>) -> Option<u32> {
    match gid {
        Some(g) => Some((g % 0x1_0000_0000) as u32),
        None => None,
    }
}

impl Stage {
    /// The most actions that an operation in this stage still asks for.
    pub open spec fn actions_left(self) -> nat {
        match self {
            Stage::Probing => 12,
            Stage::MakingTop => 11,
            Stage::MakingSub => 10,
            Stage::OwningTop => 9,
            Stage::OwningSub => 8,
            Stage::OpeningTop => 7,
            Stage::OpeningSub => 6,
            Stage::ListingPeers => 5,
            Stage::Naming => 4,
            Stage::Measuring => 3,
            Stage::Limiting => 2,
            Stage::Removing => 1,
        }
    }
}

impl OperationView {
    /// Whether the operation is in a state that its beginning leads to:
    /// the stage is one of its kind, and what the stage needs is known.
    pub open spec fn well_formed(self) -> bool {
        match self.kind {
            Kind::Create => {
                &&& self.stage != Stage::ListingPeers && self.stage != Stage::Naming && self.stage
                    != Stage::Measuring && self.stage != Stage::Removing
                &&& self.name is Some
                &&& !self.lookup
                &&& self.bytes == self.gigabytes * BYTES_PER_GIGABYTE
                &&& (self.stage == Stage::OwningTop || self.stage == Stage::OwningSub)
                    ==> self.gid is Some
            },
            Kind::Describe => {
                &&& self.stage == Stage::Probing || self.stage == Stage::ListingPeers || self.stage
                    == Stage::Naming || self.stage == Stage::Measuring
                &&& self.lookup ==> self.name is None
                &&& self.stage == Stage::Naming ==> self.lookup
                &&& self.stage == Stage::Measuring ==> !self.lookup
                &&& (self.stage == Stage::Naming || self.stage == Stage::Measuring)
                    ==> self.peers.len() > 0
            },
            Kind::Expand => {
                &&& self.stage == Stage::Measuring || self.stage == Stage::Limiting
                &&& self.name is Some
            },
            Kind::Delete => {
                &&& self.stage == Stage::Naming || self.stage == Stage::Removing
                &&& self.stage == Stage::Naming ==> self.lookup && self.name is None
            },
            Kind::List => self.stage == Stage::Naming,
            Kind::Survey => self.stage == Stage::Naming,
        }
    }

    /// The display name as it is written into paths.
    pub open spec fn shown(self) -> Seq<char> {
        shown_name(self.name)
    }

    /// Where the client finds the volume of this operation.
    pub open spec fn location(self) -> Seq<char> {
        location(self.volume, self.id, self.shown())
    }

    /// The reply that the request was taken on.
    pub open spec fn accepted(self) -> ProgressView {
        ProgressView::Finished(ReplyView::Accepted { location: self.location() })
    }

    /// The operation in another stage.
    pub open spec fn at(self, stage: Stage) -> OperationView {
        OperationView { stage, ..self }
    }

    /// The stage in which a new volume gets its owner and mode, once its
    /// directories are there.
    pub open spec fn dressing(self) -> Stage {
        if self.gid is Some {
            Stage::OwningTop
        } else {
            Stage::OpeningTop
        }
    }

    /// The action that the operation waits on.
    pub open spec fn action(self) -> ActionView {
        let sub = sub_directory(self.id, self.shown());
        let gid = match self.gid {
            Some(g) => g,
            None => OWNER_ROOT,
        };
        match self.stage {
            Stage::Probing => ActionView::Exists { path: self.id },
            Stage::MakingTop => ActionView::MakeDir { path: self.id, mode: MODE_SETUP },
            Stage::MakingSub => ActionView::MakeDir { path: sub, mode: MODE_SETUP },
            Stage::OwningTop => ActionView::ChangeOwner { path: self.id, uid: OWNER_ROOT, gid },
            Stage::OwningSub => ActionView::ChangeOwner { path: sub, uid: OWNER_ROOT, gid },
            Stage::OpeningTop => ActionView::ChangeMode { path: self.id, mode: MODE_IN_USE },
            Stage::OpeningSub => ActionView::ChangeMode { path: sub, mode: MODE_IN_USE },
            Stage::Limiting => ActionView::SetQuota {
                volume: self.volume,
                path: quota_path(self.id),
                bytes: self.bytes,
            },
            Stage::ListingPeers => ActionView::ListPeers,
            Stage::Naming => ActionView::OpenDir {
                path: if self.kind == Kind::List || self.kind == Kind::Survey {
                    "/"@
                } else {
                    self.id
                },
            },
            Stage::Measuring => ActionView::GetQuotas { volume: self.volume },
            Stage::Removing => ActionView::RemoveTree { path: self.id },
        }
    }

    /// What a failure of the store makes of the operation, given what the
    /// store said. A quota that cannot be set does not undo a new volume, and
    /// quotas that cannot be listed leave a description without a size. Any
    /// other failure ends the operation, with a message that tells what was
    /// tried and what the store said.
    pub open spec fn after_failure(self, said: Seq<char>) -> ProgressView {
        if self.kind == Kind::Create && self.stage == Stage::Limiting {
            self.accepted()
        } else if self.kind == Kind::Expand && self.stage == Stage::Limiting {
            rejected(ErrorKind::InvalidArgument, self.action().failure(said))
        } else if self.kind == Kind::Describe && self.stage == Stage::Measuring {
            self.described(Seq::empty())
        } else {
            rejected(ErrorKind::Internal, self.action().failure(said))
        }
    }

    /// The reply that describes the volume, given the quotas.
    pub open spec fn described(self, quotas: Seq<QuotaView>) -> ProgressView {
        if self.peers.len() == 0 {
            rejected(ErrorKind::Unavailable, no_peers_message())
        } else {
            ProgressView::Finished(
                ReplyView::Volume(
                    volume_info_of(self.peers, quotas, self.volume, self.id, self.name),
                ),
            )
        }
    }

    /// What a listing of the quotas makes of an expansion.
    pub open spec fn expanded(self, quotas: Seq<QuotaView>) -> ProgressView {
        match assigned_limit(quotas, quota_path(self.id)) {
            None => rejected(ErrorKind::NotFound, no_quota_message()),
            Some(current) => match grown_limit(current, self.gigabytes) {
                None => rejected(ErrorKind::InvalidArgument, size_message()),
                Some(bytes) => ProgressView::Continue(
                    OperationView { stage: Stage::Limiting, bytes, ..self },
                ),
            },
        }
    }

    /// What the operation becomes when the store answers its action with
    /// `event`.
    pub open spec fn after(self, event: EventView) -> ProgressView {
        let unexpected = rejected(ErrorKind::Internal, unexpected_message());
        match event {
            EventView::Failed(message) => self.after_failure(message),
            EventView::Exists(exists) => if self.stage != Stage::Probing {
                unexpected
            } else if self.kind == Kind::Create {
                ProgressView::Continue(
                    self.at(
                        if exists {
                            self.dressing()
                        } else {
                            Stage::MakingTop
                        },
                    ),
                )
            } else if self.kind == Kind::Describe {
                if exists {
                    ProgressView::Continue(self.at(Stage::ListingPeers))
                } else {
                    ProgressView::Finished(ReplyView::NoContent)
                }
            } else {
                unexpected
            },
            EventView::Done => match (self.kind, self.stage) {
                (Kind::Create, Stage::MakingTop) => ProgressView::Continue(
                    self.at(Stage::MakingSub),
                ),
                (Kind::Create, Stage::MakingSub) => ProgressView::Continue(
                    self.at(self.dressing()),
                ),
                (Kind::Create, Stage::OwningTop) => ProgressView::Continue(
                    self.at(Stage::OwningSub),
                ),
                (Kind::Create, Stage::OwningSub) => ProgressView::Continue(
                    self.at(Stage::OpeningTop),
                ),
                (Kind::Create, Stage::OpeningTop) => ProgressView::Continue(
                    self.at(Stage::OpeningSub),
                ),
                (Kind::Create, Stage::OpeningSub) => ProgressView::Continue(
                    self.at(Stage::Limiting),
                ),
                (Kind::Create, Stage::Limiting) => self.accepted(),
                (Kind::Expand, Stage::Limiting) => self.accepted(),
                (Kind::Delete, Stage::Removing) => self.accepted(),
                _ => unexpected,
            },
            EventView::Peers(peers) => if self.kind != Kind::Describe || self.stage
                != Stage::ListingPeers {
                unexpected
            } else if peers.len() == 0 {
                rejected(ErrorKind::Unavailable, no_peers_message())
            } else {
                ProgressView::Continue(
                    OperationView {
                        stage: if self.lookup {
                            Stage::Naming
                        } else {
                            Stage::Measuring
                        },
                        peers,
                        ..self
                    },
                )
            },
            EventView::Entries(entries) => if self.stage != Stage::Naming {
                unexpected
            } else {
                match self.kind {
                    Kind::Describe => ProgressView::Continue(
                        OperationView {
                            stage: Stage::Measuring,
                            name: first_subdirectory(entries),
                            lookup: false,
                            ..self
                        },
                    ),
                    Kind::Delete => ProgressView::Continue(
                        OperationView {
                            stage: Stage::Removing,
                            name: first_subdirectory(entries),
                            lookup: false,
                            ..self
                        },
                    ),
                    Kind::List => ProgressView::Finished(
                        ReplyView::Volumes(subdirectories(entries)),
                    ),
                    Kind::Survey => ProgressView::Finished(
                        ReplyView::Volumes(entry_names(entries)),
                    ),
                    _ => unexpected,
                }
            },
            EventView::Quotas(quotas) => if self.stage != Stage::Measuring {
                unexpected
            } else {
                match self.kind {
                    Kind::Describe => self.described(quotas),
                    Kind::Expand => self.expanded(quotas),
                    _ => unexpected,
                }
            },
        }
    }
}

/// The operation that creates volume `id` on `volume` as `request` asks, or
/// nothing where the request is not valid.
pub open spec fn creation(
    volume: Seq<char>,
    id: Seq<char>,
    size: u64,
    name: Option<Seq<char>>,
    gid: Option<u64>,
) -> Option<OperationView> {
    if chosen_name(name, id) is Some && size * BYTES_PER_GIGABYTE <= u64::MAX {
        Some(
            OperationView {
                kind: Kind::Create,
                stage: Stage::Probing,
                volume,
                id,
                name: chosen_name(name, id),
                lookup: false,
                gid: store_gid(gid),
                gigabytes: size,
                bytes: (size * BYTES_PER_GIGABYTE) as u64,
                peers: Seq::empty(),
            },
        )
    } else {
        None
    }
}

/// Whether a create request can become an operation: its display name, if
/// it has one, is valid, and its size has a number of bytes.
pub open spec fn acceptable(size: u64, name: Option<Seq<char>>) -> bool {
    &&& match requested_name(name) {
        Some(n) => valid_name(n),
        None => true,
    }
    &&& size * BYTES_PER_GIGABYTE <= u64::MAX
}

/// The failure that keeps a request from becoming an operation.
pub open spec fn creation_failure(
    id: Seq<char>,
    size: u64,
    name: Option<Seq<char>>,
) -> Option<ErrorView> {
    if chosen_name(name, id) is None {
        Some(ErrorView { kind: ErrorKind::InvalidArgument, message: invalid_name_message() })
    } else if size * BYTES_PER_GIGABYTE > u64::MAX {
        Some(ErrorView { kind: ErrorKind::InvalidArgument, message: size_message() })
    } else {
        None
    }
}

/// An operation on volume `id` of `volume` that begins at `stage`.
pub open spec fn beginning(
    kind: Kind,
    stage: Stage,
    volume: Seq<char>,
    id: Seq<char>,
    name: Option<Seq<char>>,
    lookup: bool,
    gigabytes: u64,
) -> OperationView {
    OperationView {
        kind,
        stage,
        volume,
        id,
        name,
        lookup,
        gid: None,
        gigabytes,
        bytes: 0,
        peers: Seq::empty(),
    }
}

/// The end of an operation in a failure.
fn reject(kind: ErrorKind, message: &str) -> (progress: Progress)
    ensures
        progress@ == rejected(kind, message@),
{
    Progress::Finished(Reply::Rejected(Error::new(kind, message)))
}

/// The end of an operation that was answered what it did not ask for.
fn reject_unexpected() -> (progress: Progress)
    ensures
        progress@ == rejected(ErrorKind::Internal, unexpected_message()),
{
    reject(ErrorKind::Internal, "The volume store gave an answer that was not asked for")
}

impl Operation {
    /// An operation at its beginning.
    fn begin(
        kind: Kind,
        stage: Stage,
        volume: &str,
        id: &str,
        name: Option<String>,
        lookup: bool,
        gigabytes: u64,
    ) -> (op: Operation)
        ensures
            op@ == beginning(kind, stage, volume@, id@, optional_text(name), lookup, gigabytes),
    {
        let op = Operation {
            kind,
            stage,
            volume: String::from_str(volume),
            id: String::from_str(id),
            name,
            lookup,
            gid: None,
            gigabytes,
            bytes: 0,
            peers: Vec::new(),
        };
        assert(texts(op.peers@) =~= Seq::empty());
        op
    }

    /// The creation of volume `id` on the shared volume `volume`. A request
    /// with a display name that is not valid, or with a size that has no
    /// number of bytes, is refused before anything is asked of the store.
    pub fn create(volume: &str, id: &str, request: &CreateRequest) -> (op: Result<
        Operation,
        Error,
    >)
        ensures
            match op {
                Ok(o) => creation(
                    volume@,
                    id@,
                    request.size,
                    optional_text(request.name),
                    request.gid,
                ) == Some(o@),
                Err(e) => creation(
                    volume@,
                    id@,
                    request.size,
                    optional_text(request.name),
                    request.gid,
                ) is None && creation_failure(id@, request.size, optional_text(request.name))
                    == Some(e@),
            },
    {
        let name = match choose_name(&request.name, id) {
            Ok(name) => name,
            Err(e) => {
                return Err(e);
            },
        };
        let bytes = match bytes_from_gigabytes(request.size) {
            Some(bytes) => bytes,
            None => {
                return Err(
                    Error::new(
                        ErrorKind::InvalidArgument,
                        "The size in bytes does not fit in 64 bits",
                    ),
                );
            },
        };
        let gid = match request.gid {
            Some(g) => Some((g % 0x1_0000_0000) as u32),
            None => None,
        };
        let op = Operation {
            kind: Kind::Create,
            stage: Stage::Probing,
            volume: String::from_str(volume),
            id: String::from_str(id),
            name: Some(name),
            lookup: false,
            gid,
            gigabytes: request.size,
            bytes,
            peers: Vec::new(),
        };
        assert(texts(op.peers@) =~= Seq::empty());
        Ok(op)
    }

    /// The creation of a volume with a new random identity on the shared
    /// volume `volume`. Whether the request is taken does not depend on the
    /// identity that was drawn.
    pub fn create_fresh(volume: &str, request: &CreateRequest) -> (op: Result<Operation, Error>)
        ensures
            op is Ok <==> acceptable(request.size, optional_text(request.name)),
            exists|value: u128|
                #![trigger marked_random(value)]
                marked_random(value) && match op {
                    Ok(o) => creation(
                        volume@,
                        hyphenated(value),
                        request.size,
                        optional_text(request.name),
                        request.gid,
                    ) == Some(o@),
                    Err(e) => creation_failure(
                        hyphenated(value),
                        request.size,
                        optional_text(request.name),
                    ) == Some(e@),
                },
    {
        let id = Identity::random();
        let text = id.text();
        let op = Operation::create(volume, text.as_str(), request);
        assert(marked_random(id.value));
        op
    }

    /// The description of volume `id`, whose display name is read from the
    /// store.
    pub fn describe(volume: &str, id: &str) -> (op: Operation)
        ensures
            op@ == beginning(Kind::Describe, Stage::Probing, volume@, id@, None, true, 0),
    {
        Operation::begin(Kind::Describe, Stage::Probing, volume, id, None, true, 0)
    }

    /// The description of volume `id` with display name `name`.
    pub fn describe_named(volume: &str, id: &str, name: &str) -> (op: Operation)
        ensures
            op@ == beginning(
                Kind::Describe,
                Stage::Probing,
                volume@,
                id@,
                Some(name@),
                false,
                0,
            ),
    {
        let name = Some(String::from_str(name));
        Operation::begin(Kind::Describe, Stage::Probing, volume, id, name, false, 0)
    }

    /// The expansion of volume `id` by `gigabytes`.
    pub fn expand(volume: &str, id: &str, name: &str, gigabytes: u64) -> (op: Operation)
        ensures
            op@ == beginning(
                Kind::Expand,
                Stage::Measuring,
                volume@,
                id@,
                Some(name@),
                false,
                gigabytes,
            ),
    {
        let name = Some(String::from_str(name));
        Operation::begin(Kind::Expand, Stage::Measuring, volume, id, name, false, gigabytes)
    }

    /// The deletion of volume `id` with display name `name`.
    pub fn delete(volume: &str, id: &str, name: &str) -> (op: Operation)
        ensures
            op@ == beginning(
                Kind::Delete,
                Stage::Removing,
                volume@,
                id@,
                Some(name@),
                false,
                0,
            ),
    {
        let name = Some(String::from_str(name));
        Operation::begin(Kind::Delete, Stage::Removing, volume, id, name, false, 0)
    }

    /// The deletion of volume `id`, whose display name is read from the
    /// store for the reply.
    pub fn delete_by_id(volume: &str, id: &str) -> (op: Operation)
        ensures
            op@ == beginning(Kind::Delete, Stage::Naming, volume@, id@, None, true, 0),
    {
        Operation::begin(Kind::Delete, Stage::Naming, volume, id, None, true, 0)
    }

    /// The listing of the volumes of the shared volume `volume`.
    pub fn list(volume: &str) -> (op: Operation)
        ensures
            op@ == beginning(Kind::List, Stage::Naming, volume@, Seq::empty(), None, false, 0),
    {
        proof {
            reveal_strlit("");
            assert(""@ =~= Seq::empty());
        }
        Operation::begin(Kind::List, Stage::Naming, volume, "", None, false, 0)
    }

    /// The listing of every name at the top of the shared volume `volume`.
    pub fn survey(volume: &str) -> (op: Operation)
        ensures
            op@ == beginning(Kind::Survey, Stage::Naming, volume@, Seq::empty(), None, false, 0),
    {
        proof {
            reveal_strlit("");
            assert(""@ =~= Seq::empty());
        }
        Operation::begin(Kind::Survey, Stage::Naming, volume, "", None, false, 0)
    }

    /// The display name as it is written into paths.
    fn shown(&self) -> (name: String)
        ensures
            name@ == self@.shown(),
    {
        match &self.name {
            Some(n) => n.clone(),
            None => String::new(),
        }
    }

    /// The directory of the display name.
    fn sub(&self) -> (path: String)
        ensures
            path@ == sub_directory(self@.id, self@.shown()),
    {
        let shown = self.shown();
        sub_directory_of(self.id.as_str(), shown.as_str())
    }

    /// The end of the operation in the reply that the request was taken on.
    fn accept(&self) -> (progress: Progress)
        ensures
            progress@ == self@.accepted(),
    {
        let shown = self.shown();
        Progress::Finished(
            Reply::Accepted {
                location: location_of(self.volume.as_str(), self.id.as_str(), shown.as_str()),
            },
        )
    }

    /// The operation in another stage.
    fn at(self, stage: Stage) -> (progress: Progress)
        ensures
            progress@ == ProgressView::Continue(self@.at(stage)),
    {
        Progress::Continue(Operation { stage, ..self })
    }

    /// The stage in which a new volume gets its owner and mode.
    fn dressing(&self) -> (stage: Stage)
        ensures
            stage == self@.dressing(),
    {
        if self.gid.is_some() {
            Stage::OwningTop
        } else {
            Stage::OpeningTop
        }
    }

    /// The operation of a request, once it is known whether the request was
    /// let in: a request that was not is answered with the failure, and
    /// nothing is asked of the store for it.
    pub fn guarded(self, let_in: Result<(), Error>) -> (progress: Progress)
        ensures
            progress@ == match let_in {
                Ok(_) => ProgressView::Continue(self@),
                Err(e) => ProgressView::Finished(ReplyView::Rejected(e@)),
            },
    {
        match let_in {
            Ok(_) => Progress::Continue(self),
            Err(e) => Progress::Finished(Reply::Rejected(e)),
        }
    }

    /// The action that the operation waits on.
    pub fn action(&self) -> (action: StoreAction)
        ensures
            action@ == self@.action(),
    {
        let gid = match self.gid {
            Some(g) => g,
            None => OWNER_ROOT,
        };
        match self.stage {
            Stage::Probing => StoreAction::Exists { path: self.id.clone() },
            Stage::MakingTop => StoreAction::MakeDir { path: self.id.clone(), mode: setup_mode() },
            Stage::MakingSub => StoreAction::MakeDir { path: self.sub(), mode: setup_mode() },
            Stage::OwningTop => StoreAction::ChangeOwner {
                path: self.id.clone(),
                uid: OWNER_ROOT,
                gid,
            },
            Stage::OwningSub => StoreAction::ChangeOwner { path: self.sub(), uid: OWNER_ROOT, gid },
            Stage::OpeningTop => StoreAction::ChangeMode {
                path: self.id.clone(),
                mode: in_use_mode(),
            },
            Stage::OpeningSub => StoreAction::ChangeMode { path: self.sub(), mode: in_use_mode() },
            Stage::Limiting => StoreAction::SetQuota {
                volume: self.volume.clone(),
                path: quota_path_of(self.id.as_str()),
                bytes: self.bytes,
            },
            Stage::ListingPeers => StoreAction::ListPeers,
            Stage::Naming => StoreAction::OpenDir {
                path: match self.kind {
                    Kind::List => String::from_str("/"),
                    Kind::Survey => String::from_str("/"),
                    _ => self.id.clone(),
                },
            },
            Stage::Measuring => StoreAction::GetQuotas { volume: self.volume.clone() },
            Stage::Removing => StoreAction::RemoveTree { path: self.id.clone() },
        }
    }

    /// The end of a description, given the quotas.
    fn describe_with(self, quotas: &Vec<QuotaEntry>) -> (progress: Progress)
        ensures
            progress@ == self@.described(quota_views(quotas@)),
    {
        match describe_volume(
            &self.peers,
            quotas,
            self.volume.as_str(),
            self.id.as_str(),
            &self.name,
        ) {
            Some(info) => Progress::Finished(Reply::Volume(info)),
            None => reject(ErrorKind::Unavailable, "The storage cluster lists no peers"),
        }
    }

    /// An expansion after the quotas were listed.
    fn expand_with(self, quotas: &Vec<QuotaEntry>) -> (progress: Progress)
        ensures
            progress@ == self@.expanded(quota_views(quotas@)),
    {
        let path = quota_path_of(self.id.as_str());
        match find_limit(quotas, path.as_str()) {
            None => reject(ErrorKind::NotFound, "The volume has no quota to expand"),
            Some(current) => match expanded_limit(current, self.gigabytes) {
                Err(e) => Progress::Finished(Reply::Rejected(e)),
                Ok(bytes) => Progress::Continue(
                    Operation { stage: Stage::Limiting, bytes, ..self },
                ),
            },
        }
    }

    /// The operation after a failure of the store.
    fn fail(self, said: String) -> (progress: Progress)
        ensures
            progress@ == self@.after_failure(said@),
    {
        match (self.kind, self.stage) {
            (Kind::Create, Stage::Limiting) => self.accept(),
            (Kind::Expand, Stage::Limiting) => {
                let message = self.action().failure(said.as_str());
                Progress::Finished(
                    Reply::Rejected(Error { kind: ErrorKind::InvalidArgument, message }),
                )
            },
            (Kind::Describe, Stage::Measuring) => {
                let none: Vec<QuotaEntry> = Vec::new();
                assert(quota_views(none@) =~= Seq::empty());
                self.describe_with(&none)
            },
            _ => {
                let message = self.action().failure(said.as_str());
                Progress::Finished(Reply::Rejected(Error { kind: ErrorKind::Internal, message }))
            },
        }
    }

    /// The operation after the store has answered its action with `event`.
    pub fn resume(self, event: StoreEvent) -> (progress: Progress)
        ensures
            progress@ == self@.after(event@),
    {
        match event {
            StoreEvent::Failed(message) => self.fail(message),
            StoreEvent::Exists(exists) => match (self.kind, self.stage) {
                (Kind::Create, Stage::Probing) => {
                    let stage = if exists {
                        self.dressing()
                    } else {
                        Stage::MakingTop
                    };
                    self.at(stage)
                },
                (Kind::Describe, Stage::Probing) => if exists {
                    self.at(Stage::ListingPeers)
                } else {
                    Progress::Finished(Reply::NoContent)
                },
                _ => reject_unexpected(),
            },
            StoreEvent::Done => match (self.kind, self.stage) {
                (Kind::Create, Stage::MakingTop) => self.at(Stage::MakingSub),
                (Kind::Create, Stage::MakingSub) => {
                    let stage = self.dressing();
                    self.at(stage)
                },
                (Kind::Create, Stage::OwningTop) => self.at(Stage::OwningSub),
                (Kind::Create, Stage::OwningSub) => self.at(Stage::OpeningTop),
                (Kind::Create, Stage::OpeningTop) => self.at(Stage::OpeningSub),
                (Kind::Create, Stage::OpeningSub) => self.at(Stage::Limiting),
                (Kind::Create, Stage::Limiting) => self.accept(),
                (Kind::Expand, Stage::Limiting) => self.accept(),
                (Kind::Delete, Stage::Removing) => self.accept(),
                _ => reject_unexpected(),
            },
            StoreEvent::Peers(peers) => match (self.kind, self.stage) {
                (Kind::Describe, Stage::ListingPeers) => if peers.len() == 0 {
                    reject(ErrorKind::Unavailable, "The storage cluster lists no peers")
                } else {
                    let stage = if self.lookup {
                        Stage::Naming
                    } else {
                        Stage::Measuring
                    };
                    Progress::Continue(Operation { stage, peers, ..self })
                },
                _ => reject_unexpected(),
            },
            StoreEvent::Entries(entries) => match (self.kind, self.stage) {
                (Kind::Describe, Stage::Naming) => Progress::Continue(
                    Operation {
                        stage: Stage::Measuring,
                        name: resolve_name(&entries),
                        lookup: false,
                        ..self
                    },
                ),
                (Kind::Delete, Stage::Naming) => Progress::Continue(
                    Operation {
                        stage: Stage::Removing,
                        name: resolve_name(&entries),
                        lookup: false,
                        ..self
                    },
                ),
                (Kind::List, Stage::Naming) => Progress::Finished(
                    Reply::Volumes(list_subdirectories(&entries)),
                ),
                (Kind::Survey, Stage::Naming) => Progress::Finished(
                    Reply::Volumes(list_names(&entries)),
                ),
                _ => reject_unexpected(),
            },
            StoreEvent::Quotas(quotas) => match (self.kind, self.stage) {
                (Kind::Describe, Stage::Measuring) => self.describe_with(&quotas),
                (Kind::Expand, Stage::Measuring) => self.expand_with(&quotas),
                _ => reject_unexpected(),
            },
        }
    }
}

} // verus!
