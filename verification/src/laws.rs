//! What holds of every run of an operation, and of operations that follow
//! one another on the same store.

use vstd::prelude::*;
use crate::capacity::{
    assigned_limit, grown_limit, quota_gigabytes, QuotaView, BYTES_PER_GIGABYTE,
};
use crate::error::{ErrorKind, ErrorView};
use crate::identity::{hyphenated, law_identities_differ_in_text, law_identity_text_has_its_shape};
use crate::lifecycle::{
    beginning, creation, creation_failure, rejected, unexpected_message, Kind, OperationView,
    ProgressView, ReplyView, Stage, VolumeState,
};
use crate::mount::{
    lemma_distinct_first, lemma_distinct_of_distinct, lemma_distinct_once,
    lemma_distinct_same_hosts, mount_of,
};
use crate::names::{
    allowed_in_name, entry_names, first_subdirectory, invalid_name_message, location, quota_path,
    requested_name, sub_directory, subdirectories, valid_name,
};
use crate::store::{
    beneath, ActionView, EntryView, EventView, MODE_IN_USE, MODE_SETUP, OWNER_ROOT,
};
use crate::volume::{shown_name, volume_info_of};

verus! {

/// What a run of an operation leaves behind: the actions that the store
/// answered, in order, and the reply, once there is one.
pub struct Trace {
    pub actions: Seq<ActionView>,
    pub reply: Option<ReplyView>,
}

/// The run of `op` from the answer `events[from]` on.
pub open spec fn run_from(op: OperationView, events: Seq<EventView>, from: int) -> Trace
    decreases events.len() - from,
{
    if from < 0 || from >= events.len() {
        Trace { actions: Seq::empty(), reply: None }
    } else {
        match op.after(events[from]) {
            ProgressView::Finished(reply) => Trace {
                actions: seq![op.action()],
                reply: Some(reply),
            },
            ProgressView::Continue(next) => {
                let rest = run_from(next, events, from + 1);
                Trace { actions: seq![op.action()] + rest.actions, reply: rest.reply }
            },
        }
    }
}

/// The run of `op` on a store that answers its actions with `events`, one
/// after the other; answers after the reply are not asked for.
pub open spec fn run(op: OperationView, events: Seq<EventView>) -> Trace {
    run_from(op, events, 0)
}

/// The directories that exist once `actions` have succeeded, one after the
/// other, on a store that held the directories `dirs`.
pub open spec fn directories_after_all(actions: Seq<ActionView>, dirs: Set<Seq<char>>) -> Set<
    Seq<char>,
>
    decreases actions.len(),
{
    if actions.len() == 0 {
        dirs
    } else {
        actions.last().directories_after(directories_after_all(actions.drop_last(), dirs))
    }
}

/// The actions that create a volume, where each succeeds: the directories
/// are made unless the identity exists, given to the group if there is one,
/// opened for use, and limited.
pub open spec fn creation_actions(op: OperationView, existed: bool) -> Seq<ActionView> {
    let sub = sub_directory(op.id, op.shown());
    let probe = seq![ActionView::Exists { path: op.id }];
    let make = if existed {
        Seq::empty()
    } else {
        seq![
            ActionView::MakeDir { path: op.id, mode: MODE_SETUP },
            ActionView::MakeDir { path: sub, mode: MODE_SETUP },
        ]
    };
    let own = match op.gid {
        Some(gid) => seq![
            ActionView::ChangeOwner { path: op.id, uid: OWNER_ROOT, gid },
            ActionView::ChangeOwner { path: sub, uid: OWNER_ROOT, gid },
        ],
        None => Seq::empty(),
    };
    let open = seq![
        ActionView::ChangeMode { path: op.id, mode: MODE_IN_USE },
        ActionView::ChangeMode { path: sub, mode: MODE_IN_USE },
        ActionView::SetQuota { volume: op.volume, path: quota_path(op.id), bytes: op.bytes },
    ];
    probe + make + own + open
}

/// The answers of a store on which every action of a creation succeeds.
pub open spec fn creation_answers(op: OperationView, existed: bool) -> Seq<EventView> {
    Seq::new(
        creation_actions(op, existed).len(),
        |i: int|
            if i == 0 {
                EventView::Exists(existed)
            } else {
                EventView::Done
            },
    )
}

/// Every operation begins well formed, and stays so whatever the store
/// answers.
pub proof fn law_operations_stay_well_formed(op: OperationView, event: EventView)
    requires
        op.well_formed(),
    ensures
        op.after(event) matches ProgressView::Continue(next) ==> next.well_formed(),
{
}

/// The operations as they begin are well formed.
pub proof fn law_operations_begin_well_formed(
    volume: Seq<char>,
    id: Seq<char>,
    name: Seq<char>,
    size: u64,
    requested: Option<Seq<char>>,
    gid: Option<u64>,
)
    ensures
        creation(volume, id, size, requested, gid) matches Some(op) ==> op.well_formed(),
        beginning(Kind::Describe, Stage::Probing, volume, id, None, true, 0).well_formed(),
        beginning(Kind::Describe, Stage::Probing, volume, id, Some(name), false, 0).well_formed(),
        beginning(Kind::Expand, Stage::Measuring, volume, id, Some(name), false, size).well_formed(),
        beginning(Kind::Delete, Stage::Removing, volume, id, Some(name), false, 0).well_formed(),
        beginning(Kind::Delete, Stage::Naming, volume, id, None, true, 0).well_formed(),
        beginning(Kind::List, Stage::Naming, volume, Seq::empty(), None, false, 0).well_formed(),
        beginning(Kind::Survey, Stage::Naming, volume, Seq::empty(), None, false, 0).well_formed(),
{
}

/// No operation goes round: with every answer it ends or comes nearer to
/// its end, so it asks for twelve actions at most and for none of them
/// twice.
pub proof fn law_operations_end(op: OperationView, event: EventView)
    ensures
        op.after(event) matches ProgressView::Continue(next) ==> next.stage.actions_left()
            < op.stage.actions_left(),
{
}

/// A well-formed operation that is answered what it asked for is never told
/// that the answer was not asked for.
pub proof fn law_asked_answers_are_taken(op: OperationView, event: EventView)
    requires
        op.well_formed(),
        answers(op.action(), event),
        !(event is Failed),
    ensures
        op.after(event) != rejected(ErrorKind::Internal, unexpected_message()),
{
}

/// Whether `event` is an answer to `action`: a failure, or what the action
/// asks for.
pub open spec fn answers(action: ActionView, event: EventView) -> bool {
    match event {
        EventView::Failed(_) => true,
        EventView::Exists(_) => action is Exists,
        EventView::Entries(_) => action is OpenDir,
        EventView::Quotas(_) => action is GetQuotas,
        EventView::Peers(_) => action is ListPeers,
        EventView::Done => action.mutates(),
    }
}

/// A create request whose display name holds a character that is neither a
/// letter nor a number is refused as an invalid argument, and no operation
/// comes of it: nothing is asked of the store.
pub proof fn law_invalid_name_is_refused(
    volume: Seq<char>,
    id: Seq<char>,
    size: u64,
    name: Seq<char>,
    gid: Option<u64>,
    at: int,
)
    requires
        0 <= at < name.len(),
        !allowed_in_name(name[at]),
    ensures
        creation(volume, id, size, Some(name), gid) is None,
        creation_failure(id, size, Some(name)) == Some(
            ErrorView { kind: ErrorKind::InvalidArgument, message: invalid_name_message() },
        ),
{
    assert(requested_name(Some(name)) == Some(name));
    assert(!valid_name(name));
}

/// A creation on which every action succeeds carries out exactly the
/// actions of a creation and is accepted at the location of the new volume.
pub proof fn law_creation_runs(op: OperationView, existed: bool)
    requires
        op.kind == Kind::Create,
        op.stage == Stage::Probing,
    ensures
        run(op, creation_answers(op, existed)) == (Trace {
            actions: creation_actions(op, existed),
            reply: Some(ReplyView::Accepted { location: op.location() }),
        }),
{
    let events = creation_answers(op, existed);
    let actions = creation_actions(op, existed);
    reveal_with_fuel(run_from, 9);
    assert(run(op, events).actions =~= actions);
}

/// A creation on which every action succeeds leaves the identity directory
/// behind, and the directory of the display name where it made the two.
pub proof fn law_creation_makes_directories(op: OperationView, dirs: Set<Seq<char>>)
    requires
        op.kind == Kind::Create,
        op.stage == Stage::Probing,
    ensures
        directories_after_all(creation_actions(op, dirs.contains(op.id)), dirs).contains(op.id),
        !dirs.contains(op.id) ==> directories_after_all(
            creation_actions(op, dirs.contains(op.id)),
            dirs,
        ).contains(sub_directory(op.id, op.shown())),
{
    let actions = creation_actions(op, dirs.contains(op.id));
    reveal_with_fuel(directories_after_all, 9);
    let a1 = actions.drop_last();
    let a2 = a1.drop_last();
    let a3 = a2.drop_last();
    let a4 = a3.drop_last();
    let a5 = a4.drop_last();
    let a6 = a5.drop_last();
    let a7 = a6.drop_last();
    let a8 = a7.drop_last();
    assert(actions.len() >= 4);
    assert(directories_after_all(actions, dirs) == directories_after_all(a3, dirs));
}

/// The creations of two volumes never meet: whatever the display names,
/// no path that the one is about is a path that the other is about. Two
/// clients that ask for the same display name get two volumes.
pub proof fn law_creations_do_not_meet(
    first: OperationView,
    second: OperationView,
    one: u128,
    other: u128,
    first_existed: bool,
    second_existed: bool,
    i: int,
    j: int,
)
    requires
        one != other,
        first.id == hyphenated(one),
        second.id == hyphenated(other),
        0 <= i < creation_actions(first, first_existed).len(),
        0 <= j < creation_actions(second, second_existed).len(),
    ensures
        creation_actions(first, first_existed)[i].touched() != creation_actions(
            second,
            second_existed,
        )[j].touched(),
{
    let a = hyphenated(one);
    let b = hyphenated(other);
    law_identity_text_has_its_shape(one);
    law_identity_text_has_its_shape(other);
    if a == b {
        law_identities_differ_in_text(one, other);
    }
    reveal_strlit("/");
    let sub_a = sub_directory(a, first.shown());
    let sub_b = sub_directory(b, second.shown());
    let quota_a = quota_path(a);
    let quota_b = quota_path(b);
    assert(sub_a.subrange(0, 36) =~= a);
    assert(sub_b.subrange(0, 36) =~= b);
    assert(quota_a.subrange(1, 37) =~= a);
    assert(quota_b.subrange(1, 37) =~= b);
    assert(sub_a.len() > 36 && sub_b.len() > 36);
    assert(quota_a.len() == 37 && quota_b.len() == 37);
    assert(quota_a[0] == '/' && quota_b[0] == '/');
    assert(sub_a[0] == a[0] && sub_b[0] == b[0]);
    assert(a[0] != '/' && b[0] != '/');
    let x = creation_actions(first, first_existed)[i].touched();
    let y = creation_actions(second, second_existed)[j].touched();
    assert(x == Some(a) || x == Some(sub_a) || x == Some(quota_a));
    assert(y == Some(b) || y == Some(sub_b) || y == Some(quota_b));
}

/// A volume that was created is described, and never reported as missing:
/// once a creation has run on a store where every action of it succeeded,
/// the description at the accepted location gives the volume with its
/// display name, whether the quotas can be listed or not.
pub proof fn law_created_volume_is_described(
    volume: Seq<char>,
    id: Seq<char>,
    size: u64,
    name: Option<Seq<char>>,
    gid: Option<u64>,
    dirs: Set<Seq<char>>,
    peers: Seq<Seq<char>>,
    quotas: Seq<QuotaView>,
    message: Seq<char>,
)
    requires
        creation(volume, id, size, name, gid) is Some,
        peers.len() > 0,
    ensures
        ({
            let op = creation(volume, id, size, name, gid)->0;
            let created = run(op, creation_answers(op, dirs.contains(id)));
            let after = directories_after_all(created.actions, dirs);
            let look = beginning(Kind::Describe, Stage::Probing, volume, id, op.name, false, 0);
            &&& created.reply == Some(
                ReplyView::Accepted { location: location(volume, id, shown_name(op.name)) },
            )
            &&& after.contains(id)
            &&& run(
                look,
                seq![
                    EventView::Exists(after.contains(id)),
                    EventView::Peers(peers),
                    EventView::Quotas(quotas),
                ],
            ).reply == Some(
                ReplyView::Volume(volume_info_of(peers, quotas, volume, id, op.name)),
            )
            &&& ReplyView::Volume(
                volume_info_of(peers, quotas, volume, id, op.name),
            ).shown_state() == Some(VolumeState::Ready)
            &&& run(
                look,
                seq![
                    EventView::Exists(after.contains(id)),
                    EventView::Peers(peers),
                    EventView::Failed(message),
                ],
            ).reply == Some(
                ReplyView::Volume(volume_info_of(peers, Seq::empty(), volume, id, op.name)),
            )
        }),
{
    let op = creation(volume, id, size, name, gid)->0;
    law_creation_runs(op, dirs.contains(id));
    law_creation_makes_directories(op, dirs);
    reveal_with_fuel(run_from, 4);
}

/// The size that a description reports is the size that was asked for:
/// once the quota of a creation is in force, whatever other quotas there
/// are, the volume is described with the gigabytes of the request.
pub proof fn law_created_size_is_described(
    volume: Seq<char>,
    id: Seq<char>,
    size: u64,
    name: Option<Seq<char>>,
    gid: Option<u64>,
    others: Seq<QuotaView>,
)
    requires
        creation(volume, id, size, name, gid) is Some,
    ensures
        ({
            let op = creation(volume, id, size, name, gid)->0;
            let set = QuotaView { path: quota_path(id), limit_bytes: op.bytes };
            &&& creation_actions(op, true).last() == (ActionView::SetQuota {
                volume,
                path: quota_path(id),
                bytes: op.bytes,
            })
            &&& creation_actions(op, false).last() == creation_actions(op, true).last()
            &&& quota_gigabytes(others.push(set), id) == size
        }),
{
    let op = creation(volume, id, size, name, gid)->0;
    let set = QuotaView { path: quota_path(id), limit_bytes: op.bytes };
    assert(others.push(set).last() == set);
    assert(op.bytes == size * BYTES_PER_GIGABYTE);
    assert((size * BYTES_PER_GIGABYTE) / (BYTES_PER_GIGABYTE as int) == size) by (nonlinear_arith);
}

/// A description of a volume that is there, on a cluster with peers, asks
/// whether the identity exists, lists the peers, reads the display name
/// where it was not given, lists the quotas, and gives the description.
pub proof fn law_description_runs(
    volume: Seq<char>,
    id: Seq<char>,
    name: Seq<char>,
    peers: Seq<Seq<char>>,
    entries: Seq<EntryView>,
    quotas: Seq<QuotaView>,
)
    requires
        peers.len() > 0,
    ensures
        run(
            beginning(Kind::Describe, Stage::Probing, volume, id, None, true, 0),
            seq![
                EventView::Exists(true),
                EventView::Peers(peers),
                EventView::Entries(entries),
                EventView::Quotas(quotas),
            ],
        ) == (Trace {
            actions: seq![
                ActionView::Exists { path: id },
                ActionView::ListPeers,
                ActionView::OpenDir { path: id },
                ActionView::GetQuotas { volume },
            ],
            reply: Some(
                ReplyView::Volume(
                    volume_info_of(peers, quotas, volume, id, first_subdirectory(entries)),
                ),
            ),
        }),
        run(
            beginning(Kind::Describe, Stage::Probing, volume, id, Some(name), false, 0),
            seq![EventView::Exists(true), EventView::Peers(peers), EventView::Quotas(quotas)],
        ) == (Trace {
            actions: seq![
                ActionView::Exists { path: id },
                ActionView::ListPeers,
                ActionView::GetQuotas { volume },
            ],
            reply: Some(
                ReplyView::Volume(volume_info_of(peers, quotas, volume, id, Some(name))),
            ),
        }),
{
    reveal_with_fuel(run_from, 5);
    let by_id = run(
        beginning(Kind::Describe, Stage::Probing, volume, id, None, true, 0),
        seq![
            EventView::Exists(true),
            EventView::Peers(peers),
            EventView::Entries(entries),
            EventView::Quotas(quotas),
        ],
    );
    assert(by_id.actions =~= seq![
        ActionView::Exists { path: id },
        ActionView::ListPeers,
        ActionView::OpenDir { path: id },
        ActionView::GetQuotas { volume },
    ]);
    let named = run(
        beginning(Kind::Describe, Stage::Probing, volume, id, Some(name), false, 0),
        seq![EventView::Exists(true), EventView::Peers(peers), EventView::Quotas(quotas)],
    );
    assert(named.actions =~= seq![
        ActionView::Exists { path: id },
        ActionView::ListPeers,
        ActionView::GetQuotas { volume },
    ]);
}

/// A deletion by identity reads the display name for its reply and then
/// removes the identity directory; a listing lists the top of the shared
/// volume and gives the directories in it.
pub proof fn law_listings_run(volume: Seq<char>, id: Seq<char>, entries: Seq<EntryView>)
    ensures
        run(
            beginning(Kind::Delete, Stage::Naming, volume, id, None, true, 0),
            seq![EventView::Entries(entries), EventView::Done],
        ) == (Trace {
            actions: seq![ActionView::OpenDir { path: id }, ActionView::RemoveTree { path: id }],
            reply: Some(
                ReplyView::Accepted {
                    location: location(volume, id, shown_name(first_subdirectory(entries))),
                },
            ),
        }),
        run(
            beginning(Kind::List, Stage::Naming, volume, Seq::empty(), None, false, 0),
            seq![EventView::Entries(entries)],
        ) == (Trace {
            actions: seq![ActionView::OpenDir { path: "/"@ }],
            reply: Some(ReplyView::Volumes(subdirectories(entries))),
        }),
        run(
            beginning(Kind::Survey, Stage::Naming, volume, Seq::empty(), None, false, 0),
            seq![EventView::Entries(entries)],
        ) == (Trace {
            actions: seq![ActionView::OpenDir { path: "/"@ }],
            reply: Some(ReplyView::Volumes(entry_names(entries))),
        }),
{
    reveal_with_fuel(run_from, 3);
    let deleted = run(
        beginning(Kind::Delete, Stage::Naming, volume, id, None, true, 0),
        seq![EventView::Entries(entries), EventView::Done],
    );
    assert(deleted.actions =~= seq![
        ActionView::OpenDir { path: id },
        ActionView::RemoveTree { path: id },
    ]);
}

/// No description ends in a failure of the class `NotFound`, whatever the
/// store answers.
pub proof fn law_description_is_never_not_found(op: OperationView, event: EventView)
    requires
        op.kind == Kind::Describe,
    ensures
        match op.after(event) {
            ProgressView::Finished(ReplyView::Rejected(e)) => e.kind != ErrorKind::NotFound,
            _ => true,
        },
{
}

/// The stages that a description goes through.
pub open spec fn describing(op: OperationView) -> bool {
    &&& op.kind == Kind::Describe
    &&& (op.stage == Stage::Probing || op.stage == Stage::ListingPeers || op.stage
        == Stage::Naming || op.stage == Stage::Measuring)
}

/// Actions that change nothing leave the directories as they were.
pub proof fn lemma_reading_keeps_directories(actions: Seq<ActionView>, dirs: Set<Seq<char>>)
    requires
        forall|i: int| 0 <= i < actions.len() ==> !(#[trigger] actions[i]).mutates(),
    ensures
        directories_after_all(actions, dirs) == dirs,
    decreases actions.len(),
{
    if actions.len() > 0 {
        let front = actions.drop_last();
        assert forall|i: int| 0 <= i < front.len() implies !(#[trigger] front[i]).mutates() by {
            assert(front[i] == actions[i]);
        }
        lemma_reading_keeps_directories(front, dirs);
        assert(!actions[actions.len() - 1].mutates());
    }
}

/// A description only reads: whatever the store answers, none of its
/// actions changes anything, so no description brings back a volume that
/// was deleted.
pub proof fn law_description_only_reads(
    op: OperationView,
    events: Seq<EventView>,
    from: int,
    dirs: Set<Seq<char>>,
)
    requires
        describing(op),
        0 <= from,
    ensures
        forall|i: int|
            0 <= i < run_from(op, events, from).actions.len() ==> !(#[trigger] run_from(
                op,
                events,
                from,
            ).actions[i]).mutates(),
        directories_after_all(run_from(op, events, from).actions, dirs) == dirs,
    decreases events.len() - from,
{
    if from < events.len() {
        match op.after(events[from]) {
            ProgressView::Finished(_) => {},
            ProgressView::Continue(next) => {
                law_description_only_reads(next, events, from + 1, dirs);
            },
        }
    }
    lemma_reading_keeps_directories(run_from(op, events, from).actions, dirs);
}

/// A deletion that succeeds removes the identity directory and all beneath
/// it and is accepted; a description that follows finds nothing and says so.
pub proof fn law_deleted_volume_is_gone(
    volume: Seq<char>,
    id: Seq<char>,
    name: Seq<char>,
    dirs: Set<Seq<char>>,
)
    ensures
        ({
            let op = beginning(Kind::Delete, Stage::Removing, volume, id, Some(name), false, 0);
            let deleted = run(op, seq![EventView::Done]);
            let after = directories_after_all(deleted.actions, dirs);
            let look = beginning(Kind::Describe, Stage::Probing, volume, id, None, true, 0);
            &&& deleted == (Trace {
                actions: seq![ActionView::RemoveTree { path: id }],
                reply: Some(ReplyView::Accepted { location: location(volume, id, name) }),
            })
            &&& !after.contains(id)
            &&& forall|d: Seq<char>| beneath(d, id) ==> !after.contains(d)
            &&& forall|d: Seq<char>| after.contains(d) ==> dirs.contains(d)
            &&& run(look, seq![EventView::Exists(after.contains(id))]) == (Trace {
                actions: seq![ActionView::Exists { path: id }],
                reply: Some(ReplyView::NoContent),
            })
            &&& ReplyView::NoContent.shown_state() == Some(VolumeState::Absent)
        }),
{
    reveal_with_fuel(run_from, 2);
    reveal_with_fuel(directories_after_all, 2);
    let op = beginning(Kind::Delete, Stage::Removing, volume, id, Some(name), false, 0);
    let actions = seq![ActionView::RemoveTree { path: id }];
    assert(actions.drop_last() =~= Seq::empty());
    assert(run(op, seq![EventView::Done]).actions =~= actions);
}

/// A deletion that the store fails, as it does where the identity does not
/// exist, is not accepted: it ends in an internal failure that tells what
/// was to be removed and what the store said.
pub proof fn law_failed_deletion_is_reported(
    volume: Seq<char>,
    id: Seq<char>,
    name: Seq<char>,
    said: Seq<char>,
)
    ensures
        beginning(Kind::Delete, Stage::Removing, volume, id, Some(name), false, 0).after(
            EventView::Failed(said),
        ) == ProgressView::Finished(
            ReplyView::Rejected(
                ErrorView { kind: ErrorKind::Internal, message: "remove "@ + id + ": "@ + said },
            ),
        ),
{
}

/// No entry of `quotas` names `path` exactly when no limit is assigned to it.
pub proof fn lemma_unassigned(quotas: Seq<QuotaView>, path: Seq<char>)
    ensures
        assigned_limit(quotas, path) is None <==> forall|i: int|
            0 <= i < quotas.len() ==> (#[trigger] quotas[i]).path != path,
    decreases quotas.len(),
{
    if quotas.len() > 0 {
        let front = quotas.drop_last();
        lemma_unassigned(front, path);
        if assigned_limit(quotas, path) is None {
            assert forall|i: int| 0 <= i < quotas.len() implies (#[trigger] quotas[i]).path
                != path by {
                if i < front.len() {
                    assert(front[i] == quotas[i]);
                }
            }
        }
        if forall|i: int| 0 <= i < quotas.len() ==> (#[trigger] quotas[i]).path != path {
            assert(quotas.last() == quotas[quotas.len() - 1]);
            assert forall|i: int| 0 <= i < front.len() implies (#[trigger] front[i]).path
                != path by {
                assert(front[i] == quotas[i]);
            }
        }
    }
}

/// The size of a volume to which no quota is assigned is zero.
pub proof fn law_unassigned_quota_is_zero(quotas: Seq<QuotaView>, id: Seq<char>)
    requires
        forall|i: int| 0 <= i < quotas.len() ==> (#[trigger] quotas[i]).path != quota_path(id),
    ensures
        quota_gigabytes(quotas, id) == 0,
{
    lemma_unassigned(quotas, quota_path(id));
}

/// An expansion of a volume to which no quota is assigned is refused as not
/// found, before any quota is set.
pub proof fn law_expansion_needs_a_quota(
    volume: Seq<char>,
    id: Seq<char>,
    name: Seq<char>,
    gigabytes: u64,
    quotas: Seq<QuotaView>,
)
    requires
        forall|i: int| 0 <= i < quotas.len() ==> (#[trigger] quotas[i]).path != quota_path(id),
    ensures
        ({
            let op = beginning(
                Kind::Expand,
                Stage::Measuring,
                volume,
                id,
                Some(name),
                false,
                gigabytes,
            );
            let expanded = run(op, seq![EventView::Quotas(quotas)]);
            &&& expanded.actions == seq![ActionView::GetQuotas { volume }]
            &&& expanded.reply matches Some(ReplyView::Rejected(e))
            &&& e.kind == ErrorKind::NotFound
        }),
{
    lemma_unassigned(quotas, quota_path(id));
    reveal_with_fuel(run_from, 2);
}

/// An expansion never lowers a limit: where a quota is assigned, the limit
/// that the expansion sets is the assigned one and the added gigabytes, and
/// where that sum has no 64 bits the expansion is refused and sets nothing.
pub proof fn law_expansion_never_shrinks(
    volume: Seq<char>,
    id: Seq<char>,
    name: Seq<char>,
    gigabytes: u64,
    quotas: Seq<QuotaView>,
    limits: Map<Seq<char>, u64>,
)
    requires
        assigned_limit(quotas, quota_path(id)) is Some,
    ensures
        ({
            let current = assigned_limit(quotas, quota_path(id))->0;
            let op = beginning(
                Kind::Expand,
                Stage::Measuring,
                volume,
                id,
                Some(name),
                false,
                gigabytes,
            );
            let expanded = run(op, seq![EventView::Quotas(quotas), EventView::Done]);
            match grown_limit(current, gigabytes) {
                Some(bytes) => {
                    let set = ActionView::SetQuota { volume, path: quota_path(id), bytes };
                    &&& bytes >= current
                    &&& expanded.actions == seq![ActionView::GetQuotas { volume }, set]
                    &&& expanded.reply == Some(
                        ReplyView::Accepted { location: location(volume, id, name) },
                    )
                    &&& set.limits_after(volume, limits)[quota_path(id)] >= current
                },
                None => {
                    &&& expanded.actions == seq![ActionView::GetQuotas { volume }]
                    &&& expanded.reply matches Some(ReplyView::Rejected(e))
                    &&& e.kind == ErrorKind::InvalidArgument
                },
            }
        }),
{
    reveal_with_fuel(run_from, 3);
    let op = beginning(Kind::Expand, Stage::Measuring, volume, id, Some(name), false, gigabytes);
    let expanded = run(op, seq![EventView::Quotas(quotas), EventView::Done]);
    let current = assigned_limit(quotas, quota_path(id))->0;
    match grown_limit(current, gigabytes) {
        Some(bytes) => {
            let set = ActionView::SetQuota { volume, path: quota_path(id), bytes };
            assert(expanded.actions =~= seq![ActionView::GetQuotas { volume }, set]);
        },
        None => {
            assert(expanded.actions =~= seq![ActionView::GetQuotas { volume }]);
        },
    }
}

/// The size of a volume is its limit in whole gigabytes, rounded down: the
/// gigabytes that are reported fit into the limit, and one more would not.
pub proof fn law_size_is_rounded_down(quotas: Seq<QuotaView>, id: Seq<char>)
    requires
        assigned_limit(quotas, quota_path(id)) is Some,
    ensures
        quota_gigabytes(quotas, id) * BYTES_PER_GIGABYTE <= assigned_limit(
            quotas,
            quota_path(id),
        )->0 < (quota_gigabytes(quotas, id) + 1) * BYTES_PER_GIGABYTE,
{
    let limit = assigned_limit(quotas, quota_path(id))->0 as int;
    let unit = BYTES_PER_GIGABYTE as int;
    assert(limit == unit * (limit / unit) + limit % unit) by (nonlinear_arith)
        requires
            unit > 0,
    ;
    assert(0 <= limit % unit < unit);
    assert((limit / unit + 1) * unit == (limit / unit) * unit + unit) by (nonlinear_arith);
    assert((limit / unit) * unit == unit * (limit / unit)) by (nonlinear_arith);
}

/// A volume that was expanded is described with what it had and what was
/// added: once the limit of an expansion is in force, a volume of whole
/// gigabytes reports the sum.
pub proof fn law_expanded_size_is_described(
    quotas: Seq<QuotaView>,
    id: Seq<char>,
    had: u64,
    added: u64,
)
    requires
        assigned_limit(quotas, quota_path(id)) == Some((had * BYTES_PER_GIGABYTE) as u64),
        (had + added) * BYTES_PER_GIGABYTE <= u64::MAX,
    ensures
        grown_limit((had * BYTES_PER_GIGABYTE) as u64, added) == Some(
            ((had + added) * BYTES_PER_GIGABYTE) as u64,
        ),
        quota_gigabytes(
            quotas.push(
                QuotaView {
                    path: quota_path(id),
                    limit_bytes: ((had + added) * BYTES_PER_GIGABYTE) as u64,
                },
            ),
            id,
        ) == had + added,
{
    let unit = BYTES_PER_GIGABYTE as int;
    assert((had + added) * unit == had * unit + added * unit) by (nonlinear_arith);
    assert(had * unit <= (had + added) * unit) by (nonlinear_arith)
        requires
            unit > 0,
            added >= 0,
            had >= 0,
    ;
    assert(((had + added) * unit) / unit == had + added) by (nonlinear_arith)
        requires
            unit > 0,
    ;
    let set = QuotaView {
        path: quota_path(id),
        limit_bytes: ((had + added) * BYTES_PER_GIGABYTE) as u64,
    };
    assert(quotas.push(set).last() == set);
}

/// The hosts to fall back to are the peers of the cluster, each exactly
/// once: a host that the cluster lists twice, the primary host too, is
/// there once, and where the cluster lists every host once they are the
/// peers as listed. The primary host is the first of them.
pub proof fn law_backup_hosts(
    peers: Seq<Seq<char>>,
    volume: Seq<char>,
    id: Seq<char>,
    name: Seq<char>,
)
    requires
        peers.len() > 0,
    ensures
        ({
            let mount = mount_of(peers, volume, id, name);
            &&& mount.primary_host == peers[0]
            &&& mount.backup_hosts.no_duplicates()
            &&& mount.backup_hosts[0] == mount.primary_host
            &&& forall|h: Seq<char>| #[trigger] mount.backup_hosts.contains(h) <==> peers.contains(h)
            &&& peers.no_duplicates() ==> mount.backup_hosts == peers
        }),
{
    lemma_distinct_once(peers);
    lemma_distinct_first(peers);
    lemma_distinct_same_hosts(peers);
    if peers.no_duplicates() {
        lemma_distinct_of_distinct(peers);
    }
}

} // verus!
