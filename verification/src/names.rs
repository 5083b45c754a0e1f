//! The volume namespace: which display names are accepted, and the paths
//! under which a volume's directories, quota and address are known.
//!
//! A volume is addressed by its identity, a generated directory name at the
//! top of the shared volume. Its display name is the one directory beneath.

use vstd::prelude::*;
use vstd::string::*;
use crate::error::{Error, ErrorKind, ErrorView};
use crate::store::{entry_views, DirEntry, EntryView};
use crate::text::{optional_text, texts};

verus! {

/// Whether `c` is alphabetic as `char::is_alphabetic` decides it.
pub uninterp spec fn alphabetic(c: char) -> bool;

/// Whether `c` is numeric as `char::is_numeric` decides it.
pub uninterp spec fn numeric(c: char) -> bool;

/// `char::is_alphabetic` depends on the character alone; its answer is
/// `alphabetic`.
pub assume_specification[ char::is_alphabetic ](c: char) -> (yes: bool)
    ensures
        yes == alphabetic(c),
;

/// `char::is_numeric` depends on the character alone; its answer is
/// `numeric`.
pub assume_specification[ char::is_numeric ](c: char) -> (yes: bool)
    ensures
        yes == numeric(c),
;

/// The characters a display name may hold: letters and numbers.
pub open spec fn allowed_in_name(c: char) -> bool {
    alphabetic(c) || numeric(c)
}

/// A display name is valid when every character of it is allowed.
pub open spec fn valid_name(name: Seq<char>) -> bool {
    forall|i: int| 0 <= i < name.len() ==> allowed_in_name(#[trigger] name[i])
}

/// The display name of a volume that was created without one.
pub open spec fn generated_name(id: Seq<char>) -> Seq<char> {
    "vol_"@ + id
}

/// The name that a create request asks for, if it asks for one: an empty
/// name counts as none.
pub open spec fn requested_name(name: Option<Seq<char>>) -> Option<Seq<char>> {
    match name {
        Some(n) => if n.len() > 0 { Some(n) } else { None },
        None => None,
    }
}

/// The display name of a new volume with identity `id`: the requested name
/// if it is valid, the generated one if none was requested, and nothing if
/// the requested name holds a character that is not allowed.
pub open spec fn chosen_name(name: Option<Seq<char>>, id: Seq<char>) -> Option<Seq<char>> {
    match requested_name(name) {
        Some(n) => if valid_name(n) { Some(n) } else { None },
        None => Some(generated_name(id)),
    }
}

/// The directory of the display name, beneath the identity directory.
pub open spec fn sub_directory(id: Seq<char>, name: Seq<char>) -> Seq<char> {
    id + "/"@ + name
}

/// The path that the quota of volume `id` is attached to.
pub open spec fn quota_path(id: Seq<char>) -> Seq<char> {
    "/"@ + id
}

/// The name a volume is listed under: shared volume, identity, display name.
pub open spec fn volume_label(volume: Seq<char>, id: Seq<char>, name: Seq<char>) -> Seq<char> {
    volume + "/"@ + id + "/"@ + name
}

/// Where a client finds the volume again.
pub open spec fn location(volume: Seq<char>, id: Seq<char>, name: Seq<char>) -> Seq<char> {
    "/volumes/"@ + volume_label(volume, id, name)
}

/// What a client mounts: the volume's directory as exported by `host`.
pub open spec fn export_path(
    host: Seq<char>,
    volume: Seq<char>,
    id: Seq<char>,
    name: Seq<char>,
) -> Seq<char> {
    host + ":/"@ + volume_label(volume, id, name)
}

/// Whether a directory entry names anything: the directory itself and its
/// parent do not.
pub open spec fn names_something(entry: EntryView) -> bool {
    entry.name != "."@ && entry.name != ".."@
}

/// Whether a directory entry is a directory of its own beneath the one
/// that was listed.
pub open spec fn is_subdirectory(entry: EntryView) -> bool {
    entry.is_dir() && names_something(entry)
}

/// The display name that a listing of an identity directory shows: the name
/// of the first subdirectory, and nothing where there is none yet.
pub open spec fn first_subdirectory(entries: Seq<EntryView>) -> Option<Seq<char>>
    decreases entries.len(),
{
    if entries.len() == 0 {
        None
    } else if is_subdirectory(entries[0]) {
        Some(entries[0].name)
    } else {
        first_subdirectory(entries.subrange(1, entries.len() as int))
    }
}

/// The names of the subdirectories in a listing, in its order.
pub open spec fn subdirectories(entries: Seq<EntryView>) -> Seq<Seq<char>>
    decreases entries.len(),
{
    if entries.len() == 0 {
        Seq::empty()
    } else if is_subdirectory(entries.last()) {
        subdirectories(entries.drop_last()).push(entries.last().name)
    } else {
        subdirectories(entries.drop_last())
    }
}

/// The names in a listing, in its order, whatever they name.
pub open spec fn entry_names(entries: Seq<EntryView>) -> Seq<Seq<char>>
    decreases entries.len(),
{
    if entries.len() == 0 {
        Seq::empty()
    } else if names_something(entries.last()) {
        entry_names(entries.drop_last()).push(entries.last().name)
    } else {
        entry_names(entries.drop_last())
    }
}

/// Whether a directory entry names anything.
fn entry_names_something(entry: &DirEntry) -> (yes: bool)
    ensures
        yes == names_something(entry@),
{
    !entry.name.as_str().eq(".") && !entry.name.as_str().eq("..")
}

/// The display name of a volume, read from the listing of its identity
/// directory.
pub fn resolve_name(entries: &Vec<DirEntry>) -> (name: Option<String>)
    ensures
        optional_text(name) == first_subdirectory(entry_views(entries@)),
{
    let ghost all = entry_views(entries@);
    let mut i: usize = 0;
    assert(all.subrange(0, all.len() as int) =~= all);
    while i < entries.len()
        invariant
            i <= entries.len(),
            all == entry_views(entries@),
            first_subdirectory(all) == first_subdirectory(all.subrange(i as int, all.len() as int)),
        decreases entries.len() - i,
    {
        proof {
            let rest = all.subrange(i as int, all.len() as int);
            assert(rest[0] == entries[i as int]@);
            assert(rest.subrange(1, rest.len() as int) =~= all.subrange(i + 1, all.len() as int));
        }
        if entries[i].is_dir() && entry_names_something(&entries[i]) {
            return Some(entries[i].name.clone());
        }
        i += 1;
    }
    None
}

/// The identities in a listing of the top of the shared volume.
pub fn list_subdirectories(entries: &Vec<DirEntry>) -> (names: Vec<String>)
    ensures
        texts(names@) == subdirectories(entry_views(entries@)),
{
    let ghost all = entry_views(entries@);
    let mut names: Vec<String> = Vec::new();
    let mut i: usize = 0;
    assert(texts(names@) =~= subdirectories(all.take(0)));
    while i < entries.len()
        invariant
            i <= entries.len(),
            all == entry_views(entries@),
            texts(names@) == subdirectories(all.take(i as int)),
        decreases entries.len() - i,
    {
        let ghost before = texts(names@);
        proof {
            let next = all.take(i + 1);
            assert(next.drop_last() =~= all.take(i as int));
            assert(next.last() == entries[i as int]@);
        }
        if entries[i].is_dir() && entry_names_something(&entries[i]) {
            names.push(entries[i].name.clone());
            assert(texts(names@) =~= before.push(entries[i as int].name@));
        }
        i += 1;
    }
    assert(all.take(entries.len() as int) =~= all);
    names
}

/// The names in a listing, without the directory itself and its parent.
pub fn list_names(entries: &Vec<DirEntry>) -> (names: Vec<String>)
    ensures
        texts(names@) == entry_names(entry_views(entries@)),
{
    let ghost all = entry_views(entries@);
    let mut names: Vec<String> = Vec::new();
    let mut i: usize = 0;
    assert(texts(names@) =~= entry_names(all.take(0)));
    while i < entries.len()
        invariant
            i <= entries.len(),
            all == entry_views(entries@),
            texts(names@) == entry_names(all.take(i as int)),
        decreases entries.len() - i,
    {
        let ghost before = texts(names@);
        proof {
            let next = all.take(i + 1);
            assert(next.drop_last() =~= all.take(i as int));
            assert(next.last() == entries[i as int]@);
        }
        if entry_names_something(&entries[i]) {
            names.push(entries[i].name.clone());
            assert(texts(names@) =~= before.push(entries[i as int].name@));
        }
        i += 1;
    }
    assert(all.take(entries.len() as int) =~= all);
    names
}

/// Whether `name` is valid as a display name.
pub fn is_valid_name(name: &str) -> (ok: bool)
    ensures
        ok == valid_name(name@),
{
    let mut ok = true;
    for c in it: name.chars()
        invariant
            it.seq() == name@,
            ok == valid_name(name@.take(it.index())),
    {
        proof {
            let before = name@.take(it.index());
            let after = name@.take(it.index() + 1);
            assert(forall|i: int| 0 <= i < before.len() ==> before[i] == after[i]);
            assert(after[it.index()] == c);
            if valid_name(before) && allowed_in_name(c) {
                assert forall|i: int| 0 <= i < after.len() implies allowed_in_name(
                    #[trigger] after[i],
                ) by {
                    if i < before.len() {
                        assert(allowed_in_name(before[i]));
                    }
                }
            }
            if valid_name(after) {
                assert(allowed_in_name(after[it.index()]));
                assert forall|i: int| 0 <= i < before.len() implies allowed_in_name(
                    #[trigger] before[i],
                ) by {
                    assert(allowed_in_name(after[i]));
                }
            }
        }
        ok = ok && (c.is_alphabetic() || c.is_numeric());
    }
    proof {
        assert(name@.take(name@.len() as int) == name@);
    }
    ok
}

/// The message of the failure that an invalid display name gives.
pub open spec fn invalid_name_message() -> Seq<char> {
    "Only numbers and letters are allowed in the volume name"@
}

/// The display name of a new volume with identity `id`, for which `name`
/// was asked.
pub fn choose_name(name: &Option<String>, id: &str) -> (chosen: Result<String, Error>)
    ensures
        match chosen {
            Ok(n) => chosen_name(optional_text(*name), id@) == Some(n@),
            Err(e) => chosen_name(optional_text(*name), id@) is None && e@ == (ErrorView {
                kind: ErrorKind::InvalidArgument,
                message: invalid_name_message(),
            }),
        },
{
    match name {
        Some(n) => {
            if n.as_str().unicode_len() == 0 {
                Ok(generated(id))
            } else if is_valid_name(n.as_str()) {
                Ok(n.clone())
            } else {
                Err(
                    Error::new(
                        ErrorKind::InvalidArgument,
                        "Only numbers and letters are allowed in the volume name",
                    ),
                )
            }
        },
        None => Ok(generated(id)),
    }
}

/// The display name of a volume that was created without one.
pub fn generated(id: &str) -> (name: String)
    ensures
        name@ == generated_name(id@),
{
    let mut name = String::from_str("vol_");
    name.append(id);
    name
}

/// The directory of the display name, beneath the identity directory.
pub fn sub_directory_of(id: &str, name: &str) -> (path: String)
    ensures
        path@ == sub_directory(id@, name@),
{
    let mut path = String::from_str(id);
    path.append("/");
    path.append(name);
    path
}

/// The path that the quota of volume `id` is attached to.
pub fn quota_path_of(id: &str) -> (path: String)
    ensures
        path@ == quota_path(id@),
{
    let mut path = String::from_str("/");
    path.append(id);
    path
}

/// The name a volume is listed under.
pub fn volume_label_of(volume: &str, id: &str, name: &str) -> (label: String)
    ensures
        label@ == volume_label(volume@, id@, name@),
{
    let mut label = String::from_str(volume);
    label.append("/");
    label.append(id);
    label.append("/");
    label.append(name);
    label
}

/// Where a client finds the volume again.
pub fn location_of(volume: &str, id: &str, name: &str) -> (path: String)
    ensures
        path@ == location(volume@, id@, name@),
{
    let mut path = String::from_str("/volumes/");
    path.append(volume);
    path.append("/");
    path.append(id);
    path.append("/");
    path.append(name);
    proof {
        assert(path@ =~= location(volume@, id@, name@));
    }
    path
}

/// What a client mounts: the volume's directory as exported by `host`.
pub fn export_path_of(host: &str, volume: &str, id: &str, name: &str) -> (path: String)
    ensures
        path@ == export_path(host@, volume@, id@, name@),
{
    let mut path = String::from_str(host);
    path.append(":/");
    path.append(volume);
    path.append("/");
    path.append(id);
    path.append("/");
    path.append(name);
    proof {
        assert(path@ =~= export_path(host@, volume@, id@, name@));
    }
    path
}

} // verus!
