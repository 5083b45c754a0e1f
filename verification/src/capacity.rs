//! Capacity: sizes in gigabytes towards the client, quotas in bytes towards
//! the store.

use vstd::prelude::*;
use vstd::string::*;
use crate::error::{Error, ErrorKind, ErrorView};
use crate::names::{quota_path, quota_path_of};

verus! {

/// The bytes in one gigabyte, as sizes are counted here.
pub const BYTES_PER_GIGABYTE: u64 = 1073741824;

/// A quota as the store lists it: a limit in bytes on a path.
#[derive(Clone, Debug, PartialEq, Eq)]
pub struct QuotaEntry {
    pub path: String,
    pub limit_bytes: u64,
}

/// What a `QuotaEntry` is in contracts.
pub struct QuotaView {
    pub path: Seq<char>,
    pub limit_bytes: u64,
}

impl View for QuotaEntry {
    type V = QuotaView;

    open spec fn view(&self) -> QuotaView {
        QuotaView { path: self.path@, limit_bytes: self.limit_bytes }
    }
}

/// The limit that `quotas` assigns to `path`, if it assigns one. Where
/// several entries name the path, the last one is the one in force.
pub open spec fn assigned_limit(quotas: Seq<QuotaView>, path: Seq<char>) -> Option<u64>
    decreases quotas.len(),
{
    if quotas.len() == 0 {
        None
    } else if quotas.last().path == path {
        Some(quotas.last().limit_bytes)
    } else {
        assigned_limit(quotas.drop_last(), path)
    }
}

/// The size of volume `id` in whole gigabytes: its limit, rounded down, and
/// zero where no quota is assigned.
pub open spec fn quota_gigabytes(quotas: Seq<QuotaView>, id: Seq<char>) -> u64 {
    match assigned_limit(quotas, quota_path(id)) {
        Some(limit) => (limit / BYTES_PER_GIGABYTE) as u64,
        None => 0,
    }
}

/// The views of the entries of a quota listing.
pub open spec fn quota_views(quotas: Seq<QuotaEntry>) -> Seq<QuotaView> {
    Seq::new(quotas.len(), |i: int| quotas[i]@)
}

/// `gigabytes` in bytes, where that fits in 64 bits.
pub fn bytes_from_gigabytes(gigabytes: u64) -> (bytes: Option<u64>)
    ensures
        match bytes {
            Some(b) => b == gigabytes * BYTES_PER_GIGABYTE,
            None => gigabytes * BYTES_PER_GIGABYTE > u64::MAX,
        },
{
    gigabytes.checked_mul(BYTES_PER_GIGABYTE)
}

/// `bytes` in whole gigabytes, rounded down.
pub fn gigabytes_from_bytes(bytes: u64) -> (gigabytes: u64)
    ensures
        gigabytes == bytes / BYTES_PER_GIGABYTE,
{
    bytes / BYTES_PER_GIGABYTE
}

/// The limit in force on `path`.
pub fn find_limit(quotas: &Vec<QuotaEntry>, path: &str) -> (limit: Option<u64>)
    ensures
        limit == assigned_limit(quota_views(quotas@), path@),
{
    let mut limit: Option<u64> = None;
    let mut i: usize = 0;
    while i < quotas.len()
        invariant
            i <= quotas.len(),
            limit == assigned_limit(quota_views(quotas@).take(i as int), path@),
        decreases quotas.len() - i,
    {
        proof {
            let next = quota_views(quotas@).take(i + 1);
            assert(next.drop_last() == quota_views(quotas@).take(i as int));
            assert(next.last() == quotas[i as int]@);
        }
        if quotas[i].path.as_str().eq(path) {
            limit = Some(quotas[i].limit_bytes);
        }
        i += 1;
    }
    proof {
        assert(quota_views(quotas@).take(quotas.len() as int) == quota_views(quotas@));
    }
    limit
}

/// The size of volume `id` in whole gigabytes; zero where it has no quota.
pub fn current_quota(quotas: &Vec<QuotaEntry>, id: &str) -> (gigabytes: u64)
    ensures
        gigabytes == quota_gigabytes(quota_views(quotas@), id@),
{
    let path = quota_path_of(id);
    match find_limit(quotas, path.as_str()) {
        Some(limit) => gigabytes_from_bytes(limit),
        None => 0,
    }
}

/// What a limit of `current` bytes grows to when `gigabytes` are added, if
/// the sum can be represented.
pub open spec fn grown_limit(current: u64, gigabytes: u64) -> Option<u64> {
    if current + gigabytes * BYTES_PER_GIGABYTE <= u64::MAX {
        Some((current + gigabytes * BYTES_PER_GIGABYTE) as u64)
    } else {
        None
    }
}

/// The message of the failure that a size beyond 64 bits of bytes gives.
pub open spec fn size_message() -> Seq<char> {
    "The size in bytes does not fit in 64 bits"@
}

/// The limit after growing `current` by `gigabytes`.
pub fn expanded_limit(current: u64, gigabytes: u64) -> (limit: Result<u64, Error>)
    ensures
        match limit {
            Ok(bytes) => grown_limit(current, gigabytes) == Some(bytes) && bytes >= current,
            Err(e) => grown_limit(current, gigabytes) is None && e@ == (ErrorView {
                kind: ErrorKind::InvalidArgument,
                message: size_message(),
            }),
        },
{
    let sum = match bytes_from_gigabytes(gigabytes) {
        Some(delta) => current.checked_add(delta),
        None => None,
    };
    match sum {
        Some(bytes) => Ok(bytes),
        None => Err(
            Error::new(ErrorKind::InvalidArgument, "The size in bytes does not fit in 64 bits"),
        ),
    }
}

} // verus!
