//! The arithmetic of the cache table: when an entry expires, whether it is
//! still served, and when expired rows are purged.
use vstd::prelude::*;

use crate::cache_key::{key_id_text, key_type_text, CacheKey};

verus! {

/// A time in seconds as it is stored in the signed 64-bit `expires_at`
/// column: the two's-complement reading of the 64 bits (what `as i64` gives).
pub open spec fn stored(t: int) -> int {
    if t <= i64::MAX { t } else { t - 0x1_0000_0000_0000_0000 }
}

/// Whether an entry with the stored expiry `expires_at` is served at `now`.
pub open spec fn live_at(expires_at: int, now: u64) -> bool {
    expires_at > stored(now as int)
}

/// Whether a purge at `now` deletes an entry with the stored expiry `expires_at`.
pub open spec fn purged_at(expires_at: int, now: u64) -> bool {
    expires_at < stored(now as int)
}

/// A time in seconds in the form stored in the table.
pub fn stored_secs(t: u64) -> (r: i64)
    ensures
        r == stored(t as int),
{
    if t <= 0x7fff_ffff_ffff_ffff {
        t as i64
    } else {
        let above: u64 = t - 0x8000_0000_0000_0000;
        (above as i64) - 0x7fff_ffff_ffff_ffff - 1
    }
}

/// The stored expiry of an entry written at `now` (seconds since the epoch)
/// that lives `ttl_secs` seconds.
pub fn expires_at(now: u64, ttl_secs: u64) -> (r: i64)
    requires
        now + ttl_secs <= u64::MAX,
    ensures
        r == stored(now + ttl_secs),
{
    stored_secs(now + ttl_secs)
}

/// Whether an entry with the stored expiry `expires_at` is served at `now`:
/// only while its expiry lies after `now`.
pub fn is_live(expires_at: i64, now: u64) -> (r: bool)
    ensures
        r == live_at(expires_at as int, now),
{
    expires_at > stored_secs(now)
}

/// Whether a purge at `now` deletes an entry with the stored expiry
/// `expires_at`: only when its expiry lies before `now`.
pub fn is_purged(expires_at: i64, now: u64) -> (r: bool)
    ensures
        r == purged_at(expires_at as int, now),
{
    expires_at < stored_secs(now)
}

/// Whether the write with the given zero-based sequence number also purges
/// expired rows: every hundredth write, never the first.
pub fn purge_due_after_write(count: u64) -> (r: bool)
    ensures
        r == (count != 0 && count % 100 == 0),
{
    count != 0 && count % 100 == 0
}

/// Whether the read with the given zero-based sequence number also purges
/// expired rows: every thousandth read, never the first.
pub fn purge_due_after_read(count: u64) -> (r: bool)
    ensures
        r == (count != 0 && count % 1000 == 0),
{
    count != 0 && count % 1000 == 0
}

/// The key columns (`key_type`, `key_id`) of the row a key addresses.
pub open spec fn row_of(k: CacheKey) -> (Seq<char>, Seq<char>) {
    (key_type_text(k), key_id_text(k))
}

/// The cache table after `INSERT OR REPLACE` of `v` under `k` at `now` with a
/// time to live of `ttl` seconds.
pub open spec fn table_set<V>(t: Map<(Seq<char>, Seq<char>), (V, int)>, k: CacheKey, v: V, now: u64, ttl: u64) -> Map<(Seq<char>, Seq<char>), (V, int)> {
    t.insert(row_of(k), (v, stored(now + ttl)))
}

/// What a read of `k` at `now` answers: the stored value while its row is
/// live, else nothing.
pub open spec fn table_get<V>(t: Map<(Seq<char>, Seq<char>), (V, int)>, k: CacheKey, now: u64) -> Option<V> {
    if t.contains_key(row_of(k)) && live_at(t[row_of(k)].1, now) {
        Some(t[row_of(k)].0)
    } else {
        None
    }
}

/// The cache table after deleting the row of `k`.
pub open spec fn table_invalidate<V>(t: Map<(Seq<char>, Seq<char>), (V, int)>, k: CacheKey) -> Map<(Seq<char>, Seq<char>), (V, int)> {
    t.remove(row_of(k))
}

/// The cache table after deleting the rows of `keys`, in order.
pub open spec fn table_invalidate_all<V>(t: Map<(Seq<char>, Seq<char>), (V, int)>, keys: Seq<CacheKey>) -> Map<(Seq<char>, Seq<char>), (V, int)>
    decreases keys.len(),
{
    if keys.len() == 0 {
        t
    } else {
        table_invalidate(table_invalidate_all(t, keys.drop_last()), keys.last())
    }
}

/// The cache table after a purge at `now`: the rows whose expiry lies before
/// `now` are deleted.
pub open spec fn table_purge<V>(t: Map<(Seq<char>, Seq<char>), (V, int)>, now: u64) -> Map<(Seq<char>, Seq<char>), (V, int)> {
    t.restrict(t.dom().filter(|r: (Seq<char>, Seq<char>)| !purged_at(t[r].1, now)))
}

} // verus!
