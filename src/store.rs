use vstd::prelude::*;
use crate::ttl::WriteMode;

verus! {

/// What the store reports as the remaining time-to-live of a key that holds
/// no expiry.
pub const TTL_PERMANENT: i64 = -1;

/// What the store reports as the remaining time-to-live of an absent key, and
/// what a listing shows for a key whose query failed.
pub const TTL_ABSENT: i64 = -2;

/// A failure reported by the key-value store or by the connection to it.
#[derive(Clone, Debug)]
pub struct StoreError {
    pub message: String,
}

/// A write of one paste to the store: `value` under `key`, in the given mode.
/// It replaces whatever the key held before, content and expiry alike.
#[derive(Clone, Debug)]
pub struct WriteCommand {
    pub key: String,
    pub value: String,
    pub mode: WriteMode,
}

/// What the store holds under one key: the content and, for an expiring
/// paste, the seconds left before it is removed.
pub struct Stored {
    pub value: Seq<char>,
    pub expires_in: Option<nat>,
}

/// The store as the library relies on it: a map from key to what is stored.
pub type StoreState = Map<Seq<char>, Stored>;

/// The expiry that a write mode gives a stored value.
pub open spec fn expiry_of(mode: WriteMode) -> Option<nat> {
    match mode {
        WriteMode::Permanent => None,
        WriteMode::Expiring(s) => Some(s as nat),
    }
}

/// The store after a write command.
pub open spec fn after_write(s: StoreState, cmd: WriteCommand) -> StoreState {
    s.insert(cmd.key@, Stored { value: cmd.value@, expires_in: expiry_of(cmd.mode) })
}

/// The store after a delete of `key`; absent keys are no error.
pub open spec fn after_delete(s: StoreState, key: Seq<char>) -> StoreState {
    s.remove(key)
}

/// What a read of `key` returns: the content, or nothing when the key is absent.
pub open spec fn read(s: StoreState, key: Seq<char>) -> Option<Seq<char>> {
    if s.contains_key(key) {
        Some(s[key].value)
    } else {
        None
    }
}

/// What a time-to-live query of `key` reports: the seconds left, the
/// permanent marker, or the absent marker.
pub open spec fn remaining_ttl(s: StoreState, key: Seq<char>) -> int {
    if !s.contains_key(key) {
        TTL_ABSENT as int
    } else {
        match s[key].expires_in {
            None => TTL_PERMANENT as int,
            Some(n) => n as int,
        }
    }
}

/// Whether a stored value is still there `secs` seconds later.
pub open spec fn survives(v: Stored, secs: nat) -> bool {
    match v.expires_in {
        None => true,
        Some(n) => secs < n,
    }
}

/// A stored value `secs` seconds later, when it survives that long.
pub open spec fn aged(v: Stored, secs: nat) -> Stored {
    match v.expires_in {
        None => v,
        Some(n) => Stored { value: v.value, expires_in: Some((n - secs) as nat) },
    }
}

/// The store once `secs` seconds have gone by: expired values are gone and
/// the others have that much less time left.
pub open spec fn after_elapsed(s: StoreState, secs: nat) -> StoreState {
    Map::new(
        |k: Seq<char>| s.contains_key(k) && survives(s[k], secs),
        |k: Seq<char>| aged(s[k], secs),
    )
}

} // verus!
