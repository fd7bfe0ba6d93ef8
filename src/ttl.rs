use vstd::prelude::*;

verus! {

/// How a paste is written to the store.
#[derive(Clone, Copy, Debug, PartialEq, Eq, Structural)]
pub enum WriteMode {
    /// Stored with no expiry.
    Permanent,
    /// Stored with an expiry of the given number of seconds from the write.
    Expiring(u64),
}

/// The write mode that a requested time-to-live asks for: an absent or
/// non-positive value means a permanent paste.
pub open spec fn mode_of(ttl: Option<i64>) -> WriteMode {
    match ttl {
        Some(t) if t > 0 => WriteMode::Expiring(t as u64),
        _ => WriteMode::Permanent,
    }
}

/// Decides the store write mode for an optional time-to-live in seconds.
pub fn resolve_ttl(ttl: Option<i64>) -> (r: WriteMode)
    ensures
        r == mode_of(ttl),
        r matches WriteMode::Expiring(s) ==> ttl == Some(s as i64) && s > 0,
{
    match ttl {
        Some(t) if t > 0 => WriteMode::Expiring(t as u64),
        _ => WriteMode::Permanent,
    }
}

} // verus!
