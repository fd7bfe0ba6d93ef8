use vstd::prelude::*;
use crate::handlers::{
    fetch_status, lists, writes_created, writes_updated, CreatePaste, ListedPaste, UpdatePaste,
    STATUS_NOT_FOUND, STATUS_OK,
};
use crate::ids::{blank, token_text};
use crate::store::{
    after_delete, after_elapsed, after_write, expiry_of, read, remaining_ttl, StoreState, Stored,
    StoreError, WriteCommand, TTL_PERMANENT,
};

verus! {

/// A paste created under a name that is not blank is stored under exactly
/// that name.
pub proof fn lemma_named_create(req: CreatePaste, cmd: WriteCommand)
    requires
        writes_created(req, cmd),
        req.filename is Some,
        !blank(req.filename->Some_0@),
    ensures
        cmd.key@ == req.filename->Some_0@,
{
}

/// A paste created with no name, or a blank one, is stored under a minted
/// token of eight lowercase hex digits.
pub proof fn lemma_unnamed_create(req: CreatePaste, cmd: WriteCommand)
    requires
        writes_created(req, cmd),
        req.filename is None || blank(req.filename->Some_0@),
    ensures
        token_text(cmd.key@),
        cmd.key@.len() == 8,
{
}

/// A paste created with no time-to-live, or one that is not positive, is
/// reported permanent and is still there however much time goes by.
pub proof fn lemma_permanent_create(s: StoreState, req: CreatePaste, cmd: WriteCommand, secs: nat)
    requires
        writes_created(req, cmd),
        req.ttl is None || req.ttl->Some_0 <= 0,
    ensures
        remaining_ttl(after_write(s, cmd), cmd.key@) == TTL_PERMANENT,
        read(after_elapsed(after_write(s, cmd), secs), cmd.key@) == Some(req.content@),
{
}

/// A paste created with a positive time-to-live `t` reports between 1 and
/// `t` seconds left, and can be fetched, until `t` seconds have gone by;
/// from then on a fetch finds nothing.
pub proof fn lemma_expiring_create(
    s: StoreState,
    req: CreatePaste,
    cmd: WriteCommand,
    t: i64,
    secs: nat,
)
    requires
        writes_created(req, cmd),
        req.ttl == Some(t),
        t > 0,
    ensures
        remaining_ttl(after_write(s, cmd), cmd.key@) == t,
        secs < t ==> 0 < remaining_ttl(after_elapsed(after_write(s, cmd), secs), cmd.key@) <= t,
        secs < t ==> read(after_elapsed(after_write(s, cmd), secs), cmd.key@) == Some(
            req.content@,
        ),
        secs >= t ==> read(after_elapsed(after_write(s, cmd), secs), cmd.key@) is None,
        secs >= t ==> fetch_status(read(after_elapsed(after_write(s, cmd), secs), cmd.key@))
            == STATUS_NOT_FOUND,
{
}

/// The store answered the time-to-live query of the `i`-th listed key
/// truthfully, from state `s`.
pub open spec fn answered(
    s: StoreState,
    keys: Seq<String>,
    ttls: Seq<Result<i64, StoreError>>,
    i: int,
) -> bool {
    ttls[i] matches Ok(v) && v as int == remaining_ttl(s, keys[i]@)
}

/// A listing taken after a create with no time-to-live, or one that is not
/// positive, shows the permanent marker for the created key, however much
/// time has gone by.
pub proof fn lemma_listing_permanent(
    s: StoreState,
    req: CreatePaste,
    cmd: WriteCommand,
    secs: nat,
    keys: Seq<String>,
    ttls: Seq<Result<i64, StoreError>>,
    files: Seq<ListedPaste>,
    i: int,
)
    requires
        writes_created(req, cmd),
        req.ttl is None || req.ttl->Some_0 <= 0,
        lists(keys, ttls, files),
        0 <= i < keys.len(),
        keys[i]@ == cmd.key@,
        answered(after_elapsed(after_write(s, cmd), secs), keys, ttls, i),
    ensures
        files[i].id@ == cmd.key@,
        files[i].ttl == TTL_PERMANENT,
{
}

/// A listing taken fewer than `t` seconds after a create with a positive
/// time-to-live `t` shows between 1 and `t` seconds left for the created key.
pub proof fn lemma_listing_expiring(
    s: StoreState,
    req: CreatePaste,
    cmd: WriteCommand,
    t: i64,
    secs: nat,
    keys: Seq<String>,
    ttls: Seq<Result<i64, StoreError>>,
    files: Seq<ListedPaste>,
    i: int,
)
    requires
        writes_created(req, cmd),
        req.ttl == Some(t),
        t > 0,
        secs < t,
        lists(keys, ttls, files),
        0 <= i < keys.len(),
        keys[i]@ == cmd.key@,
        answered(after_elapsed(after_write(s, cmd), secs), keys, ttls, i),
    ensures
        files[i].id@ == cmd.key@,
        0 < files[i].ttl <= t,
{
}

/// What a create stores is read back exactly, whatever the content.
pub proof fn lemma_create_round_trip(s: StoreState, req: CreatePaste, cmd: WriteCommand)
    requires
        writes_created(req, cmd),
    ensures
        read(after_write(s, cmd), cmd.key@) == Some(req.content@),
        fetch_status(read(after_write(s, cmd), cmd.key@)) == STATUS_OK,
{
}

/// Deleting is idempotent: a second delete changes nothing, a delete of an
/// absent key leaves the store as it was, and afterwards a fetch finds nothing.
pub proof fn lemma_delete_idempotent(s: StoreState, key: Seq<char>)
    ensures
        after_delete(after_delete(s, key), key) == after_delete(s, key),
        !s.contains_key(key) ==> after_delete(s, key) == s,
        read(after_delete(s, key), key) is None,
{
    assert(after_delete(after_delete(s, key), key) =~= after_delete(s, key));
    if !s.contains_key(key) {
        assert(after_delete(s, key) =~= s);
    }
}

/// An update is an upsert: on an id that holds nothing yet it stores the
/// content, which is then read back exactly.
pub proof fn lemma_update_upsert(s: StoreState, req: UpdatePaste, cmd: WriteCommand)
    requires
        writes_updated(req, cmd),
        !s.contains_key(req.id@),
    ensures
        cmd.key@ == req.id@,
        read(after_write(s, cmd), req.id@) == Some(req.content@),
{
}

/// A write replaces the content and the expiry of its key entirely, and
/// leaves every other key as it was.
pub proof fn lemma_write_replaces(s: StoreState, cmd: WriteCommand, other: Seq<char>)
    requires
        other != cmd.key@,
    ensures
        after_write(s, cmd)[cmd.key@] == (Stored { value: cmd.value@, expires_in: expiry_of(cmd.mode) }),
        after_write(s, cmd).contains_key(other) == s.contains_key(other),
        s.contains_key(other) ==> after_write(s, cmd)[other] == s[other],
{
}

} // verus!
