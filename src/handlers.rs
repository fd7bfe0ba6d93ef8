use vstd::prelude::*;
use vstd::string::*;
use crate::ids::{allocate_id, allocated};
use crate::store::{StoreError, WriteCommand, TTL_ABSENT};
use crate::ttl::{mode_of, resolve_ttl};

verus! {

/// HTTP status codes of the replies.
pub const STATUS_OK: u16 = 200;
pub const STATUS_CREATED: u16 = 201;
pub const STATUS_UNAUTHORIZED: u16 = 401;
pub const STATUS_NOT_FOUND: u16 = 404;
pub const STATUS_SERVER_ERROR: u16 = 500;

/// Settings fixed at startup and shared, read only, by every request.
#[derive(Clone, Debug)]
pub struct Config {
    pub admin_pin: String,
}

impl Config {
    pub fn new(admin_pin: String) -> (r: Config)
        ensures
            r.admin_pin@ == admin_pin@,
    {
        Config { admin_pin }
    }
}

/// A request to store a new paste.
#[derive(Clone, Debug)]
pub struct CreatePaste {
    pub content: String,
    pub filename: Option<String>,
    pub ttl: Option<i64>,
}

/// A request to overwrite, or create, the paste under a given id.
#[derive(Clone, Debug)]
pub struct UpdatePaste {
    pub id: String,
    pub content: String,
    pub ttl: Option<i64>,
}

/// One line of a listing: a live key and its remaining time-to-live.
#[derive(Clone, Debug)]
pub struct ListedPaste {
    pub id: String,
    pub ttl: i64,
}

/// The body of a reply.
#[derive(Clone, Debug)]
pub enum ReplyBody {
    /// Plain text.
    Text(String),
    /// A JSON object with a `success` flag, and an `id` or an `error` when given.
    Outcome { success: bool, id: Option<String>, error: Option<String> },
    /// A successful listing of the stored pastes.
    Listing(Vec<ListedPaste>),
}

/// A reply: a status code and a body.
#[derive(Clone, Debug)]
pub struct Reply {
    pub status: u16,
    pub body: ReplyBody,
}

/// The view of an optional string.
pub open spec fn opt_view(o: Option<String>) -> Option<Seq<char>> {
    match o {
        Some(s) => Some(s@),
        None => None,
    }
}

/// `r` is a plain text reply.
pub open spec fn is_text(r: Reply, status: u16, text: Seq<char>) -> bool {
    &&& r.status == status
    &&& r.body matches ReplyBody::Text(t) && t@ == text
}

/// `r` is a JSON outcome reply.
pub open spec fn is_outcome(
    r: Reply,
    status: u16,
    success: bool,
    id: Option<Seq<char>>,
    error: Option<Seq<char>>,
) -> bool {
    &&& r.status == status
    &&& r.body matches ReplyBody::Outcome { success: s, id: i, error: e } && s == success
        && opt_view(i) == id && opt_view(e) == error
}

/// `cmd` is the write that stores the paste of `req`.
pub open spec fn writes_created(req: CreatePaste, cmd: WriteCommand) -> bool {
    &&& allocated(req.filename, cmd.key@)
    &&& cmd.value@ == req.content@
    &&& cmd.mode == mode_of(req.ttl)
}

/// `cmd` is the write that stores the paste of `req`.
pub open spec fn writes_updated(req: UpdatePaste, cmd: WriteCommand) -> bool {
    &&& cmd.key@ == req.id@
    &&& cmd.value@ == req.content@
    &&& cmd.mode == mode_of(req.ttl)
}

/// The status of the reply to a fetch whose read succeeded: found or not found.
pub open spec fn fetch_status(found: Option<Seq<char>>) -> u16 {
    if found is Some {
        STATUS_OK
    } else {
        STATUS_NOT_FOUND
    }
}

/// The time-to-live that a listing shows, given what the query answered.
pub open spec fn listed_ttl(outcome: Result<i64, StoreError>) -> i64 {
    match outcome {
        Ok(t) => t,
        Err(_) => TTL_ABSENT,
    }
}

/// `files` lists `keys` in order, each with the time-to-live that its query
/// answered, or the absent marker where the query failed.
pub open spec fn lists(
    keys: Seq<String>,
    ttls: Seq<Result<i64, StoreError>>,
    files: Seq<ListedPaste>,
) -> bool {
    &&& files.len() == keys.len()
    &&& forall|i: int|
        0 <= i < keys.len() ==> (#[trigger] files[i]).id@ == keys[i]@ && files[i].ttl
            == listed_ttl(ttls[i])
}

/// The liveness message.
pub fn root_reply() -> (r: Reply)
    ensures
        is_text(r, STATUS_OK, "Pastebin Rust API is Running on Vercel!"@),
{
    Reply {
        status: STATUS_OK,
        body: ReplyBody::Text(String::from_str("Pastebin Rust API is Running on Vercel!")),
    }
}

/// The characters of a string, in order.
fn chars_of(s: &str) -> (r: Vec<char>)
    ensures
        r@ == s@,
{
    let mut v: Vec<char> = Vec::new();
    for c in it: s.chars()
        invariant
            v@ == it.seq().take(it.index() as int),
    {
        v.push(c);
    }
    assert(v@ =~= s@);
    v
}

/// Whether two PINs are equal. Strings of equal length are compared over
/// their whole length, so the time taken does not tell where they differ.
pub fn pins_match(a: &str, b: &str) -> (r: bool)
    ensures
        r == (a@ == b@),
{
    let ac = chars_of(a);
    let bc = chars_of(b);
    if ac.len() != bc.len() {
        return false;
    }
    // The differing bits of all characters, gathered without branching.
    let mut diff: u32 = 0;
    let mut i: usize = 0;
    while i < ac.len()
        invariant
            ac@ == a@,
            bc@ == b@,
            ac.len() == bc.len(),
            i <= ac.len(),
            (diff == 0) == (forall|j: int| 0 <= j < i ==> ac@[j] == bc@[j]),
        decreases ac.len() - i,
    {
        let differs: u32 = (ac[i] != bc[i]) as u32;
        assert(differs == 0 <==> ac@[i as int] == bc@[i as int]);
        let next: u32 = diff | differs;
        assert((next == 0) == (diff == 0 && differs == 0)) by (bit_vector)
            requires
                next == diff | differs,
        ;
        diff = next;
        i = i + 1;
    }
    if diff == 0 {
        assert(ac@ =~= bc@);
    }
    diff == 0
}

/// Checks a PIN against the configured admin secret.
pub fn verify_pin(config: &Config, pin: &String) -> (r: Reply)
    ensures
        pin@ == config.admin_pin@ ==> is_outcome(r, STATUS_OK, true, None, None),
        pin@ != config.admin_pin@ ==> is_outcome(
            r,
            STATUS_UNAUTHORIZED,
            false,
            None,
            Some("Invalid PIN"@),
        ),
{
    if pins_match(pin.as_str(), config.admin_pin.as_str()) {
        Reply {
            status: STATUS_OK,
            body: ReplyBody::Outcome { success: true, id: None, error: None },
        }
    } else {
        Reply {
            status: STATUS_UNAUTHORIZED,
            body: ReplyBody::Outcome {
                success: false,
                id: None,
                error: Some(String::from_str("Invalid PIN")),
            },
        }
    }
}

/// The reply when a create or an update cannot reach the store.
pub fn write_connect_failed(err: &StoreError) -> (r: Reply)
    ensures
        is_text(r, STATUS_SERVER_ERROR, "Redis Connect Error: "@ + err.message@),
{
    let text = String::from_str("Redis Connect Error: ").concat(err.message.as_str());
    Reply { status: STATUS_SERVER_ERROR, body: ReplyBody::Text(text) }
}

/// The reply when a fetch, a listing or a delete cannot reach the store.
pub fn connect_failed(err: &StoreError) -> (r: Reply)
    ensures
        is_text(r, STATUS_SERVER_ERROR, err.message@),
{
    Reply { status: STATUS_SERVER_ERROR, body: ReplyBody::Text(err.message.clone()) }
}

/// The write that stores a new paste: under its requested name when that is
/// not blank, else under a fresh token, permanent unless a positive
/// time-to-live is asked for.
pub fn plan_create(req: CreatePaste) -> (cmd: WriteCommand)
    ensures
        writes_created(req, cmd),
{
    let key = allocate_id(req.filename);
    let mode = resolve_ttl(req.ttl);
    WriteCommand { key, value: req.content, mode }
}

/// The reply to a create, given the key written and what the store answered.
pub fn create_reply(id: String, outcome: Result<(), StoreError>) -> (r: Reply)
    ensures
        outcome is Ok ==> is_outcome(r, STATUS_CREATED, true, Some(id@), None),
        outcome matches Err(e) ==> is_text(
            r,
            STATUS_SERVER_ERROR,
            "Redis Save Error: "@ + e.message@,
        ),
{
    match outcome {
        Ok(()) => Reply {
            status: STATUS_CREATED,
            body: ReplyBody::Outcome { success: true, id: Some(id), error: None },
        },
        Err(e) => {
            let text = String::from_str("Redis Save Error: ").concat(e.message.as_str());
            Reply { status: STATUS_SERVER_ERROR, body: ReplyBody::Text(text) }
        },
    }
}

/// The write that replaces, or creates, the paste under the requested id.
pub fn plan_update(req: UpdatePaste) -> (cmd: WriteCommand)
    ensures
        writes_updated(req, cmd),
{
    let mode = resolve_ttl(req.ttl);
    WriteCommand { key: req.id, value: req.content, mode }
}

/// The reply to an update, given the key written and what the store answered.
pub fn update_reply(id: String, outcome: Result<(), StoreError>) -> (r: Reply)
    ensures
        outcome is Ok ==> is_outcome(r, STATUS_OK, true, Some(id@), None),
        outcome matches Err(e) ==> is_text(
            r,
            STATUS_SERVER_ERROR,
            "Update Failed: "@ + e.message@,
        ),
{
    match outcome {
        Ok(()) => Reply {
            status: STATUS_OK,
            body: ReplyBody::Outcome { success: true, id: Some(id), error: None },
        },
        Err(e) => {
            let text = String::from_str("Update Failed: ").concat(e.message.as_str());
            Reply { status: STATUS_SERVER_ERROR, body: ReplyBody::Text(text) }
        },
    }
}

/// The reply to a fetch, given what the store answered to a read of the id:
/// the content, "not found" for a missing key, or a server error that carries
/// the store's message.
pub fn fetch_reply(outcome: Result<Option<String>, StoreError>) -> (r: Reply)
    ensures
        outcome matches Ok(Some(c)) ==> is_text(r, STATUS_OK, c@),
        outcome matches Ok(None) ==> is_text(r, STATUS_NOT_FOUND, "Paste not found"@),
        outcome matches Err(e) ==> is_text(r, STATUS_SERVER_ERROR, e.message@),
        outcome matches Ok(found) ==> r.status == fetch_status(opt_view(found)),
{
    match outcome {
        Ok(Some(content)) => Reply { status: STATUS_OK, body: ReplyBody::Text(content) },
        Ok(None) => Reply {
            status: STATUS_NOT_FOUND,
            body: ReplyBody::Text(String::from_str("Paste not found")),
        },
        Err(e) => Reply { status: STATUS_SERVER_ERROR, body: ReplyBody::Text(e.message) },
    }
}

/// The keys to list, given what the store answered to the key enumeration:
/// a failed enumeration lists nothing.
pub fn listing_keys(outcome: Result<Vec<String>, StoreError>) -> (keys: Vec<String>)
    ensures
        outcome matches Ok(k) ==> keys@ == k@,
        outcome is Err ==> keys@.len() == 0,
{
    match outcome {
        Ok(k) => k,
        Err(_) => Vec::new(),
    }
}

/// The listing reply, given the listed keys and what the store answered to
/// the time-to-live query of each, in the same order. A failed query shows
/// the absent marker for that key alone.
pub fn list_reply(keys: Vec<String>, ttls: Vec<Result<i64, StoreError>>) -> (r: Reply)
    requires
        keys.len() == ttls.len(),
    ensures
        r.status == STATUS_OK,
        r.body matches ReplyBody::Listing(files) && lists(keys@, ttls@, files@),
{
    let mut files: Vec<ListedPaste> = Vec::new();
    let mut i: usize = 0;
    while i < keys.len()
        invariant
            keys.len() == ttls.len(),
            i <= keys.len(),
            files.len() == i,
            forall|j: int|
                0 <= j < i ==> (#[trigger] files[j]).id@ == keys[j]@ && files[j].ttl
                    == listed_ttl(ttls[j]),
        decreases keys.len() - i,
    {
        let ttl = match &ttls[i] {
            Ok(t) => *t,
            Err(_) => TTL_ABSENT,
        };
        files.push(ListedPaste { id: keys[i].clone(), ttl });
        i = i + 1;
    }
    Reply { status: STATUS_OK, body: ReplyBody::Listing(files) }
}

/// The reply to a delete, given what the store answered. Deleting a key
/// that is not there is a success.
pub fn delete_reply(outcome: Result<(), StoreError>) -> (r: Reply)
    ensures
        outcome is Ok ==> is_outcome(r, STATUS_OK, true, None, None),
        outcome matches Err(e) ==> is_text(
            r,
            STATUS_SERVER_ERROR,
            "Delete failed: "@ + e.message@,
        ),
{
    match outcome {
        Ok(()) => Reply {
            status: STATUS_OK,
            body: ReplyBody::Outcome { success: true, id: None, error: None },
        },
        Err(e) => {
            let text = String::from_str("Delete failed: ").concat(e.message.as_str());
            Reply { status: STATUS_SERVER_ERROR, body: ReplyBody::Text(text) }
        },
    }
}

} // verus!
