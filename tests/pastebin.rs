use std::collections::HashMap;

use pastebin::config::{resolve_admin_pin, resolve_store_url};
use pastebin::handlers::{
    create_reply, delete_reply, fetch_reply, list_reply, listing_keys, plan_create, plan_update,
    root_reply, update_reply, verify_pin, pins_match, write_connect_failed, connect_failed, Config,
    CreatePaste, ListedPaste, Reply, ReplyBody, UpdatePaste, STATUS_CREATED, STATUS_NOT_FOUND,
    STATUS_OK, STATUS_SERVER_ERROR, STATUS_UNAUTHORIZED,
};
use pastebin::ids::{allocate_id, fresh_token, is_blank, short_token};
use pastebin::store::{StoreError, WriteCommand, TTL_ABSENT, TTL_PERMANENT};
use pastebin::ttl::{resolve_ttl, WriteMode};

/// A store kept in memory with a clock of its own, for running the handlers'
/// decisions end to end: key -> (content, absolute expiry time).
struct FakeStore {
    now: u64,
    entries: HashMap<String, (String, Option<u64>)>,
}

impl FakeStore {
    fn new() -> FakeStore {
        FakeStore { now: 0, entries: HashMap::new() }
    }

    fn expire(&mut self) {
        let now = self.now;
        self.entries.retain(|_, v| match v.1 {
            Some(at) => now < at,
            None => true,
        });
    }

    fn write(&mut self, cmd: &WriteCommand) -> Result<(), StoreError> {
        let expiry = match cmd.mode {
            WriteMode::Permanent => None,
            WriteMode::Expiring(s) => Some(self.now + s),
        };
        self.entries.insert(cmd.key.clone(), (cmd.value.clone(), expiry));
        Ok(())
    }

    fn get(&mut self, key: &str) -> Result<Option<String>, StoreError> {
        self.expire();
        Ok(self.entries.get(key).map(|v| v.0.clone()))
    }

    fn del(&mut self, key: &str) -> Result<(), StoreError> {
        self.expire();
        self.entries.remove(key);
        Ok(())
    }

    fn keys(&mut self) -> Result<Vec<String>, StoreError> {
        self.expire();
        let mut k: Vec<String> = self.entries.keys().cloned().collect();
        k.sort();
        Ok(k)
    }

    fn ttl(&mut self, key: &str) -> Result<i64, StoreError> {
        self.expire();
        Ok(match self.entries.get(key) {
            None => TTL_ABSENT,
            Some((_, None)) => TTL_PERMANENT,
            Some((_, Some(at))) => (*at - self.now) as i64,
        })
    }

    fn list(&mut self) -> Reply {
        let keys = listing_keys(self.keys());
        let ttls: Vec<Result<i64, StoreError>> = keys.iter().map(|k| self.ttl(k)).collect();
        list_reply(keys, ttls)
    }
}

fn text_of(r: &Reply) -> String {
    match &r.body {
        ReplyBody::Text(t) => t.clone(),
        other => panic!("not a text reply: {:?}", other),
    }
}

fn outcome_of(r: &Reply) -> (bool, Option<String>, Option<String>) {
    match &r.body {
        ReplyBody::Outcome { success, id, error } => (*success, id.clone(), error.clone()),
        other => panic!("not an outcome reply: {:?}", other),
    }
}

fn files_of(r: &Reply) -> Vec<ListedPaste> {
    match &r.body {
        ReplyBody::Listing(f) => f.clone(),
        other => panic!("not a listing: {:?}", other),
    }
}

fn create(store: &mut FakeStore, content: &str, filename: Option<&str>, ttl: Option<i64>) -> Reply {
    let cmd = plan_create(CreatePaste {
        content: content.to_string(),
        filename: filename.map(|f| f.to_string()),
        ttl,
    });
    let outcome = store.write(&cmd);
    create_reply(cmd.key, outcome)
}

fn is_token(s: &str) -> bool {
    s.chars().count() == 8 && s.chars().all(|c| c.is_ascii_digit() || ('a'..='f').contains(&c))
}

fn err(msg: &str) -> StoreError {
    StoreError { message: msg.to_string() }
}

#[test]
fn ttl_absent_or_non_positive_is_permanent() {
    assert_eq!(resolve_ttl(None), WriteMode::Permanent);
    assert_eq!(resolve_ttl(Some(0)), WriteMode::Permanent);
    assert_eq!(resolve_ttl(Some(-1)), WriteMode::Permanent);
    assert_eq!(resolve_ttl(Some(i64::MIN)), WriteMode::Permanent);
}

#[test]
fn ttl_positive_expires() {
    assert_eq!(resolve_ttl(Some(1)), WriteMode::Expiring(1));
    assert_eq!(resolve_ttl(Some(5)), WriteMode::Expiring(5));
    assert_eq!(resolve_ttl(Some(i64::MAX)), WriteMode::Expiring(i64::MAX as u64));
}

#[test]
fn blank_names() {
    assert!(is_blank(""));
    assert!(is_blank("   "));
    assert!(is_blank(" \t\n\r"));
    assert!(is_blank("\u{a0}\u{3000}"));
    assert!(!is_blank("a"));
    assert!(!is_blank("  note1  "));
}

#[test]
fn blank_follows_white_space_list() {
    for c in [
        '\u{9}', '\u{a}', '\u{b}', '\u{c}', '\u{d}', ' ', '\u{85}', '\u{a0}', '\u{1680}',
        '\u{2000}', '\u{2005}', '\u{200a}', '\u{2028}', '\u{2029}', '\u{202f}', '\u{205f}',
        '\u{3000}',
    ] {
        assert!(is_blank(&c.to_string()), "{:?} is white space", c);
    }
    for c in ['\u{8}', '\u{e}', '\u{1f}', '\u{180e}', '\u{200b}', '\u{2060}', '\u{feff}', 'x'] {
        assert!(!is_blank(&c.to_string()), "{:?} is not white space", c);
    }
}

#[test]
fn named_id_is_kept_verbatim() {
    assert_eq!(allocate_id(Some("note1".to_string())), "note1");
    assert_eq!(allocate_id(Some("  padded ".to_string())), "  padded ");
    assert_eq!(allocate_id(Some("line\nbreak".to_string())), "line\nbreak");
}

#[test]
fn unnamed_id_is_a_token() {
    assert!(is_token(&allocate_id(None)));
    assert!(is_token(&allocate_id(Some(String::new()))));
    assert!(is_token(&allocate_id(Some("  \t ".to_string()))));
}

#[test]
fn fresh_tokens_differ() {
    let a = fresh_token();
    let b = fresh_token();
    assert!(is_token(&a));
    assert!(is_token(&b));
    assert_ne!(a, b);
}

#[test]
fn short_token_takes_the_head() {
    assert_eq!(short_token("936da01f-9abd-4d9d-80c7-02af85c822a8"), "936da01f");
}

#[test]
fn plan_create_named_permanent() {
    let cmd = plan_create(CreatePaste {
        content: "hello".to_string(),
        filename: Some("note1".to_string()),
        ttl: None,
    });
    assert_eq!(cmd.key, "note1");
    assert_eq!(cmd.value, "hello");
    assert_eq!(cmd.mode, WriteMode::Permanent);
}

#[test]
fn plan_create_unnamed_expiring() {
    let cmd = plan_create(CreatePaste { content: "x".to_string(), filename: None, ttl: Some(5) });
    assert!(is_token(&cmd.key));
    assert_eq!(cmd.value, "x");
    assert_eq!(cmd.mode, WriteMode::Expiring(5));
}

#[test]
fn plan_update_keeps_id() {
    let cmd = plan_update(UpdatePaste {
        id: "abc".to_string(),
        content: "new".to_string(),
        ttl: Some(-3),
    });
    assert_eq!(cmd.key, "abc");
    assert_eq!(cmd.value, "new");
    assert_eq!(cmd.mode, WriteMode::Permanent);
}

#[test]
fn create_then_fetch_named() {
    let mut store = FakeStore::new();
    let r = create(&mut store, "hello", Some("note1"), None);
    assert_eq!(r.status, STATUS_CREATED);
    assert_eq!(outcome_of(&r), (true, Some("note1".to_string()), None));
    let f = fetch_reply(store.get("note1"));
    assert_eq!(f.status, STATUS_OK);
    assert_eq!(text_of(&f), "hello");
}

#[test]
fn expiring_paste_lifecycle() {
    let mut store = FakeStore::new();
    let r = create(&mut store, "x", None, Some(5));
    let (_, id, _) = outcome_of(&r);
    let id = id.unwrap();
    assert_eq!(text_of(&fetch_reply(store.get(&id))), "x");
    let files = files_of(&store.list());
    assert_eq!(files.len(), 1);
    assert_eq!(files[0].id, id);
    assert!(files[0].ttl > 0 && files[0].ttl <= 5);
    store.now += 6;
    let f = fetch_reply(store.get(&id));
    assert_eq!(f.status, STATUS_NOT_FOUND);
    assert_eq!(text_of(&f), "Paste not found");
}

#[test]
fn permanent_paste_reports_permanent() {
    let mut store = FakeStore::new();
    create(&mut store, "a", Some("p0"), Some(0));
    create(&mut store, "b", Some("p1"), Some(-7));
    create(&mut store, "c", Some("p2"), None);
    store.now += 1_000_000;
    let files = files_of(&store.list());
    assert_eq!(files.len(), 3);
    for f in &files {
        assert_eq!(f.ttl, TTL_PERMANENT);
    }
}

#[test]
fn round_trip_keeps_content() {
    let mut store = FakeStore::new();
    for content in ["", "multi\nline\ntext\n", "  spaced  ", "ünïcödé ✓"] {
        let r = create(&mut store, content, None, None);
        let id = outcome_of(&r).1.unwrap();
        assert_eq!(text_of(&fetch_reply(store.get(&id))), content);
    }
}

#[test]
fn delete_is_idempotent() {
    let mut store = FakeStore::new();
    create(&mut store, "gone", Some("d"), None);
    let first = delete_reply(store.del("d"));
    assert_eq!(first.status, STATUS_OK);
    assert_eq!(outcome_of(&first), (true, None, None));
    let second = delete_reply(store.del("d"));
    assert_eq!(second.status, STATUS_OK);
    assert_eq!(outcome_of(&second), (true, None, None));
    let never = delete_reply(store.del("never-existed"));
    assert_eq!(never.status, STATUS_OK);
    assert_eq!(fetch_reply(store.get("d")).status, STATUS_NOT_FOUND);
}

#[test]
fn update_is_an_upsert() {
    let mut store = FakeStore::new();
    let cmd = plan_update(UpdatePaste { id: "fresh".to_string(), content: "v1".to_string(), ttl: None });
    let r = update_reply(cmd.key.clone(), store.write(&cmd));
    assert_eq!(r.status, STATUS_OK);
    assert_eq!(outcome_of(&r), (true, Some("fresh".to_string()), None));
    assert_eq!(text_of(&fetch_reply(store.get("fresh"))), "v1");
}

#[test]
fn update_replaces_expiry() {
    let mut store = FakeStore::new();
    create(&mut store, "v1", Some("k"), Some(10));
    let cmd = plan_update(UpdatePaste { id: "k".to_string(), content: "v2".to_string(), ttl: None });
    store.write(&cmd).unwrap();
    assert_eq!(store.ttl("k").unwrap(), TTL_PERMANENT);
    store.now += 20;
    assert_eq!(text_of(&fetch_reply(store.get("k"))), "v2");
}

#[test]
fn verify_wrong_pin_is_unauthorized() {
    let config = Config::new("0000".to_string());
    let r = verify_pin(&config, &"wrong".to_string());
    assert_eq!(r.status, STATUS_UNAUTHORIZED);
    assert_eq!(outcome_of(&r), (false, None, Some("Invalid PIN".to_string())));
}

#[test]
fn verify_right_pin() {
    let config = Config::new("0000".to_string());
    let r = verify_pin(&config, &"0000".to_string());
    assert_eq!(r.status, STATUS_OK);
    assert_eq!(outcome_of(&r), (true, None, None));
}

#[test]
fn store_errors_are_server_errors() {
    let r = create_reply("id".to_string(), Err(err("boom")));
    assert_eq!(r.status, STATUS_SERVER_ERROR);
    assert_eq!(text_of(&r), "Redis Save Error: boom");
    let r = update_reply("id".to_string(), Err(err("boom")));
    assert_eq!(r.status, STATUS_SERVER_ERROR);
    assert_eq!(text_of(&r), "Update Failed: boom");
    let r = delete_reply(Err(err("boom")));
    assert_eq!(r.status, STATUS_SERVER_ERROR);
    assert_eq!(text_of(&r), "Delete failed: boom");
    let r = write_connect_failed(&err("refused"));
    assert_eq!(r.status, STATUS_SERVER_ERROR);
    assert_eq!(text_of(&r), "Redis Connect Error: refused");
    let r = connect_failed(&err("refused"));
    assert_eq!(r.status, STATUS_SERVER_ERROR);
    assert_eq!(text_of(&r), "refused");
}

#[test]
fn fetch_store_error_is_server_error() {
    let r = fetch_reply(Err(err("connection reset")));
    assert_eq!(r.status, STATUS_SERVER_ERROR);
    assert_eq!(text_of(&r), "connection reset");
}

#[test]
fn fetch_missing_is_not_found() {
    let r = fetch_reply(Ok(None));
    assert_eq!(r.status, STATUS_NOT_FOUND);
    assert_eq!(text_of(&r), "Paste not found");
}

#[test]
fn create_blank_name_gets_token() {
    let mut store = FakeStore::new();
    let r = create(&mut store, "c", Some("   "), None);
    assert_eq!(r.status, STATUS_CREATED);
    let (success, id, error) = outcome_of(&r);
    assert!(success);
    assert_eq!(error, None);
    let id = id.unwrap();
    assert_ne!(id, "   ");
    assert_eq!(id.len(), 8);
    assert!(is_token(&id));
    assert_eq!(text_of(&fetch_reply(store.get(&id))), "c");
}

#[test]
fn pins_compare_exactly() {
    assert!(pins_match("0000", "0000"));
    assert!(pins_match("", ""));
    assert!(pins_match("pïn✓", "pïn✓"));
    assert!(!pins_match("0000", "0001"));
    assert!(!pins_match("1000", "0000"));
    assert!(!pins_match("000", "0000"));
    assert!(!pins_match("0000", ""));
}

#[test]
fn listing_survives_failures() {
    assert!(listing_keys(Err(err("down"))).is_empty());
    let keys = listing_keys(Ok(vec!["a".to_string(), "b".to_string(), "c".to_string()]));
    let r = list_reply(keys, vec![Ok(-1), Err(err("timeout")), Ok(42)]);
    assert_eq!(r.status, STATUS_OK);
    let files = files_of(&r);
    assert_eq!(files.len(), 3);
    assert_eq!((files[0].id.as_str(), files[0].ttl), ("a", -1));
    assert_eq!((files[1].id.as_str(), files[1].ttl), ("b", TTL_ABSENT));
    assert_eq!((files[2].id.as_str(), files[2].ttl), ("c", 42));
    let empty = list_reply(Vec::new(), Vec::new());
    assert_eq!(files_of(&empty).len(), 0);
}

#[test]
fn root_is_alive() {
    let r = root_reply();
    assert_eq!(r.status, STATUS_OK);
    assert_eq!(text_of(&r), "Pastebin Rust API is Running on Vercel!");
}

#[test]
fn configuration_fallbacks() {
    assert_eq!(resolve_store_url(Some("redis://a/".to_string()), Some("redis://b/".to_string())), "redis://a/");
    assert_eq!(resolve_store_url(None, Some("redis://b/".to_string())), "redis://b/");
    assert_eq!(resolve_store_url(None, None), "redis://127.0.0.1/");
    assert_eq!(resolve_admin_pin(Some("1234".to_string())), "1234");
    assert_eq!(resolve_admin_pin(None), "0000");
}
