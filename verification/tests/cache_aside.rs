use user_cache::cache::CacheStore;
use user_cache::handler::{probe, resolve_miss, Response, StoreReply};
use user_cache::record::Record;
use user_cache::serial::serialize_record;

fn record(id: i32, name: &str, email: &str) -> Record {
    Record { id, name: name.to_string(), email: email.to_string() }
}

/// A test double for the backing store: a fixed set of records, a fault
/// switch, and a counter of how many times it was consulted.
struct FakeStore {
    records: Vec<Record>,
    faulty: bool,
    calls: usize,
}

impl FakeStore {
    fn new(records: Vec<Record>) -> FakeStore {
        FakeStore { records, faulty: false, calls: 0 }
    }

    fn fetch(&mut self, id: i32) -> StoreReply {
        self.calls += 1;
        if self.faulty {
            return StoreReply::Fault;
        }
        for r in &self.records {
            if r.id == id {
                return StoreReply::Found(r.clone());
            }
        }
        StoreReply::Missing
    }
}

/// One whole lookup, as the service runs it: probe the cache, and only on
/// a miss consult the store and resolve.
fn lookup(cache: &mut CacheStore, store: &mut FakeStore, id: i32) -> Response {
    if let Some(resp) = probe(cache, id) {
        return resp;
    }
    let reply = store.fetch(id);
    if let StoreReply::Found(ref r) = reply {
        assert!(r.id == id, "store handed back a record for the wrong identifier");
    }
    resolve_miss(cache, id, reply)
}

#[test]
fn serialize_basic() {
    let r = record(7, "Ada", "ada@example.org");
    let s = serialize_record(&r);
    assert_eq!(s, "{\"id\":7,\"name\":\"Ada\",\"email\":\"ada@example.org\"}");
}

#[test]
fn serialize_id_zero() {
    let r = record(0, "x", "y");
    let s = serialize_record(&r);
    assert_eq!(s, "{\"id\":0,\"name\":\"x\",\"email\":\"y\"}");
}

#[test]
fn serialize_id_extremes() {
    let max = record(i32::MAX, "a", "b");
    assert_eq!(serialize_record(&max), "{\"id\":2147483647,\"name\":\"a\",\"email\":\"b\"}");
    let min = record(i32::MIN, "a", "b");
    assert_eq!(serialize_record(&min), "{\"id\":-2147483648,\"name\":\"a\",\"email\":\"b\"}");
}

#[test]
fn serialize_escapes() {
    let r = record(1, "A\"B\\C", "x\ny\tz\r");
    let s = serialize_record(&r);
    assert_eq!(s, "{\"id\":1,\"name\":\"A\\\"B\\\\C\",\"email\":\"x\\ny\\tz\\r\"}");
}

#[test]
fn serialize_control_characters() {
    let r = record(2, "\u{8}\u{c}", "\u{1}\u{1f}");
    let s = serialize_record(&r);
    assert_eq!(s, "{\"id\":2,\"name\":\"\\b\\f\",\"email\":\"\\u0001\\u001f\"}");
}

#[test]
fn serialize_unicode_passthrough() {
    let r = record(3, "Åda", "åda@exämple.org");
    let s = serialize_record(&r);
    assert_eq!(s, "{\"id\":3,\"name\":\"Åda\",\"email\":\"åda@exämple.org\"}");
}

#[test]
fn serialize_empty_fields() {
    let r = record(4, "", "");
    let s = serialize_record(&r);
    assert_eq!(s, "{\"id\":4,\"name\":\"\",\"email\":\"\"}");
}

#[test]
fn cache_starts_empty() {
    let cache = CacheStore::new();
    assert_eq!(cache.len(), 0);
    assert!(!cache.contains(7));
    assert!(cache.lookup(7).is_none());
}

#[test]
fn cache_insert_then_lookup() {
    let mut cache = CacheStore::new();
    cache.insert(7, "value".to_string());
    assert_eq!(cache.len(), 1);
    assert!(cache.contains(7));
    assert_eq!(cache.lookup(7), Some("value".to_string()));
    assert!(cache.lookup(8).is_none());
}

#[test]
fn cache_repeated_insert_keeps_one_entry() {
    let mut cache = CacheStore::new();
    cache.insert(7, "value".to_string());
    cache.insert(7, "value".to_string());
    assert_eq!(cache.len(), 1);
    assert_eq!(cache.lookup(7), Some("value".to_string()));
}

#[test]
fn probe_misses_on_empty_cache() {
    let cache = CacheStore::new();
    assert!(probe(&cache, 7).is_none());
}

#[test]
fn probe_hits_after_insert() {
    let mut cache = CacheStore::new();
    cache.insert(7, "stored".to_string());
    let resp = probe(&cache, 7).expect("entry must be served");
    assert_eq!(resp.status, 200);
    assert_eq!(resp.body, "stored");
}

#[test]
fn resolve_miss_found_populates() {
    let mut cache = CacheStore::new();
    let r = record(7, "Ada", "ada@example.org");
    let resp = resolve_miss(&mut cache, 7, StoreReply::Found(r.clone()));
    assert_eq!(resp.status, 200);
    assert_eq!(resp.body, serialize_record(&r));
    assert_eq!(cache.lookup(7), Some(serialize_record(&r)));
    assert_eq!(cache.len(), 1);
}

#[test]
fn resolve_miss_missing_is_not_cached() {
    let mut cache = CacheStore::new();
    let resp = resolve_miss(&mut cache, 99, StoreReply::Missing);
    assert_eq!(resp.status, 404);
    assert_eq!(resp.body, "User with ID 99 not found");
    assert_eq!(cache.len(), 0);
}

#[test]
fn resolve_miss_fault_is_not_cached() {
    let mut cache = CacheStore::new();
    let resp = resolve_miss(&mut cache, 7, StoreReply::Fault);
    assert_eq!(resp.status, 500);
    assert_eq!(resp.body, "Internal server error");
    assert_eq!(cache.len(), 0);
}

#[test]
fn idempotent_population() {
    // Two lookups race on one identifier: both miss, both consult the
    // store, both write back. The cache ends with one entry holding the
    // canonical serialization.
    let r = record(7, "Ada", "ada@example.org");
    let mut cache = CacheStore::new();
    let first = resolve_miss(&mut cache, 7, StoreReply::Found(r.clone()));
    let second = resolve_miss(&mut cache, 7, StoreReply::Found(r.clone()));
    assert_eq!(first.status, 200);
    assert_eq!(second.status, 200);
    assert_eq!(first.body, second.body);
    assert_eq!(cache.len(), 1);
    assert_eq!(cache.lookup(7), Some(serialize_record(&r)));
}

#[test]
fn cache_precedence_over_altered_store() {
    // Once an entry exists, lookups serve it unchanged even after the
    // backing store's record is altered: intended staleness, not a bug.
    let mut store = FakeStore::new(vec![record(7, "Ada", "ada@example.org")]);
    let mut cache = CacheStore::new();
    let before = lookup(&mut cache, &mut store, 7);
    assert_eq!(before.status, 200);
    store.records[0] = record(7, "Grace", "grace@example.org");
    let after = lookup(&mut cache, &mut store, 7);
    assert_eq!(after.status, 200);
    assert_eq!(after.body, before.body);
    assert_eq!(store.calls, 1);
}

#[test]
fn miss_then_hit_consults_store_once() {
    let r = record(7, "Ada", "ada@example.org");
    let mut store = FakeStore::new(vec![r.clone()]);
    let mut cache = CacheStore::new();
    let first = lookup(&mut cache, &mut store, 7);
    assert_eq!(first.status, 200);
    assert_eq!(first.body, serialize_record(&r));
    assert_eq!(cache.len(), 1);
    assert_eq!(store.calls, 1);
    let second = lookup(&mut cache, &mut store, 7);
    assert_eq!(second.status, 200);
    assert_eq!(second.body, first.body);
    assert_eq!(cache.len(), 1);
    assert_eq!(store.calls, 1);
}

#[test]
fn not_found_is_not_cached() {
    let mut store = FakeStore::new(vec![]);
    let mut cache = CacheStore::new();
    let first = lookup(&mut cache, &mut store, 42);
    let second = lookup(&mut cache, &mut store, 42);
    assert_eq!(first.status, 404);
    assert_eq!(second.status, 404);
    assert_eq!(first.body, "User with ID 42 not found");
    assert_eq!(second.body, first.body);
    assert_eq!(store.calls, 2);
    assert_eq!(cache.len(), 0);
}

#[test]
fn store_fault_leaves_cache_unchanged() {
    let mut store = FakeStore::new(vec![]);
    store.faulty = true;
    let mut cache = CacheStore::new();
    let resp = lookup(&mut cache, &mut store, 7);
    assert_eq!(resp.status, 500);
    assert_eq!(resp.body, "Internal server error");
    assert_eq!(cache.len(), 0);
}

#[test]
fn store_fault_keeps_earlier_entry() {
    let r = record(7, "Ada", "ada@example.org");
    let mut store = FakeStore::new(vec![r.clone()]);
    let mut cache = CacheStore::new();
    assert_eq!(lookup(&mut cache, &mut store, 7).status, 200);
    store.faulty = true;
    let resp = lookup(&mut cache, &mut store, 8);
    assert_eq!(resp.status, 500);
    assert_eq!(cache.len(), 1);
    assert_eq!(cache.lookup(7), Some(serialize_record(&r)));
    // The entry that predates the fault is still served.
    let hit = lookup(&mut cache, &mut store, 7);
    assert_eq!(hit.status, 200);
    assert_eq!(hit.body, serialize_record(&r));
}

#[test]
fn concrete_scenario() {
    let ada = record(7, "Ada", "ada@example.org");
    let mut store = FakeStore::new(vec![ada.clone()]);
    let mut cache = CacheStore::new();

    let first = lookup(&mut cache, &mut store, 7);
    assert_eq!(first.status, 200);
    assert_eq!(first.body, "{\"id\":7,\"name\":\"Ada\",\"email\":\"ada@example.org\"}");
    assert!(cache.contains(7));
    assert_eq!(cache.lookup(7), Some(first.body.clone()));

    let calls_before = store.calls;
    let second = lookup(&mut cache, &mut store, 7);
    assert_eq!(second.status, 200);
    assert_eq!(second.body, first.body);
    assert_eq!(store.calls, calls_before);

    let absent = lookup(&mut cache, &mut store, 99);
    assert_eq!(absent.status, 404);
    assert_eq!(absent.body, "User with ID 99 not found");
    assert_eq!(cache.len(), 1);
    assert!(cache.contains(7));
    assert!(!cache.contains(99));
}
