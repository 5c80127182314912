use vstd::prelude::*;
use vstd::string::StringExecFns;

use crate::cache::CacheStore;
use crate::record::{Record, RecordView};
use crate::serial::{serialized, serialize_record, int_chars, render_int};

verus! {

/// Status of a success response.
pub const STATUS_OK: u16 = 200;

/// Status of a response for an identifier the backing store does not hold.
pub const STATUS_NOT_FOUND: u16 = 404;

/// Status of a response for a backing-store fault.
pub const STATUS_INTERNAL_ERROR: u16 = 500;

/// What the backing store answered for one identifier: the record, a
/// not-found signal, or any other failure.
#[derive(Clone, Debug)]
pub enum StoreReply {
    Found(Record),
    Missing,
    Fault,
}

/// The mathematical model of a backing-store answer.
pub enum ReplyView {
    Found(RecordView),
    Missing,
    Fault,
}

impl View for StoreReply {
    type V = ReplyView;

    open spec fn view(&self) -> ReplyView {
        match self {
            StoreReply::Found(r) => ReplyView::Found(r@),
            StoreReply::Missing => ReplyView::Missing,
            StoreReply::Fault => ReplyView::Fault,
        }
    }
}

/// The response produced for one lookup: a status code and a body.
#[derive(Clone, Debug)]
pub struct Response {
    pub status: u16,
    pub body: String,
}

/// The body of a not-found response, naming the missing identifier.
pub open spec fn not_found_body(id: int) -> Seq<char> {
    "User with ID "@ + int_chars(id) + " not found"@
}

/// The body of an internal-error response.
pub open spec fn internal_error_body() -> Seq<char> {
    "Internal server error"@
}

/// Whether a lookup of `id` against `cache` consults the backing store:
/// exactly when the cache has no entry for the identifier.
pub open spec fn consults_store(cache: Map<i32, Seq<char>>, id: i32) -> bool {
    !cache.contains_key(id)
}

/// What one whole lookup leaves behind: the response's status and body,
/// and the cache as the lookup leaves it.
pub struct LookupOutcome {
    pub status: int,
    pub body: Seq<char>,
    pub cache: Map<i32, Seq<char>>,
}

/// The cache-aside protocol for one lookup, as a mathematical function of
/// the cache, the identifier, and what the backing store would answer on a
/// miss. On a hit the stored value is served verbatim and the store is
/// never consulted; on a miss the reply decides: a record is serialized,
/// written back, and served; a not-found or a fault leaves the cache
/// untouched.
pub open spec fn lookup_outcome(cache: Map<i32, Seq<char>>, id: i32, reply: ReplyView) -> LookupOutcome {
    if cache.contains_key(id) {
        LookupOutcome { status: 200, body: cache[id], cache }
    } else {
        match reply {
            ReplyView::Found(r) => LookupOutcome {
                status: 200,
                body: serialized(r),
                cache: cache.insert(id, serialized(r)),
            },
            ReplyView::Missing => LookupOutcome {
                status: 404,
                body: not_found_body(id as int),
                cache,
            },
            ReplyView::Fault => LookupOutcome {
                status: 500,
                body: internal_error_body(),
                cache,
            },
        }
    }
}

/// Renders the body of a not-found response.
pub fn render_not_found(id: i32) -> (s: String)
    ensures
        s@ == not_found_body(id as int),
{
    let mut out = String::from_str("User with ID ");
    let id_text = render_int(id);
    out.append(id_text.as_str());
    out.append(" not found");
    proof {
        assert(out@ =~= not_found_body(id as int));
    }
    out
}

/// Renders the body of an internal-error response.
pub fn render_internal_error() -> (s: String)
    ensures
        s@ == internal_error_body(),
{
    String::from_str("Internal server error")
}

/// The first critical section of a lookup: probes the cache for the
/// identifier. A hit is the whole response, served verbatim from the
/// cache; a miss tells the caller to consult the backing store.
pub fn probe(cache: &CacheStore, id: i32) -> (r: Option<Response>)
    ensures
        match r {
            Some(resp) => {
                &&& cache@.contains_key(id)
                &&& resp.status == STATUS_OK
                &&& resp.body@ == cache@[id]
            },
            None => consults_store(cache@, id),
        },
{
    match cache.lookup(id) {
        Some(value) => Some(Response { status: STATUS_OK, body: value }),
        None => None,
    }
}

/// The rest of a lookup after a miss, once the backing store has answered.
/// A record is serialized to its canonical form, written back into the
/// cache in one atomic insert, and served; a not-found or a fault maps to
/// its response and leaves the cache exactly as it was. The cache write
/// is a second, independent critical section: if another lookup for the
/// same identifier populated the entry meanwhile, this write repeats the
/// identical value, so the entry never changes once written.
pub fn resolve_miss(cache: &mut CacheStore, id: i32, reply: StoreReply) -> (r: Response)
    requires
        reply matches StoreReply::Found(rec) ==> rec.id == id,
    ensures
        match reply@ {
            ReplyView::Found(rec) => {
                &&& r.status == STATUS_OK
                &&& r.body@ == serialized(rec)
                &&& final(cache)@ == old(cache)@.insert(id, serialized(rec))
            },
            ReplyView::Missing => {
                &&& r.status == STATUS_NOT_FOUND
                &&& r.body@ == not_found_body(id as int)
                &&& final(cache)@ == old(cache)@
            },
            ReplyView::Fault => {
                &&& r.status == STATUS_INTERNAL_ERROR
                &&& r.body@ == internal_error_body()
                &&& final(cache)@ == old(cache)@
            },
        },
        consults_store(old(cache)@, id) ==> ({
            let o = lookup_outcome(old(cache)@, id, reply@);
            &&& r.status as int == o.status
            &&& r.body@ == o.body
            &&& final(cache)@ == o.cache
        }),
{
    match reply {
        StoreReply::Found(rec) => {
            let body = serialize_record(&rec);
            cache.insert(id, body.clone());
            Response { status: STATUS_OK, body }
        },
        StoreReply::Missing => Response { status: STATUS_NOT_FOUND, body: render_not_found(id) },
        StoreReply::Fault => Response {
            status: STATUS_INTERNAL_ERROR,
            body: render_internal_error(),
        },
    }
}

} // verus!
