//! The single-slot, time-limited cache of a tenant's signing keys, and the
//! handling of a key-set response.

use jsonwebtoken::jwk::JwkSet;
use vstd::prelude::*;

verus! {

#[verifier::external_type_specification]
#[verifier::external_body]
pub struct ExJwkSet(jsonwebtoken::jwk::JwkSet);

/// Relies on the derived `Clone` of `jsonwebtoken::jwk::JwkSet`: a copy of
/// every key.
pub assume_specification[ <jsonwebtoken::jwk::JwkSet as Clone>::clone ](keys: &JwkSet) -> (r: JwkSet)
    ensures
        r == *keys,
;

/// How long a fetched key set is served from the cache, in seconds.
pub const KEY_SET_TTL_SECS: u64 = 3600;

/// The key identifiers of a key set's keys, in order.
pub uninterp spec fn jwk_set_ids(keys: JwkSet) -> Seq<Option<Seq<char>>>;

/// Whether a response body is a well-formed key set.
pub uninterp spec fn key_set_parses(body: Seq<u8>) -> bool;

/// The key identifiers, in order, of the keys that a response body lists.
pub uninterp spec fn body_key_ids(body: Seq<u8>) -> Seq<Option<Seq<char>>>;

/// Relies on `serde_json::from_slice` into `jsonwebtoken::jwk::JwkSet`:
/// whether the body decodes, and the keys it then holds, depend on its bytes
/// alone.
#[verifier::external_body]
fn parse_key_set(body: &[u8]) -> (r: Option<JwkSet>)
    ensures
        r is Some == key_set_parses(body@),
        r matches Some(k) ==> jwk_set_ids(k) == body_key_ids(body@),
{
    serde_json::from_slice::<JwkSet>(body).ok()
}

/// Why a key set could not be had.
pub enum FetchError {
    /// The discovery endpoint answered with a non-success status.
    Status,
    /// The body was not a key set.
    Body,
}

/// The tenant-scoped discovery endpoint that publishes the tenant's keys.
pub open spec fn key_set_url_of(tenant_id: Seq<char>) -> Seq<char> {
    "https://login.microsoftonline.com/"@ + tenant_id + "/discovery/v2.0/keys"@
}

/// The address of `tenant_id`'s key set.
pub fn key_set_url(tenant_id: &str) -> (r: String)
    ensures
        r@ == key_set_url_of(tenant_id@),
{
    let mut r = String::from_str("https://login.microsoftonline.com/");
    r.append(tenant_id);
    r.append("/discovery/v2.0/keys");
    proof {
        reveal_strlit("https://login.microsoftonline.com/");
        reveal_strlit("/discovery/v2.0/keys");
    }
    r
}

/// Whether an HTTP status is a success (2xx).
pub open spec fn is_success(status: u16) -> bool {
    200 <= status < 300
}

/// Turns the answer of the discovery endpoint into a key set.
pub fn accept_key_response(status: u16, body: &[u8]) -> (r: Result<JwkSet, FetchError>)
    ensures
        !is_success(status) ==> r matches Err(FetchError::Status),
        is_success(status) && !key_set_parses(body@) ==> r matches Err(FetchError::Body),
        is_success(status) && key_set_parses(body@) ==> r is Ok,
        r matches Ok(k) ==> jwk_set_ids(k) == body_key_ids(body@),
{
    if status < 200 || status >= 300 {
        return Err(FetchError::Status);
    }
    match parse_key_set(body) {
        Some(keys) => Ok(keys),
        None => Err(FetchError::Body),
    }
}

/// The cache slot's contents.
pub struct CachedKeys {
    pub tenant_id: String,
    pub keys: JwkSet,
    /// Seconds on the process clock when the set was fetched.
    pub fetched_at: u64,
}

/// The mathematical value of the slot's contents.
pub struct SlotModel {
    pub tenant_id: Seq<char>,
    pub keys: JwkSet,
    pub fetched_at: u64,
}

/// Whether the slot answers a request for `tenant_id` at time `now`: same
/// tenant, and less than the time to live since the fetch.
pub open spec fn slot_serves(slot: Option<SlotModel>, tenant_id: Seq<char>, now: u64) -> bool {
    match slot {
        Some(s) => s.tenant_id == tenant_id && now - s.fetched_at < KEY_SET_TTL_SECS,
        None => false,
    }
}

/// The slot after a fetch of `keys` for `tenant_id` at time `now`.
pub open spec fn filled_slot(tenant_id: Seq<char>, keys: JwkSet, now: u64) -> Option<SlotModel> {
    Some(SlotModel { tenant_id, keys, fetched_at: now })
}

/// The number of upstream fetches that validations for `tenant_id` at the
/// successive times `times` make, starting from `slot`, when each fetch
/// returns `keys`.
pub open spec fn fetch_count(
    slot: Option<SlotModel>,
    tenant_id: Seq<char>,
    keys: JwkSet,
    times: Seq<u64>,
) -> nat
    decreases times.len(),
{
    if times.len() == 0 {
        0
    } else if slot_serves(slot, tenant_id, times[0]) {
        fetch_count(slot, tenant_id, keys, times.drop_first())
    } else {
        1 + fetch_count(filled_slot(tenant_id, keys, times[0]), tenant_id, keys, times.drop_first())
    }
}

/// What a validation does for its key set.
pub enum KeyStep {
    /// Use the cached set.
    Cached { keys: JwkSet },
    /// Fetch the set from this address.
    Fetch { url: String },
}

/// One key set at a time, for one tenant, kept for the time to live.
pub struct KeySetCache {
    slot: Option<CachedKeys>,
}

impl View for KeySetCache {
    type V = Option<SlotModel>;

    closed spec fn view(&self) -> Option<SlotModel> {
        match self.slot {
            Some(c) => Some(SlotModel { tenant_id: c.tenant_id@, keys: c.keys, fetched_at: c.fetched_at }),
            None => None,
        }
    }
}

impl KeySetCache {
    /// An empty cache.
    pub fn new() -> (r: Self)
        ensures
            r@ is None,
    {
        KeySetCache { slot: None }
    }

    /// The cached key set, when it serves `tenant_id` at `now`.
    pub fn lookup(&self, tenant_id: &str, now: u64) -> (r: Option<&JwkSet>)
        ensures
            r is Some == slot_serves(self@, tenant_id@, now),
            r is Some ==> *r->0 == self@->0.keys,
    {
        match &self.slot {
            Some(c) => {
                let tenant = String::from_str(tenant_id);
                if c.tenant_id == tenant && (now < c.fetched_at || now - c.fetched_at
                    < KEY_SET_TTL_SECS) {
                    Some(&c.keys)
                } else {
                    None
                }
            },
            None => None,
        }
    }

    /// The key-set step of a validation for `tenant_id` at `now`: the cached
    /// set when the slot serves it, else a fetch from the tenant's address.
    pub fn next_step(&self, tenant_id: &str, now: u64) -> (r: KeyStep)
        ensures
            slot_serves(self@, tenant_id@, now) ==> (r matches KeyStep::Cached { keys } && keys
                == self@->0.keys),
            !slot_serves(self@, tenant_id@, now) ==> (r matches KeyStep::Fetch { url } && url@
                == key_set_url_of(tenant_id@)),
    {
        match self.lookup(tenant_id, now) {
            Some(keys) => KeyStep::Cached { keys: keys.clone() },
            None => KeyStep::Fetch { url: key_set_url(tenant_id) },
        }
    }

    /// Takes the answer of a fetch for `tenant_id` made at `now`: a key set
    /// fills the slot and is returned; on an error the slot is left as it was.
    pub fn record_fetch(&mut self, tenant_id: &str, now: u64, status: u16, body: &[u8]) -> (r: Result<
        JwkSet,
        FetchError,
    >)
        ensures
            !is_success(status) ==> r matches Err(FetchError::Status),
            is_success(status) && !key_set_parses(body@) ==> r matches Err(FetchError::Body),
            is_success(status) && key_set_parses(body@) ==> r is Ok,
            r matches Ok(k) ==> (jwk_set_ids(k) == body_key_ids(body@) && final(self)@ == filled_slot(
                tenant_id@,
                k,
                now,
            )),
            r is Err ==> final(self)@ == old(self)@,
    {
        match accept_key_response(status, body) {
            Ok(keys) => {
                let kept = keys.clone();
                self.store(tenant_id, kept, now);
                Ok(keys)
            },
            Err(e) => Err(e),
        }
    }

    /// Replaces the slot with a key set just fetched for `tenant_id`.
    pub fn store(&mut self, tenant_id: &str, keys: JwkSet, now: u64)
        ensures
            final(self)@ == filled_slot(tenant_id@, keys, now),
    {
        self.slot = Some(CachedKeys { tenant_id: String::from_str(tenant_id), keys, fetched_at: now });
    }
}

/// Two validations for one tenant within the time to live make one upstream
/// fetch between them, and a validation once the time to live has elapsed
/// makes exactly one more.
pub proof fn lemma_one_fetch_per_window(
    slot: Option<SlotModel>,
    tenant_id: Seq<char>,
    keys: JwkSet,
    t0: u64,
    t1: u64,
    t2: u64,
)
    requires
        !slot_serves(slot, tenant_id, t0),
        t0 <= t1,
        t1 - t0 < KEY_SET_TTL_SECS,
        t2 - t0 >= KEY_SET_TTL_SECS,
    ensures
        fetch_count(slot, tenant_id, keys, seq![t0, t1]) == 1,
        fetch_count(slot, tenant_id, keys, seq![t0, t1, t2]) == 2,
{
    let s1 = filled_slot(tenant_id, keys, t0);
    let s2 = filled_slot(tenant_id, keys, t2);
    assert(seq![t0, t1].drop_first() =~= seq![t1]);
    assert(seq![t1].drop_first() =~= Seq::<u64>::empty());
    assert(seq![t0, t1, t2].drop_first() =~= seq![t1, t2]);
    assert(seq![t1, t2].drop_first() =~= seq![t2]);
    assert(seq![t2].drop_first() =~= Seq::<u64>::empty());
    assert(fetch_count(s1, tenant_id, keys, Seq::<u64>::empty()) == 0);
    assert(slot_serves(s1, tenant_id, t1));
    assert(fetch_count(s1, tenant_id, keys, seq![t1]) == 0);
    assert(fetch_count(s2, tenant_id, keys, Seq::<u64>::empty()) == 0);
    assert(!slot_serves(s1, tenant_id, t2));
    assert(fetch_count(s1, tenant_id, keys, seq![t2]) == 1);
    assert(fetch_count(s1, tenant_id, keys, seq![t1, t2]) == 1);
}

} // verus!
