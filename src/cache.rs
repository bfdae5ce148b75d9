use vstd::prelude::*;

verus! {

/// How long a resolved record stays fresh: 60 days, in seconds.
pub const CACHE_TTL_SECONDS: i64 = 60 * 24 * 60 * 60;

/// One stored resolution. Times are Unix timestamps in seconds. The name cache keeps the
/// player identifier in `value` and leaves `signature` empty.
#[derive(Debug, Clone, PartialEq, Eq)]
pub struct CacheRecord {
    pub key: String,
    pub signature: String,
    pub value: String,
    pub expires_at: i64,
}

impl CacheRecord {
    pub fn duplicate(&self) -> (r: Self)
        ensures
            r == *self,
    {
        CacheRecord {
            key: self.key.clone(),
            signature: self.signature.clone(),
            value: self.value.clone(),
            expires_at: self.expires_at,
        }
    }
}

/// A stored binding from a player name to the player's identifier, fresh strictly before
/// `exp` (a Unix timestamp in seconds).
#[derive(Debug, Clone, PartialEq, Eq)]
pub struct Player {
    pub uuid: String,
    pub exp: i64,
}

/// What a read of the records for one key finds.
#[derive(Debug, Clone, PartialEq, Eq)]
pub enum Lookup {
    /// The most recent record is still fresh.
    Hit(CacheRecord),
    /// The most recent record has expired: the key's stale records are to be deleted.
    Expired,
    /// No record for the key.
    Miss,
}

/// A record is fresh strictly before its expiry instant.
pub open spec fn is_live(r: CacheRecord, now: i64) -> bool {
    now < r.expires_at
}

/// The most recent (last stored) record for `key`.
pub open spec fn latest(rows: Seq<CacheRecord>, key: Seq<char>) -> Option<CacheRecord>
    decreases rows.len(),
{
    if rows.len() == 0 {
        None
    } else if rows.last().key@ == key {
        Some(rows.last())
    } else {
        latest(rows.drop_last(), key)
    }
}

pub open spec fn lookup_of(rows: Seq<CacheRecord>, key: Seq<char>, now: i64) -> Lookup {
    match latest(rows, key) {
        None => Lookup::Miss,
        Some(r) => if is_live(r, now) {
            Lookup::Hit(r)
        } else {
            Lookup::Expired
        },
    }
}

/// The records whose key is not `key`, in their order.
pub open spec fn without(rows: Seq<CacheRecord>, key: Seq<char>) -> Seq<CacheRecord>
    decreases rows.len(),
{
    if rows.len() == 0 {
        rows
    } else if rows.last().key@ == key {
        without(rows.drop_last(), key)
    } else {
        without(rows.drop_last(), key).push(rows.last())
    }
}

/// How many records are stored for `key`.
pub open spec fn count_for(rows: Seq<CacheRecord>, key: Seq<char>) -> nat
    decreases rows.len(),
{
    if rows.len() == 0 {
        0
    } else {
        count_for(rows.drop_last(), key) + (if rows.last().key@ == key {
            1nat
        } else {
            0nat
        })
    }
}

pub open spec fn hit_of(l: Lookup) -> Option<CacheRecord> {
    match l {
        Lookup::Hit(r) => Some(r),
        _ => None,
    }
}

/// A record of `key` whose expiry instant has been reached at `now`.
pub open spec fn is_stale_for(r: CacheRecord, key: Seq<char>, now: i64) -> bool {
    r.key@ == key && !is_live(r, now)
}

/// The records that are not stale records of `key` at `now`, in their order.
pub open spec fn without_stale(rows: Seq<CacheRecord>, key: Seq<char>, now: i64) -> Seq<CacheRecord>
    decreases rows.len(),
{
    if rows.len() == 0 {
        rows
    } else if is_stale_for(rows.last(), key, now) {
        without_stale(rows.drop_last(), key, now)
    } else {
        without_stale(rows.drop_last(), key, now).push(rows.last())
    }
}

/// The stored records after a read at `now`: when the key's most recent record has expired,
/// the key's stale records are deleted; live records are never touched.
pub open spec fn after_get(rows: Seq<CacheRecord>, key: Seq<char>, now: i64) -> Seq<CacheRecord> {
    if lookup_of(rows, key, now) is Expired {
        without_stale(rows, key, now)
    } else {
        rows
    }
}

/// The stored records after an upsert of `rec`.
pub open spec fn after_put(rows: Seq<CacheRecord>, rec: CacheRecord) -> Seq<CacheRecord> {
    without(rows, rec.key@).push(rec)
}

/// Whether a record written at `now` with lifetime `ttl` has an expiry that fits an `i64`.
pub open spec fn expiry_fits(now: i64, ttl: i64) -> bool {
    i64::MIN <= now + ttl <= i64::MAX
}

/// The expiry instant of a record written at `now` with lifetime `ttl`.
pub fn expiry_after(now: i64, ttl: i64) -> (r: i64)
    requires
        expiry_fits(now, ttl),
    ensures
        r == now + ttl,
{
    now + ttl
}

/// Reads the records stored for `key`: the most recent one decides. Rows fetched from a store
/// by key, or all rows of a table, may be given alike.
pub fn lookup(rows: &Vec<CacheRecord>, key: &String, now: i64) -> (r: Lookup)
    ensures
        r == lookup_of(rows@, key@, now),
{
    let mut i: usize = rows.len();
    assert(rows@.subrange(0, i as int) =~= rows@);
    while i > 0
        invariant
            i <= rows.len(),
            latest(rows@, key@) == latest(rows@.subrange(0, i as int), key@),
        decreases i,
    {
        let ghost prefix = rows@.subrange(0, i as int);
        assert(prefix.drop_last() =~= rows@.subrange(0, i - 1));
        assert(prefix.last() == rows@[i - 1]);
        if rows[i - 1].key == *key {
            if now < rows[i - 1].expires_at {
                return Lookup::Hit(rows[i - 1].duplicate());
            } else {
                return Lookup::Expired;
            }
        }
        i = i - 1;
    }
    Lookup::Miss
}

/// Copies the records whose key is not `key`.
pub fn records_without(rows: &Vec<CacheRecord>, key: &String) -> (r: Vec<CacheRecord>)
    ensures
        r@ == without(rows@, key@),
{
    let mut out: Vec<CacheRecord> = Vec::new();
    let mut i: usize = 0;
    while i < rows.len()
        invariant
            i <= rows.len(),
            out@ == without(rows@.subrange(0, i as int), key@),
        decreases rows.len() - i,
    {
        let ghost next = rows@.subrange(0, i + 1);
        assert(next.drop_last() =~= rows@.subrange(0, i as int));
        assert(next.last() == rows@[i as int]);
        if rows[i].key != *key {
            out.push(rows[i].duplicate());
        }
        i = i + 1;
    }
    assert(rows@.subrange(0, rows.len() as int) =~= rows@);
    out
}

/// Copies the records that are not stale records of `key` at `now`.
pub fn records_without_stale(rows: &Vec<CacheRecord>, key: &String, now: i64) -> (r: Vec<CacheRecord>)
    ensures
        r@ == without_stale(rows@, key@, now),
{
    let mut out: Vec<CacheRecord> = Vec::new();
    let mut i: usize = 0;
    while i < rows.len()
        invariant
            i <= rows.len(),
            out@ == without_stale(rows@.subrange(0, i as int), key@, now),
        decreases rows.len() - i,
    {
        let ghost next = rows@.subrange(0, i + 1);
        assert(next.drop_last() =~= rows@.subrange(0, i as int));
        assert(next.last() == rows@[i as int]);
        if rows[i].key != *key || now < rows[i].expires_at {
            out.push(rows[i].duplicate());
        }
        i = i + 1;
    }
    assert(rows@.subrange(0, rows.len() as int) =~= rows@);
    out
}

/// A time-bounded cache of resolved records, one record per key, expired lazily on read.
pub struct CacheTable {
    rows: Vec<CacheRecord>,
    ttl: i64,
}

impl CacheTable {
    /// The stored records, oldest write first.
    pub closed spec fn rows(&self) -> Seq<CacheRecord> {
        self.rows@
    }

    /// The lifetime, in seconds, given to each record written.
    pub closed spec fn ttl(&self) -> i64 {
        self.ttl
    }

    /// An empty cache whose records live `ttl` seconds.
    pub fn new(ttl: i64) -> (r: Self)
        ensures
            r.rows() == Seq::<CacheRecord>::empty(),
            r.ttl() == ttl,
    {
        CacheTable { rows: Vec::new(), ttl }
    }

    pub fn ttl_seconds(&self) -> (r: i64)
        ensures
            r == self.ttl(),
    {
        self.ttl
    }

    /// The number of stored records.
    pub fn len(&self) -> (r: usize)
        ensures
            r == self.rows().len(),
    {
        self.rows.len()
    }

    /// The fresh record for `key` at `now`, if any. When the key's most recent record has
    /// expired, the key's stale records are deleted on the way.
    pub fn get(&mut self, key: &String, now: i64) -> (r: Option<CacheRecord>)
        ensures
            r == hit_of(lookup_of(old(self).rows(), key@, now)),
            final(self).rows() == after_get(old(self).rows(), key@, now),
            final(self).ttl() == old(self).ttl(),
    {
        match lookup(&self.rows, key, now) {
            Lookup::Hit(rec) => Some(rec),
            Lookup::Expired => {
                self.evict(key, now);
                None
            },
            Lookup::Miss => None,
        }
    }

    /// Stores `signature` and `value` under `key`, replacing whatever was stored for it; the
    /// record expires `ttl` seconds after `now`.
    pub fn put(&mut self, key: String, signature: String, value: String, now: i64)
        requires
            expiry_fits(now, old(self).ttl()),
        ensures
            final(self).rows() == after_put(
                old(self).rows(),
                CacheRecord { key, signature, value, expires_at: (now + old(self).ttl()) as i64 },
            ),
            final(self).ttl() == old(self).ttl(),
    {
        let expires_at = expiry_after(now, self.ttl);
        self.remove(&key);
        self.rows.push(CacheRecord { key, signature, value, expires_at });
    }

    /// Deletes the records of `key` that are stale at `now`.
    pub fn evict(&mut self, key: &String, now: i64)
        ensures
            final(self).rows() == without_stale(old(self).rows(), key@, now),
            final(self).ttl() == old(self).ttl(),
    {
        self.rows = records_without_stale(&self.rows, key, now);
    }

    /// Deletes every record stored for `key`.
    pub fn remove(&mut self, key: &String)
        ensures
            final(self).rows() == without(old(self).rows(), key@),
            final(self).ttl() == old(self).ttl(),
    {
        self.rows = records_without(&self.rows, key);
    }
}

proof fn lemma_without_has_none(rows: Seq<CacheRecord>, key: Seq<char>)
    ensures
        latest(without(rows, key), key) is None,
        count_for(without(rows, key), key) == 0,
    decreases rows.len(),
{
    if rows.len() > 0 {
        lemma_without_has_none(rows.drop_last(), key);
        let rest = without(rows.drop_last(), key);
        if rows.last().key@ != key {
            assert(rest.push(rows.last()).drop_last() =~= rest);
        }
    }
}

proof fn lemma_without_stale_keeps_none(rows: Seq<CacheRecord>, key: Seq<char>, now: i64)
    requires
        latest(rows, key) is None,
    ensures
        latest(without_stale(rows, key, now), key) is None,
    decreases rows.len(),
{
    if rows.len() > 0 {
        lemma_without_stale_keeps_none(rows.drop_last(), key, now);
        let rest = without_stale(rows.drop_last(), key, now);
        if !is_stale_for(rows.last(), key, now) {
            assert(rest.push(rows.last()).drop_last() =~= rest);
        }
    }
}

/// A read deletes only stale records: after a read of `key` at `now`, every stored record
/// that is not a record of `key` whose expiry has been reached is still there, and nothing
/// has been added.
pub proof fn lemma_read_deletes_only_stale(rows: Seq<CacheRecord>, key: Seq<char>, now: i64)
    ensures
        forall|r: CacheRecord|
            rows.contains(r) && !is_stale_for(r, key, now) ==> #[trigger] after_get(
                rows,
                key,
                now,
            ).contains(r),
        forall|r: CacheRecord| #[trigger] after_get(rows, key, now).contains(r) ==> rows.contains(r),
{
    lemma_without_stale_contains(rows, key, now);
}

proof fn lemma_without_stale_contains(rows: Seq<CacheRecord>, key: Seq<char>, now: i64)
    ensures
        forall|r: CacheRecord| #[trigger]
            without_stale(rows, key, now).contains(r) <==> (rows.contains(r) && !is_stale_for(
                r,
                key,
                now,
            )),
    decreases rows.len(),
{
    if rows.len() > 0 {
        let front = rows.drop_last();
        let last = rows.last();
        lemma_without_stale_contains(front, key, now);
        assert(rows =~= front.push(last));
        let rest = without_stale(front, key, now);
        assert forall|r: CacheRecord| rows.contains(r) <==> (front.contains(r) || r == last) by {
            if rows.contains(r) {
                let i = choose|i: int| 0 <= i < rows.len() && rows[i] == r;
                if i < rows.len() - 1 {
                    assert(front[i] == r);
                }
            }
            if front.contains(r) {
                let i = choose|i: int| 0 <= i < front.len() && front[i] == r;
                assert(rows[i] == r);
            }
            if r == last {
                assert(rows[rows.len() - 1] == r);
            }
        }
        if !is_stale_for(last, key, now) {
            assert forall|r: CacheRecord| rest.push(last).contains(r) <==> (rest.contains(r)
                || r == last) by {
                if rest.push(last).contains(r) {
                    let i = choose|i: int| 0 <= i < rest.push(last).len() && rest.push(last)[i] == r;
                    if i < rest.len() {
                        assert(rest[i] == r);
                    }
                }
                if rest.contains(r) {
                    let i = choose|i: int| 0 <= i < rest.len() && rest[i] == r;
                    assert(rest.push(last)[i] == r);
                }
                if r == last {
                    assert(rest.push(last)[rest.len() as int] == r);
                }
            }
        }
        assert forall|r: CacheRecord| #[trigger]
            without_stale(rows, key, now).contains(r) <==> (rows.contains(r) && !is_stale_for(
                r,
                key,
                now,
            )) by {
            assert(rest.contains(r) <==> (front.contains(r) && !is_stale_for(r, key, now)));
        }
    }
}

proof fn lemma_put_then_latest(rows: Seq<CacheRecord>, rec: CacheRecord)
    ensures
        latest(after_put(rows, rec), rec.key@) == Some(rec),
        count_for(after_put(rows, rec), rec.key@) == 1,
{
    let base = without(rows, rec.key@);
    lemma_without_has_none(rows, rec.key@);
    assert(base.push(rec).drop_last() =~= base);
}

/// Expiry: a record written at `write_time` with lifetime `ttl` is what a read finds at any
/// `now < write_time + ttl`; at any `now >= write_time + ttl` the read reports it expired,
/// deletes it, and no later read finds anything for the key.
pub proof fn lemma_ttl_expiry(
    rows: Seq<CacheRecord>,
    key: String,
    signature: String,
    value: String,
    write_time: i64,
    ttl: i64,
    now: i64,
    later: i64,
)
    requires
        expiry_fits(write_time, ttl),
    ensures
        ({
            let rec = CacheRecord {
                key,
                signature,
                value,
                expires_at: (write_time + ttl) as i64,
            };
            let stored = after_put(rows, rec);
            &&& now < write_time + ttl ==> lookup_of(stored, key@, now) == Lookup::Hit(rec)
            &&& now < write_time + ttl ==> after_get(stored, key@, now) == stored
            &&& now >= write_time + ttl ==> lookup_of(stored, key@, now) == Lookup::Expired
            &&& now >= write_time + ttl ==> lookup_of(after_get(stored, key@, now), key@, later)
                == Lookup::Miss
        }),
{
    let rec = CacheRecord { key, signature, value, expires_at: (write_time + ttl) as i64 };
    let stored = after_put(rows, rec);
    lemma_put_then_latest(rows, rec);
    if now >= write_time + ttl {
        let base = without(rows, key@);
        lemma_without_has_none(rows, key@);
        lemma_without_stale_keeps_none(base, key@, now);
        assert(stored.drop_last() =~= base);
        assert(without_stale(stored, key@, now) == without_stale(base, key@, now));
    }
}

/// Idempotent population: writing the same key, signature and value twice with the same
/// lifetime leaves one record for the key, and a read at any instant at which the first write
/// is still fresh finds the same signature and value before and after the second write.
pub proof fn lemma_idempotent_put(
    rows: Seq<CacheRecord>,
    key: String,
    signature: String,
    value: String,
    first: i64,
    second: i64,
    ttl: i64,
    now: i64,
)
    requires
        expiry_fits(first, ttl),
        expiry_fits(second, ttl),
        first <= second,
        now < first + ttl,
    ensures
        ({
            let r1 = CacheRecord { key, signature, value, expires_at: (first + ttl) as i64 };
            let r2 = CacheRecord { key, signature, value, expires_at: (second + ttl) as i64 };
            let once = after_put(rows, r1);
            let twice = after_put(once, r2);
            &&& lookup_of(once, key@, now) == Lookup::Hit(r1)
            &&& lookup_of(twice, key@, now) == Lookup::Hit(r2)
            &&& r1.signature == r2.signature && r1.value == r2.value
            &&& count_for(once, key@) == 1
            &&& count_for(twice, key@) == 1
        }),
{
    let r1 = CacheRecord { key, signature, value, expires_at: (first + ttl) as i64 };
    let r2 = CacheRecord { key, signature, value, expires_at: (second + ttl) as i64 };
    lemma_put_then_latest(rows, r1);
    lemma_put_then_latest(after_put(rows, r1), r2);
}

} // verus!
