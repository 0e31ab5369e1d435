//! AI response caching to reduce redundant API calls.
use vstd::prelude::*;
use std::hash::{Hash, Hasher};
use crate::text::{chars_of, hex, hex_chars, string_of};
use crate::time::{clock_reading, whole_seconds, Timestamp};
use crate::analyzer::Ratio;
use crate::paths::opt_text;

verus! {

// ---------------------------------------------------------------------------
// Cache keys
// ---------------------------------------------------------------------------
/// The hash `DefaultHasher::new()` computes after hashing two strings.
pub uninterp spec fn spec_hash_two(a: Seq<char>, b: Seq<char>) -> u64;

/// The hash `DefaultHasher::new()` computes after hashing three strings.
pub uninterp spec fn spec_hash_three(a: Seq<char>, b: Seq<char>, c: Seq<char>) -> u64;

/// Hashes `a` then `b` (`Hash for str`) into a fresh
/// `std::collections::hash_map::DefaultHasher::new()` and returns
/// `Hasher::finish`. std documents that every hasher made by `new` starts
/// alike, so the result depends on the two strings alone; the hash
/// function itself is not restated.
#[verifier::external_body]
fn hash_two(a: &str, b: &str) -> (h: u64)
    ensures
        h == spec_hash_two(a@, b@),
{
    let mut hasher = std::collections::hash_map::DefaultHasher::new();
    a.hash(&mut hasher);
    b.hash(&mut hasher);
    hasher.finish()
}

/// As `hash_two`, for three strings hashed in order.
#[verifier::external_body]
fn hash_three(a: &str, b: &str, c: &str) -> (h: u64)
    ensures
        h == spec_hash_three(a@, b@, c@),
{
    let mut hasher = std::collections::hash_map::DefaultHasher::new();
    a.hash(&mut hasher);
    b.hash(&mut hasher);
    c.hash(&mut hasher);
    hasher.finish()
}

/// The cache key of a content and a prompt: their hash in lower-case hex.
pub open spec fn spec_generate_key(content: Seq<char>, prompt: Seq<char>) -> Seq<char> {
    hex(spec_hash_two(content, prompt) as nat)
}

/// The cache key of a file operation: the hash of the path, the operation
/// and the `{:?}` text of the file's modification time, in lower-case hex.
pub open spec fn spec_file_key(path: Seq<char>, operation: Seq<char>, modified: Seq<char>) -> Seq<
    char,
> {
    hex(spec_hash_three(path, operation, modified) as nat)
}

/// A lower-case hexadecimal digit.
pub open spec fn is_hex_digit(c: char) -> bool {
    ('0' <= c && c <= '9') || ('a' <= c && c <= 'f')
}

/// A cache key: one to sixteen lower-case hexadecimal digits.
pub open spec fn is_cache_key(k: Seq<char>) -> bool {
    1 <= k.len() <= 16 && forall|i: int| 0 <= i < k.len() ==> is_hex_digit(#[trigger] k[i])
}

/// `16^k`.
pub open spec fn pow16(k: nat) -> nat
    decreases k,
{
    if k == 0 {
        1
    } else {
        16 * pow16((k - 1) as nat)
    }
}

proof fn lemma_hex_shape(n: nat, k: nat)
    requires
        k >= 1,
        n < pow16(k),
    ensures
        1 <= hex(n).len() <= k,
        forall|i: int| 0 <= i < hex(n).len() ==> is_hex_digit(#[trigger] hex(n)[i]),
    decreases n,
{
    reveal_with_fuel(crate::text::numeral, 2);
    if n >= 16 {
        let m = n / 16;
        assert(m < n && m < pow16((k - 1) as nat) && k >= 2) by (nonlinear_arith)
            requires
                n >= 16,
                m == n / 16,
                n < pow16(k),
                pow16(k) == 16 * pow16((k - 1) as nat),
                k >= 1,
                k == 1 ==> pow16((k - 1) as nat) == 1,
        ;
        lemma_hex_shape(m, (k - 1) as nat);
        let d = n % 16;
        assert(d < 16);
        assert(hex(n) == hex(m).push(crate::text::digit_char(d)));
    }
}

/// The key of any 64-bit hash is one to sixteen lower-case hex digits.
pub proof fn lemma_cache_key_shape(h: u64)
    ensures
        is_cache_key(hex(h as nat)),
{
    reveal_with_fuel(pow16, 17);
    assert(pow16(16) == 0x1_0000_0000_0000_0000);
    lemma_hex_shape(h as nat, 16);
}

/// Generate cache key from code content and prompt.
pub fn generate_key(content: &str, prompt: &str) -> (r: String)
    ensures
        r@ == spec_generate_key(content@, prompt@),
        is_cache_key(r@),
{
    let h = hash_two(content, prompt);
    proof {
        lemma_cache_key_shape(h);
    }
    string_of(&hex_chars(h))
}

/// Generate cache key from a file path, an operation and the `{:?}` text of
/// the file's modification time.
pub fn generate_file_key(file_path: &str, operation: &str, modified: &str) -> (r: String)
    ensures
        r@ == spec_file_key(file_path@, operation@, modified@),
        is_cache_key(r@),
{
    let h = hash_three(file_path, operation, modified);
    proof {
        lemma_cache_key_shape(h);
    }
    string_of(&hex_chars(h))
}

// ---------------------------------------------------------------------------
// Cached responses
// ---------------------------------------------------------------------------
/// Cached AI response.
#[derive(Debug)]
pub struct CachedResponse {
    /// The cached response
    pub response: String,
    /// When it was cached
    pub timestamp: Timestamp,
    /// Time-to-live in seconds
    pub ttl_secs: u64,
}

impl Clone for CachedResponse {
    fn clone(&self) -> (r: Self)
        ensures
            r == *self,
    {
        CachedResponse {
            response: self.response.clone(),
            timestamp: self.timestamp,
            ttl_secs: self.ttl_secs,
        }
    }
}

/// What a cached response holds.
pub struct CachedView {
    pub response: Seq<char>,
    pub timestamp: Timestamp,
    pub ttl_secs: u64,
}

impl View for CachedResponse {
    type V = CachedView;

    open spec fn view(&self) -> CachedView {
        CachedView { response: self.response@, timestamp: self.timestamp, ttl_secs: self.ttl_secs }
    }
}

/// `ttl as i64`: values above `i64::MAX` wrap to negative ones.
pub open spec fn ttl_as_i64(ttl: u64) -> int {
    if ttl <= i64::MAX {
        ttl as int
    } else {
        ttl - 0x1_0000_0000_0000_0000
    }
}

/// An entry is expired when the whole seconds since it was cached reach
/// its time-to-live.
pub open spec fn expired_at(e: CachedView, now: Timestamp) -> bool {
    whole_seconds(now.total_nanos() - e.timestamp.total_nanos()) >= ttl_as_i64(e.ttl_secs)
}

/// What putting `key` with `response` at `now` into contents `before` of
/// a cache of this capacity leaves: the new entry, and the other entries
/// kept, except that a full cache first loses one entry cached earliest.
pub open spec fn put_outcome(
    before: Map<Seq<char>, CachedView>,
    capacity: usize,
    after: Map<Seq<char>, CachedView>,
    key: Seq<char>,
    response: Seq<char>,
    ttl_secs: u64,
    now: Timestamp,
) -> bool {
    let entry = CachedView { response, timestamp: now, ttl_secs };
    &&& before.len() < capacity || before.len() == 0 ==> after == before.insert(key, entry)
    &&& before.len() >= capacity && before.len() > 0 ==> exists|victim: Seq<char>|
        {
            &&& #[trigger] before.dom().contains(victim)
            &&& forall|k: Seq<char>|
                before.dom().contains(k) ==> not_later(
                    before[victim].timestamp,
                    #[trigger] before[k].timestamp,
                )
            &&& after == before.remove(victim).insert(key, entry)
        }
}

/// What a lookup of `key` at `now` in contents `m` answers: the response
/// when the key is present and its entry not expired.
pub open spec fn answer_in(m: Map<Seq<char>, CachedView>, key: Seq<char>, now: Timestamp) -> Option<
    Seq<char>,
> {
    if m.dom().contains(key) && !expired_at(m[key], now) {
        Some(m[key].response)
    } else {
        None
    }
}

/// A response put under `key` at one clock reading is what a lookup of the
/// key gives at any later reading less than its time-to-live after it (or
/// less than a second before it), whether or not the cache was full.
pub proof fn lemma_put_then_get(
    before: Map<Seq<char>, CachedView>,
    capacity: usize,
    after: Map<Seq<char>, CachedView>,
    key: Seq<char>,
    response: Seq<char>,
    ttl_secs: u64,
    put_time: Timestamp,
    get_time: Timestamp,
)
    requires
        put_outcome(before, capacity, after, key, response, ttl_secs, put_time),
        0 < ttl_secs <= i64::MAX,
        -1_000_000_000 < get_time.total_nanos() - put_time.total_nanos() < ttl_secs * 1_000_000_000,
    ensures
        answer_in(after, key, get_time) == Some(response),
{
    let entry = CachedView { response, timestamp: put_time, ttl_secs };
    if before.len() >= capacity && before.len() > 0 {
        let victim = choose|victim: Seq<char>|
            {
                &&& #[trigger] before.dom().contains(victim)
                &&& forall|k: Seq<char>|
                    before.dom().contains(k) ==> not_later(
                        before[victim].timestamp,
                        #[trigger] before[k].timestamp,
                    )
                &&& after == before.remove(victim).insert(key, entry)
            };
        assert(after.dom().contains(key) && after[key] == entry);
    } else {
        assert(after.dom().contains(key) && after[key] == entry);
    }
    lemma_expiry(entry, get_time);
}

/// The entries of `m` that are not expired at `now`.
pub open spec fn live_contents(m: Map<Seq<char>, CachedView>, now: Timestamp) -> Map<
    Seq<char>,
    CachedView,
> {
    Map::new(|k: Seq<char>| m.dom().contains(k) && !expired_at(m[k], now), |k: Seq<char>| m[k])
}

/// `a` is not later than `b`, comparing seconds then nanoseconds.
pub open spec fn not_later(a: Timestamp, b: Timestamp) -> bool {
    a.secs < b.secs || (a.secs == b.secs && a.nanos <= b.nanos)
}

impl CachedResponse {
    /// Check if cache entry is expired at `now`.
    pub fn is_expired_at(&self, now: &Timestamp) -> (b: bool)
        ensures
            b == expired_at(self@, *now),
    {
        let age = now.whole_seconds_since(&self.timestamp);
        let ttl: i128 = if self.ttl_secs <= 0x7fff_ffff_ffff_ffff {
            self.ttl_secs as i128
        } else {
            self.ttl_secs as i128 - 0x1_0000_0000_0000_0000i128
        };
        age >= ttl
    }

    /// Check if cache entry is expired now: expired at the time the clock
    /// reads.
    pub fn is_expired(&self) -> (b: bool)
        ensures
            exists|t: Timestamp| #[trigger] clock_reading(t) && b == expired_at(self@, t),
    {
        let now = Timestamp::now();
        let b = self.is_expired_at(&now);
        assert(clock_reading(now) && b == expired_at(self@, now));
        b
    }
}

/// An entry is live until its time-to-live has passed: looked up less
/// than `ttl_secs` seconds after it was cached it is not expired, and from
/// then on it is (for time-to-live values up to `i64::MAX`). A lookup dated
/// less than a second before the entry sees an entry of zero time-to-live
/// as expired, since the age is rounded toward zero.
pub proof fn lemma_expiry(e: CachedView, later: Timestamp)
    requires
        e.ttl_secs <= i64::MAX,
    ensures
        later.total_nanos() - e.timestamp.total_nanos() < e.ttl_secs * 1_000_000_000 && (e.ttl_secs
            > 0 || later.total_nanos() - e.timestamp.total_nanos() <= -1_000_000_000) ==> !expired_at(
            e,
            later,
        ),
        later.total_nanos() - e.timestamp.total_nanos() >= e.ttl_secs * 1_000_000_000 ==> expired_at(
            e,
            later,
        ),
{
    let d = later.total_nanos() - e.timestamp.total_nanos();
    let t = e.ttl_secs as int;
    if d >= 0 {
        if d < t * 1_000_000_000 {
            assert(d / 1_000_000_000 < t) by (nonlinear_arith)
                requires
                    0 <= d < t * 1_000_000_000,
            ;
        } else {
            assert(d / 1_000_000_000 >= t) by (nonlinear_arith)
                requires
                    d >= t * 1_000_000_000,
                    t >= 0,
            ;
        }
    } else {
        assert(-((-d) / 1_000_000_000) <= 0) by (nonlinear_arith)
            requires
                d < 0,
        ;
        if d <= -1_000_000_000 {
            assert(-((-d) / 1_000_000_000) <= -1) by (nonlinear_arith)
                requires
                    d <= -1_000_000_000,
            ;
        }
    }
}

fn timestamp_not_later(a: &Timestamp, b: &Timestamp) -> (r: bool)
    ensures
        r == not_later(*a, *b),
{
    a.secs < b.secs || (a.secs == b.secs && a.nanos <= b.nanos)
}

/// Cache statistics.
#[derive(Debug, Clone, Copy, PartialEq, Eq, Structural)]
pub struct CacheStats {
    /// Total entries in cache
    pub total_entries: usize,
    /// Expired entries
    pub expired_entries: usize,
    /// Active (non-expired) entries
    pub active_entries: usize,
    /// Maximum allowed entries
    pub max_entries: usize,
}

impl CacheStats {
    /// How full the cache is: active entries over the maximum, as a ratio
    /// (whose value is zero when the maximum is zero).
    pub fn utilization(&self) -> (r: Ratio)
        ensures
            r == (if self.max_entries == 0 {
                Ratio { numerator: 0, denominator: 1 }
            } else {
                Ratio { numerator: self.active_entries, denominator: self.max_entries }
            }),
    {
        if self.max_entries == 0 {
            Ratio { numerator: 0, denominator: 1 }
        } else {
            Ratio { numerator: self.active_entries, denominator: self.max_entries }
        }
    }
}

/// The keys held by a list of entries.
pub open spec fn keys_of(entries: Seq<(String, CachedResponse)>) -> Seq<Seq<char>> {
    entries.map_values(|e: (String, CachedResponse)| e.0@)
}

/// The map that a list of entries with distinct keys stands for.
pub open spec fn map_of(entries: Seq<(String, CachedResponse)>) -> Map<Seq<char>, CachedView>
    decreases entries.len(),
{
    if entries.len() == 0 {
        Map::empty()
    } else {
        map_of(entries.drop_last()).insert(entries.last().0@, entries.last().1@)
    }
}

/// Number of entries of `m` expired at `now`.
pub open spec fn count_expired(entries: Seq<(String, CachedResponse)>, now: Timestamp) -> nat
    decreases entries.len(),
{
    if entries.len() == 0 {
        0
    } else {
        count_expired(entries.drop_last(), now) + if expired_at(entries.last().1@, now) {
            1nat
        } else {
            0nat
        }
    }
}

/// Entries still live at `now`.
pub open spec fn live_at(now: Timestamp) -> spec_fn((String, CachedResponse)) -> bool {
    |e: (String, CachedResponse)| !expired_at(e.1@, now)
}

proof fn lemma_map_of_keys(entries: Seq<(String, CachedResponse)>)
    requires
        keys_of(entries).no_duplicates(),
    ensures
        map_of(entries).dom().finite(),
        map_of(entries).len() == entries.len(),
        forall|i: int|
            0 <= i < entries.len() ==> map_of(entries).dom().contains((#[trigger] entries[i]).0@)
                && map_of(entries)[entries[i].0@] == entries[i].1@,
        forall|k: Seq<char>| #[trigger]
            map_of(entries).dom().contains(k) ==> exists|j: int|
                0 <= j < entries.len() && (#[trigger] entries[j]).0@ == k,
    decreases entries.len(),
{
    if entries.len() > 0 {
        let pre = entries.drop_last();
        let last = entries.last();
        assert(keys_of(pre) =~= keys_of(entries).drop_last());
        lemma_map_of_keys(pre);
        assert(!map_of(pre).dom().contains(last.0@)) by {
            if map_of(pre).dom().contains(last.0@) {
                let j = choose|j: int| 0 <= j < pre.len() && (#[trigger] pre[j]).0@ == last.0@;
                assert(keys_of(entries)[j] == keys_of(entries)[entries.len() - 1]);
            }
        }
        assert forall|i: int| 0 <= i < entries.len() implies map_of(entries).dom().contains(
            (#[trigger] entries[i]).0@,
        ) && map_of(entries)[entries[i].0@] == entries[i].1@ by {
            if i < entries.len() - 1 {
                assert(pre[i] == entries[i]);
                assert(keys_of(entries)[i] != keys_of(entries)[entries.len() - 1]);
            }
        }
        assert forall|k: Seq<char>| #[trigger] map_of(entries).dom().contains(k) implies exists|j: int|
            0 <= j < entries.len() && (#[trigger] entries[j]).0@ == k by {
            if k != last.0@ {
                let j = choose|j: int| 0 <= j < pre.len() && (#[trigger] pre[j]).0@ == k;
                assert(entries[j] == pre[j]);
            } else {
                assert(entries[entries.len() - 1] == last);
            }
        }
    }
}

proof fn lemma_map_of_live(entries: Seq<(String, CachedResponse)>, now: Timestamp)
    requires
        keys_of(entries).no_duplicates(),
    ensures
        keys_of(entries.filter(live_at(now))).no_duplicates(),
        forall|k: Seq<char>|
            #![trigger map_of(entries.filter(live_at(now))).dom().contains(k)]
            #![trigger map_of(entries)[k]]
            map_of(entries.filter(live_at(now))).dom().contains(k) <==> (map_of(
                entries,
            ).dom().contains(k) && !expired_at(map_of(entries)[k], now)),
        forall|k: Seq<char>| #[trigger]
            map_of(entries.filter(live_at(now))).dom().contains(k) ==> map_of(
                entries.filter(live_at(now)),
            )[k] == map_of(entries)[k],
    decreases entries.len(),
{
    reveal(Seq::filter);
    if entries.len() > 0 {
        let pre = entries.drop_last();
        let last = entries.last();
        let p = live_at(now);
        assert(keys_of(pre) =~= keys_of(entries).drop_last());
        lemma_map_of_keys(pre);
        lemma_map_of_keys(entries);
        lemma_map_of_live(pre, now);
        let fp = pre.filter(p);
        lemma_map_of_keys(fp);
        assert(!map_of(pre).dom().contains(last.0@)) by {
            if map_of(pre).dom().contains(last.0@) {
                let j = choose|j: int| 0 <= j < pre.len() && (#[trigger] pre[j]).0@ == last.0@;
                assert(keys_of(entries)[j] == keys_of(entries)[entries.len() - 1]);
            }
        }
        assert(entries.filter(p) == if p(last) { fp.push(last) } else { fp });
        if p(last) {
            assert(keys_of(fp.push(last)) =~= keys_of(fp).push(last.0@));
            assert forall|a: int, b: int|
                0 <= a < b < keys_of(fp.push(last)).len() implies keys_of(fp.push(last))[a]
                != keys_of(fp.push(last))[b] by {
                if b == fp.len() {
                    assert(map_of(fp).dom().contains(fp[a].0@));
                } else {
                    assert(keys_of(fp)[a] != keys_of(fp)[b]);
                }
            }
            assert(fp.push(last).drop_last() =~= fp);
        }
    }
}

/// The most entries a cache of this capacity holds after a `put`: the
/// capacity, but at least one.
pub open spec fn size_bound(capacity: usize) -> nat {
    if capacity == 0 {
        1
    } else {
        capacity as nat
    }
}

/// Cache for AI responses. Entries are kept in insertion order, each key
/// at most once.
pub struct AICache {
    entries: Vec<(String, CachedResponse)>,
    /// Maximum cache entries
    max_entries: usize,
    /// Cache file path (optional persistent cache)
    cache_file: Option<String>,
    /// Enable persistent cache
    persistent: bool,
}

impl AICache {
    #[verifier::type_invariant]
    spec fn keys_distinct(self) -> bool {
        keys_of(self.entries@).no_duplicates()
    }

    /// The cached responses by key.
    pub closed spec fn contents(&self) -> Map<Seq<char>, CachedView> {
        map_of(self.entries@)
    }

    /// Number of entries expired at `now`.
    pub closed spec fn expired_count(&self, now: Timestamp) -> nat {
        count_expired(self.entries@, now)
    }

    pub closed spec fn capacity(&self) -> usize {
        self.max_entries
    }

    pub closed spec fn file(&self) -> Option<String> {
        self.cache_file
    }

    pub closed spec fn is_persistent(&self) -> bool {
        self.persistent
    }

    /// Create a new AI cache.
    pub fn new(max_entries: usize) -> (c: Self)
        ensures
            c.contents() == Map::<Seq<char>, CachedView>::empty(),
            c.capacity() == max_entries,
            c.file() is None,
            !c.is_persistent(),
    {
        let c = AICache { entries: Vec::new(), max_entries, cache_file: None, persistent: false };
        assert(map_of(c.entries@) =~= Map::<Seq<char>, CachedView>::empty());
        c
    }

    /// Enable persistent cache with file.
    pub fn with_persistent_cache(self, cache_file: String) -> (c: Self)
        ensures
            c.contents() == self.contents(),
            c.capacity() == self.capacity(),
            c.file() == Some(cache_file),
            c.is_persistent(),
    {
        proof {
            use_type_invariant(&self);
        }
        AICache {
            entries: self.entries,
            max_entries: self.max_entries,
            cache_file: Some(cache_file),
            persistent: true,
        }
    }

    /// The persistent cache file, if persistence is enabled.
    pub fn persistent_file(&self) -> (r: Option<&String>)
        ensures
            r == (if self.is_persistent() {
                match self.file() {
                    Some(f) => Some(&f),
                    None => None,
                }
            } else {
                None
            }),
    {
        if !self.persistent {
            return None;
        }
        match &self.cache_file {
            Some(f) => Some(f),
            None => None,
        }
    }

    /// Number of entries.
    pub fn len(&self) -> (n: usize)
        ensures
            n == self.contents().len(),
    {
        proof {
            use_type_invariant(self);
            lemma_map_of_keys(self.entries@);
        }
        self.entries.len()
    }

    fn find(&self, key: &Vec<char>) -> (r: Option<usize>)
        ensures
            match r {
                Some(i) => i < self.entries.len() && self.entries@[i as int].0@ == key@,
                None => !self.contents().dom().contains(key@),
            },
    {
        proof {
            use_type_invariant(self);
            lemma_map_of_keys(self.entries@);
        }
        let mut i: usize = 0;
        while i < self.entries.len()
            invariant
                i <= self.entries.len(),
                forall|k: int| 0 <= k < i ==> (#[trigger] self.entries@[k]).0@ != key@,
            decreases self.entries.len() - i,
        {
            let kc = chars_of(self.entries[i].0.as_str());
            if crate::text::starts_with_chars(&kc, key) && kc.len() == key.len() {
                assert(kc@ =~= key@);
                return Some(i);
            }
            proof {
                if kc@ == key@ {
                    assert(kc@.take(key@.len() as int) =~= key@);
                }
            }
            i += 1;
        }
        None
    }

    /// What a lookup of `key` at `now` answers: the cached response when
    /// the key is present and its entry not expired at `now`.
    pub open spec fn answer_at(&self, key: Seq<char>, now: Timestamp) -> Option<Seq<char>> {
        answer_in(self.contents(), key, now)
    }

    /// Get the cached response for `key` as of `now`: `None` when the key
    /// is absent or its entry expired.
    pub fn get_at(&self, key: &str, now: &Timestamp) -> (r: Option<String>)
        ensures
            r matches Some(s) ==> self.contents().dom().contains(key@) && s@ == self.contents()[key@].response
                && !expired_at(self.contents()[key@], *now),
            r is None ==> !self.contents().dom().contains(key@) || expired_at(
                self.contents()[key@],
                *now,
            ),
    {
        proof {
            use_type_invariant(self);
            lemma_map_of_keys(self.entries@);
        }
        let k = chars_of(key);
        match self.find(&k) {
            Some(i) => {
                let e = &self.entries[i].1;
                assert(self.contents()[key@] == e@);
                if e.is_expired_at(now) {
                    None
                } else {
                    Some(e.response.clone())
                }
            },
            None => None,
        }
    }

    /// Get cached response, as of the current time: the response when the
    /// key is present and its entry not expired at the time the clock reads.
    pub fn get(&self, key: &str) -> (r: Option<String>)
        ensures
            exists|t: Timestamp| #[trigger] clock_reading(t) && opt_text(r) == self.answer_at(key@, t),
    {
        let now = Timestamp::now();
        let r = self.get_at(key, &now);
        assert(clock_reading(now) && opt_text(r) == self.answer_at(key@, now));
        r
    }

    fn oldest(&self) -> (r: Option<usize>)
        ensures
            match r {
                Some(i) => i < self.entries.len() && forall|k: int|
                    0 <= k < self.entries.len() ==> not_later(
                        self.entries@[i as int].1.timestamp,
                        #[trigger] self.entries@[k].1.timestamp,
                    ),
                None => self.entries.len() == 0,
            },
    {
        if self.entries.len() == 0 {
            return None;
        }
        let mut best: usize = 0;
        let mut i: usize = 1;
        while i < self.entries.len()
            invariant
                1 <= i <= self.entries.len(),
                best < i,
                forall|k: int|
                    0 <= k < i ==> not_later(
                        self.entries@[best as int].1.timestamp,
                        #[trigger] self.entries@[k].1.timestamp,
                    ),
            decreases self.entries.len() - i,
        {
            if !timestamp_not_later(&self.entries[best].1.timestamp, &self.entries[i].1.timestamp) {
                best = i;
            }
            i += 1;
        }
        Some(best)
    }

    /// Put a response in the cache at time `now`. At capacity, the entry
    /// cached earliest is evicted first.
    pub fn put_at(&mut self, key: String, response: String, ttl_secs: u64, now: Timestamp)
        ensures
            final(self).capacity() == old(self).capacity(),
            final(self).file() == old(self).file(),
            final(self).is_persistent() == old(self).is_persistent(),
            final(self).contents().dom().contains(key@),
            final(self).contents()[key@] == (CachedView {
                response: response@,
                timestamp: now,
                ttl_secs,
            }),
            old(self).contents().len() < old(self).capacity() || old(self).contents().len() == 0
                ==> final(self).contents() == old(self).contents().insert(
                key@,
                CachedView { response: response@, timestamp: now, ttl_secs },
            ),
            old(self).contents().len() >= old(self).capacity() && old(self).contents().len() > 0
                ==> exists|victim: Seq<char>|
                {
                    &&& #[trigger] old(self).contents().dom().contains(victim)
                    &&& forall|k: Seq<char>|
                        old(self).contents().dom().contains(k) ==> not_later(
                            old(self).contents()[victim].timestamp,
                            #[trigger] old(self).contents()[k].timestamp,
                        )
                    &&& final(self).contents() == old(self).contents().remove(victim).insert(
                        key@,
                        CachedView { response: response@, timestamp: now, ttl_secs },
                    )
                },
            old(self).contents().len() <= size_bound(old(self).capacity())
                ==> final(self).contents().len() <= size_bound(old(self).capacity()),
    {
        proof {
            use_type_invariant(&*self);
            lemma_map_of_keys(self.entries@);
        }
        let ghost before = self.contents();
        let ghost value = CachedView { response: response@, timestamp: now, ttl_secs };
        let ghost mut victim: Option<Seq<char>> = None;
        if self.entries.len() >= self.max_entries {
            match self.oldest() {
                Some(i) => {
                    proof {
                        victim = Some(self.entries@[i as int].0@);
                        assert forall|k: Seq<char>| before.dom().contains(k) implies not_later(
                            before[victim->0].timestamp,
                            #[trigger] before[k].timestamp,
                        ) by {
                            let j = choose|j: int|
                                0 <= j < self.entries@.len() && (#[trigger] self.entries@[j]).0@ == k;
                            assert(not_later(
                                self.entries@[i as int].1.timestamp,
                                self.entries@[j].1.timestamp,
                            ));
                        }
                        assert(before.dom().contains(victim->0));
                    }
                    self.remove_at(i);
                },
                None => {},
            }
        }
        let ghost mid = self.contents();
        assert(victim is Some ==> mid == before.remove(victim->0));
        assert(victim is None ==> mid == before);
        let kc = chars_of(key.as_str());
        let entry = CachedResponse { response, timestamp: now, ttl_secs };
        match self.find(&kc) {
            Some(i) => {
                self.replace_at(i, entry);
            },
            None => {
                self.append(key, entry);
            },
        }
        assert(self.contents() == mid.insert(key@, value));
        proof {
            if before.len() >= self.max_entries && before.len() > 0 {
                assert(victim is Some);
                let v = victim->0;
                assert(self.contents() == before.remove(v).insert(key@, value));
                assert(before.dom().contains(v));
            } else {
                assert(victim is None);
            }
            assert(before.dom().finite());
            if victim is Some {
                let v = victim->0;
                assert(before.remove(v).dom() =~= before.dom().remove(v));
                assert(before.remove(v).len() == before.len() - 1);
                assert(before.remove(v).insert(key@, value).dom() =~= before.dom().remove(v).insert(key@));
            } else {
                assert(before.insert(key@, value).dom() =~= before.dom().insert(key@));
            }
        }
    }

    /// Put a response in the cache now.
    pub fn put(&mut self, key: String, response: String, ttl_secs: u64)
        ensures
            final(self).capacity() == old(self).capacity(),
            final(self).contents().dom().contains(key@),
            final(self).contents()[key@].response == response@,
            final(self).contents()[key@].ttl_secs == ttl_secs,
            old(self).contents().len() <= size_bound(old(self).capacity())
                ==> final(self).contents().len() <= size_bound(old(self).capacity()),
            exists|t: Timestamp| #[trigger] clock_reading(t) && put_outcome(
                old(self).contents(),
                old(self).capacity(),
                final(self).contents(),
                key@,
                response@,
                ttl_secs,
                t,
            ),
            final(self).file() == old(self).file(),
            final(self).is_persistent() == old(self).is_persistent(),
    {
        let now = Timestamp::now();
        let ghost k = key@;
        let ghost v = response@;
        self.put_at(key, response, ttl_secs, now);
        assert(clock_reading(now) && put_outcome(
            old(self).contents(),
            old(self).capacity(),
            self.contents(),
            k,
            v,
            ttl_secs,
            now,
        ));
    }

    fn remove_at(&mut self, i: usize)
        requires
            i < old(self).entries.len(),
        ensures
            final(self).contents() == old(self).contents().remove(old(self).entries@[i as int].0@),
            final(self).max_entries == old(self).max_entries,
            final(self).cache_file == old(self).cache_file,
            final(self).persistent == old(self).persistent,
            final(self).entries.len() == old(self).entries.len() - 1,
    {
        proof {
            use_type_invariant(&*self);
            lemma_map_of_keys(self.entries@);
        }
        let ghost old_entries = self.entries@;
        let ghost k = old_entries[i as int].0@;
        let mut entries = Vec::new();
        std::mem::swap(&mut entries, &mut self.entries);
        entries.remove(i);
        proof {
            assert(keys_of(entries@) =~= keys_of(old_entries).remove(i as int));
            assert forall|a: int, b: int|
                0 <= a < b < keys_of(entries@).len() implies keys_of(entries@)[a] != keys_of(
                entries@,
            )[b] by {
                let oa = if a < i { a } else { a + 1 };
                let ob = if b < i { b } else { b + 1 };
                assert(keys_of(entries@)[a] == keys_of(old_entries)[oa]);
                assert(keys_of(entries@)[b] == keys_of(old_entries)[ob]);
            }
            lemma_map_of_keys(entries@);
            assert(map_of(entries@) =~= map_of(old_entries).remove(k)) by {
                assert forall|x: Seq<char>| #[trigger] map_of(entries@).dom().contains(x) <==> map_of(
                    old_entries,
                ).remove(k).dom().contains(x) by {
                    if map_of(entries@).dom().contains(x) {
                        let j = choose|j: int| 0 <= j < entries@.len() && (#[trigger] entries@[j]).0@ == x;
                        let oj = if j < i { j } else { j + 1 };
                        assert(entries@[j] == old_entries[oj]);
                        assert(keys_of(old_entries)[oj] != keys_of(old_entries)[i as int]);
                    }
                    if map_of(old_entries).remove(k).dom().contains(x) {
                        let j = choose|j: int| 0 <= j < old_entries.len() && (#[trigger] old_entries[j]).0@ == x;
                        assert(j != i);
                        let nj = if j < i { j } else { j - 1 };
                        assert(entries@[nj] == old_entries[j]);
                    }
                }
                assert forall|x: Seq<char>| #[trigger] map_of(entries@).dom().contains(x) implies map_of(
                    entries@,
                )[x] == map_of(old_entries).remove(k)[x] by {
                    let j = choose|j: int| 0 <= j < entries@.len() && (#[trigger] entries@[j]).0@ == x;
                    let oj = if j < i { j } else { j + 1 };
                    assert(entries@[j] == old_entries[oj]);
                }
            }
        }
        self.entries = entries;
    }

    fn replace_at(&mut self, i: usize, entry: CachedResponse)
        requires
            i < old(self).entries.len(),
        ensures
            final(self).contents() == old(self).contents().insert(old(self).entries@[i as int].0@, entry@),
            final(self).max_entries == old(self).max_entries,
            final(self).cache_file == old(self).cache_file,
            final(self).persistent == old(self).persistent,
    {
        proof {
            use_type_invariant(&*self);
            lemma_map_of_keys(self.entries@);
        }
        let ghost old_entries = self.entries@;
        let ghost k = old_entries[i as int].0@;
        let mut entries = Vec::new();
        std::mem::swap(&mut entries, &mut self.entries);
        let key = entries[i].0.clone();
        entries.set(i, (key, entry));
        proof {
            assert(keys_of(entries@) =~= keys_of(old_entries));
            lemma_map_of_keys(entries@);
            assert(map_of(entries@) =~= map_of(old_entries).insert(k, entry@)) by {
                assert forall|x: Seq<char>| #[trigger] map_of(entries@).dom().contains(x) <==> map_of(
                    old_entries,
                ).insert(k, entry@).dom().contains(x) by {
                    if map_of(entries@).dom().contains(x) {
                        let j = choose|j: int| 0 <= j < entries@.len() && (#[trigger] entries@[j]).0@ == x;
                        if j != i {
                            assert(entries@[j] == old_entries[j]);
                        }
                    }
                    if map_of(old_entries).dom().contains(x) {
                        let j = choose|j: int| 0 <= j < old_entries.len() && (#[trigger] old_entries[j]).0@ == x;
                        if j != i {
                            assert(entries@[j] == old_entries[j]);
                        } else {
                            assert(entries@[j].0@ == x);
                        }
                    }
                    if x == k {
                        assert(entries@[i as int].0@ == k);
                    }
                }
                assert forall|x: Seq<char>| #[trigger] map_of(entries@).dom().contains(x) implies map_of(
                    entries@,
                )[x] == map_of(old_entries).insert(k, entry@)[x] by {
                    let j = choose|j: int| 0 <= j < entries@.len() && (#[trigger] entries@[j]).0@ == x;
                    if j != i {
                        assert(entries@[j] == old_entries[j]);
                        assert(keys_of(old_entries)[j] != keys_of(old_entries)[i as int]);
                    }
                }
            }
        }
        self.entries = entries;
    }

    fn append(&mut self, key: String, entry: CachedResponse)
        requires
            !old(self).contents().dom().contains(key@),
        ensures
            final(self).contents() == old(self).contents().insert(key@, entry@),
            final(self).max_entries == old(self).max_entries,
            final(self).cache_file == old(self).cache_file,
            final(self).persistent == old(self).persistent,
    {
        proof {
            use_type_invariant(&*self);
            lemma_map_of_keys(self.entries@);
        }
        let ghost old_entries = self.entries@;
        let ghost kv = key@;
        let mut entries = Vec::new();
        std::mem::swap(&mut entries, &mut self.entries);
        entries.push((key, entry));
        proof {
            assert(keys_of(entries@) =~= keys_of(old_entries).push(kv));
            assert forall|a: int, b: int|
                0 <= a < b < keys_of(entries@).len() implies keys_of(entries@)[a] != keys_of(
                entries@,
            )[b] by {
                if b == old_entries.len() {
                    assert(map_of(old_entries).dom().contains(old_entries[a].0@));
                } else {
                    assert(keys_of(old_entries)[a] != keys_of(old_entries)[b]);
                }
            }
            assert(entries@.drop_last() =~= old_entries);
        }
        self.entries = entries;
    }

    /// Clear all cache entries.
    pub fn clear(&mut self)
        ensures
            final(self).contents() == Map::<Seq<char>, CachedView>::empty(),
            final(self).capacity() == old(self).capacity(),
            final(self).file() == old(self).file(),
            final(self).is_persistent() == old(self).is_persistent(),
    {
        let mut entries = Vec::new();
        std::mem::swap(&mut entries, &mut self.entries);
        entries.clear();
        self.entries = entries;
        assert(map_of(self.entries@) =~= Map::<Seq<char>, CachedView>::empty());
    }

    /// Cache statistics as of `now`.
    pub fn stats_at(&self, now: &Timestamp) -> (s: CacheStats)
        ensures
            s.total_entries == self.contents().len(),
            s.expired_entries == self.expired_count(*now),
            s.active_entries == s.total_entries - s.expired_entries,
            s.max_entries == self.capacity(),
    {
        proof {
            use_type_invariant(self);
            lemma_map_of_keys(self.entries@);
        }
        let mut expired: usize = 0;
        let mut i: usize = 0;
        while i < self.entries.len()
            invariant
                i <= self.entries.len(),
                expired <= i,
                expired == count_expired(self.entries@.take(i as int), *now),
            decreases self.entries.len() - i,
        {
            assert(self.entries@.take(i + 1).drop_last() =~= self.entries@.take(i as int));
            if self.entries[i].1.is_expired_at(now) {
                expired += 1;
            }
            i += 1;
        }
        assert(self.entries@.take(i as int) =~= self.entries@);
        CacheStats {
            total_entries: self.entries.len(),
            expired_entries: expired,
            active_entries: self.entries.len() - expired,
            max_entries: self.max_entries,
        }
    }

    /// Cache statistics as of the current time: expired entries counted at
    /// the time the clock reads.
    pub fn stats(&self) -> (s: CacheStats)
        ensures
            s.total_entries == self.contents().len(),
            s.active_entries == s.total_entries - s.expired_entries,
            s.expired_entries <= s.total_entries,
            s.max_entries == self.capacity(),
            exists|t: Timestamp| #[trigger] clock_reading(t) && s.expired_entries == self.expired_count(
                t,
            ),
    {
        let now = Timestamp::now();
        let s = self.stats_at(&now);
        assert(clock_reading(now) && s.expired_entries == self.expired_count(now));
        s
    }

    /// Remove the entries expired at `now`.
    pub fn cleanup_expired_at(&mut self, now: &Timestamp)
        ensures
            forall|k: Seq<char>|
                #![trigger final(self).contents().dom().contains(k)]
                #![trigger old(self).contents()[k]]
                final(self).contents().dom().contains(k) <==> (old(self).contents().dom().contains(k)
                    && !expired_at(old(self).contents()[k], *now)),
            forall|k: Seq<char>|
                final(self).contents().dom().contains(k) ==> #[trigger] final(self).contents()[k]
                    == old(self).contents()[k],
            final(self).capacity() == old(self).capacity(),
            final(self).file() == old(self).file(),
            final(self).is_persistent() == old(self).is_persistent(),
            final(self).contents() == live_contents(old(self).contents(), *now),
    {
        proof {
            use_type_invariant(&*self);
        }
        let ghost old_entries = self.entries@;
        let ghost p = live_at(*now);
        let mut entries = Vec::new();
        std::mem::swap(&mut entries, &mut self.entries);
        let mut kept: Vec<(String, CachedResponse)> = Vec::new();
        let mut i: usize = 0;
        while i < entries.len()
            invariant
                i <= entries.len(),
                entries@ == old_entries,
                p == live_at(*now),
                kept@ == old_entries.take(i as int).filter(p),
            decreases entries.len() - i,
        {
            proof {
                reveal(Seq::filter);
                assert(old_entries.take(i + 1).drop_last() =~= old_entries.take(i as int));
                assert(old_entries.take(i + 1).last() == old_entries[i as int]);
            }
            if !entries[i].1.is_expired_at(now) {
                let e = (entries[i].0.clone(), entries[i].1.clone());
                kept.push(e);
            }
            i += 1;
        }
        proof {
            assert(old_entries.take(i as int) =~= old_entries);
            lemma_map_of_live(old_entries, *now);
        }
        self.entries = kept;
        assert(self.contents() =~= live_contents(old(self).contents(), *now));
    }

    /// Remove the entries expired as of the current time: those expired at
    /// the time the clock reads.
    pub fn cleanup_expired(&mut self)
        ensures
            exists|t: Timestamp| #[trigger] clock_reading(t) && final(self).contents()
                == live_contents(old(self).contents(), t),
            final(self).capacity() == old(self).capacity(),
            final(self).file() == old(self).file(),
            final(self).is_persistent() == old(self).is_persistent(),
    {
        let now = Timestamp::now();
        self.cleanup_expired_at(&now);
        assert(clock_reading(now) && self.contents() == live_contents(old(self).contents(), now));
    }

    /// Replace the contents with entries read back from disk; of entries
    /// with the same key the last one stays.
    pub fn load_entries(&mut self, loaded: Vec<(String, CachedResponse)>)
        ensures
            final(self).contents() == map_of(loaded@),
            final(self).capacity() == old(self).capacity(),
            final(self).file() == old(self).file(),
            final(self).is_persistent() == old(self).is_persistent(),
    {
        let mut entries = Vec::new();
        std::mem::swap(&mut entries, &mut self.entries);
        entries.clear();
        self.entries = entries;
        assert(map_of(self.entries@) =~= Map::<Seq<char>, CachedView>::empty());
        let mut i: usize = 0;
        while i < loaded.len()
            invariant
                i <= loaded.len(),
                self.contents() == map_of(loaded@.take(i as int)),
                self.max_entries == old(self).max_entries,
                self.cache_file == old(self).cache_file,
                self.persistent == old(self).persistent,
            decreases loaded.len() - i,
        {
            assert(loaded@.take(i + 1).drop_last() =~= loaded@.take(i as int));
            let key = loaded[i].0.clone();
            let entry = loaded[i].1.clone();
            let kc = chars_of(key.as_str());
            match self.find(&kc) {
                Some(j) => self.replace_at(j, entry),
                None => self.append(key, entry),
            }
            i += 1;
        }
        assert(loaded@.take(i as int) =~= loaded@);
    }

    /// The entries, in insertion order, for writing to disk.
    pub fn entries(&self) -> (r: Vec<(String, CachedResponse)>)
        ensures
            map_of(r@) == self.contents(),
            keys_of(r@).no_duplicates(),
    {
        proof {
            use_type_invariant(self);
        }
        let mut r: Vec<(String, CachedResponse)> = Vec::new();
        let mut i: usize = 0;
        while i < self.entries.len()
            invariant
                i <= self.entries.len(),
                r@ == self.entries@.take(i as int),
            decreases self.entries.len() - i,
        {
            r.push((self.entries[i].0.clone(), self.entries[i].1.clone()));
            i += 1;
            assert(r@ =~= self.entries@.take(i as int));
        }
        assert(self.entries@.take(i as int) =~= self.entries@);
        r
    }
}

} // verus!
