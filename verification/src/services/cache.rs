//! In-memory cache of processed images, bounded by a byte capacity.
//!
//! Entries are keyed by `(image name, width, height)`; a cached entry is never
//! replaced, and an insertion that would push the total size of the stored
//! images past the capacity is skipped.

use vstd::prelude::*;
use vstd::hash_map::StringHashMap;
use crate::models::device::DeviceTarget;
use crate::services::errors::ImageProcessingError;
use crate::text::concat2;
use crate::text::{decimal, push_decimal, lemma_decimal_no_underscore, lemma_decimal_injective};

verus! {

/// The key under which the image `name` processed to `w`x`h` is stored:
/// `name`, `_`, the width in decimal, `_`, the height in decimal.
pub open spec fn cache_key(name: Seq<char>, w: u32, h: u32) -> Seq<char> {
    name + seq!['_'] + decimal(w as nat) + seq!['_'] + decimal(h as nat)
}

/// The abstract state of a cache: the stored images by key, the number of
/// bytes they take together, and the byte capacity.
pub struct CacheState {
    pub entries: Map<Seq<char>, Seq<u8>>,
    pub used: nat,
    pub capacity: nat,
}

impl CacheState {
    /// An image of `len` bytes under `key` is admitted: the key is new and
    /// the image fits in the remaining capacity.
    pub open spec fn admits(self, key: Seq<char>, len: nat) -> bool {
        !self.entries.contains_key(key) && self.used + len <= self.capacity
    }

    /// The state after offering `data` under `key`.
    pub open spec fn after_set(self, key: Seq<char>, data: Seq<u8>) -> CacheState {
        if self.admits(key, data.len()) {
            CacheState {
                entries: self.entries.insert(key, data),
                used: self.used + data.len(),
                capacity: self.capacity,
            }
        } else {
            self
        }
    }

    /// What a lookup of `key` answers.
    pub open spec fn lookup(self, key: Seq<char>) -> Option<Seq<u8>> {
        if self.entries.contains_key(key) {
            Some(self.entries[key])
        } else {
            None
        }
    }
}

/// Reading back what was written: once an image is admitted under a key,
/// a lookup of that key answers that image.
pub proof fn law_lookup_after_admitted_set(s: CacheState, key: Seq<char>, data: Seq<u8>)
    requires
        s.admits(key, data.len()),
    ensures
        s.after_set(key, data).lookup(key) == Some(data),
{
}

/// A cached image is never replaced: offering another image under a key
/// that is already stored leaves the cache as it was.
pub proof fn law_first_write_kept(s: CacheState, key: Seq<char>, data: Seq<u8>)
    requires
        s.entries.contains_key(key),
    ensures
        s.after_set(key, data) == s,
        s.after_set(key, data).lookup(key) == s.lookup(key),
{
}

/// An image that would push the stored total past the capacity is not
/// stored, and the cache is left as it was.
pub proof fn law_full_cache_refuses(s: CacheState, key: Seq<char>, data: Seq<u8>)
    requires
        s.used + data.len() > s.capacity,
    ensures
        s.after_set(key, data) == s,
{
}

/// Offering an image under one key never changes what another key answers.
pub proof fn law_other_keys_untouched(s: CacheState, key: Seq<char>, other: Seq<char>, data: Seq<u8>)
    requires
        other != key,
    ensures
        s.after_set(key, data).lookup(other) == s.lookup(other),
{
}

/// The stored total never grows past the capacity.
pub proof fn law_capacity_respected(s: CacheState, key: Seq<char>, data: Seq<u8>)
    requires
        s.used <= s.capacity,
    ensures
        s.after_set(key, data).used <= s.after_set(key, data).capacity,
        s.after_set(key, data).capacity == s.capacity,
{
}

proof fn lemma_split_last_field(a1: Seq<char>, d1: Seq<char>, a2: Seq<char>, d2: Seq<char>)
    requires
        forall|i: int| 0 <= i < d1.len() ==> d1[i] != '_',
        forall|i: int| 0 <= i < d2.len() ==> d2[i] != '_',
        a1 + seq!['_'] + d1 == a2 + seq!['_'] + d2,
    ensures
        a1 == a2,
        d1 == d2,
{
    let t1 = a1 + seq!['_'];
    let t2 = a2 + seq!['_'];
    let s1 = t1 + d1;
    let s2 = t2 + d2;
    assert(s1.len() == s2.len());
    if d1.len() < d2.len() {
        let i = a1.len() as int;
        assert(s1[i] == t1[i]);
        assert(t1[i] == '_');
        assert(i >= t2.len());
        assert(s2[i] == d2[i - t2.len()]);
        assert(false);
    } else if d2.len() < d1.len() {
        let i = a2.len() as int;
        assert(s2[i] == t2[i]);
        assert(t2[i] == '_');
        assert(i >= t1.len());
        assert(s1[i] == d1[i - t1.len()]);
        assert(false);
    }
    assert(a1.len() == a2.len());
    assert(a1 =~= s1.subrange(0, a1.len() as int));
    assert(a2 =~= s2.subrange(0, a2.len() as int));
    assert(d1 =~= s1.subrange(a1.len() as int + 1, s1.len() as int));
    assert(d2 =~= s2.subrange(a2.len() as int + 1, s2.len() as int));
}

/// Distinct `(name, width, height)` triples have distinct cache keys, so
/// entries for different images or sizes never collide.
pub proof fn lemma_cache_key_injective(n1: Seq<char>, w1: u32, h1: u32, n2: Seq<char>, w2: u32, h2: u32)
    requires
        cache_key(n1, w1, h1) == cache_key(n2, w2, h2),
    ensures
        n1 == n2,
        w1 == w2,
        h1 == h2,
{
    lemma_decimal_no_underscore(w1 as nat);
    lemma_decimal_no_underscore(w2 as nat);
    lemma_decimal_no_underscore(h1 as nat);
    lemma_decimal_no_underscore(h2 as nat);
    lemma_split_last_field(
        n1 + seq!['_'] + decimal(w1 as nat), decimal(h1 as nat),
        n2 + seq!['_'] + decimal(w2 as nat), decimal(h2 as nat),
    );
    lemma_split_last_field(n1, decimal(w1 as nat), n2, decimal(w2 as nat));
    lemma_decimal_injective(w1 as nat, w2 as nat);
    lemma_decimal_injective(h1 as nat, h2 as nat);
}

/// An empty cache of capacity `cap`, as [`ImageCache::new`] makes it.
pub open spec fn empty_state(cap: nat) -> CacheState {
    CacheState { entries: Map::empty(), used: 0, capacity: cap }
}

/// The state after offering, in order, each `(name, width, height, image)`
/// of `offers` to an empty cache of capacity `cap`, as a series of
/// [`ImageCache::set`] calls on a new cache does.
pub open spec fn replay(cap: nat, offers: Seq<(Seq<char>, u32, u32, Seq<u8>)>) -> CacheState
    decreases offers.len(),
{
    if offers.len() == 0 {
        empty_state(cap)
    } else {
        let o = offers.last();
        replay(cap, offers.drop_last()).after_set(cache_key(o.0, o.1, o.2), o.3)
    }
}

/// The image of the first offer of `name` at `w`x`h` in `offers` that the
/// cache accepted (the key was new and the image fitted), if there is one.
pub open spec fn first_accepted(
    cap: nat,
    offers: Seq<(Seq<char>, u32, u32, Seq<u8>)>,
    name: Seq<char>,
    w: u32,
    h: u32,
) -> Option<Seq<u8>>
    decreases offers.len(),
{
    if offers.len() == 0 {
        None
    } else {
        let earlier = first_accepted(cap, offers.drop_last(), name, w, h);
        let o = offers.last();
        if earlier is Some {
            earlier
        } else if o.0 == name && o.1 == w && o.2 == h
            && replay(cap, offers.drop_last()).admits(cache_key(name, w, h), o.3.len()) {
            Some(o.3)
        } else {
            None
        }
    }
}

/// Reading back over a history: after any series of offers to a new cache,
/// a lookup of `name` at `w`x`h` answers the image of the first accepted
/// offer of exactly that `(name, w, h)`, and nothing when there was none.
/// Offers of other triples never affect it.
pub proof fn law_lookup_answers_first_accepted(
    cap: nat,
    offers: Seq<(Seq<char>, u32, u32, Seq<u8>)>,
    name: Seq<char>,
    w: u32,
    h: u32,
)
    ensures
        replay(cap, offers).lookup(cache_key(name, w, h)) == first_accepted(cap, offers, name, w, h),
    decreases offers.len(),
{
    if offers.len() > 0 {
        let prev = offers.drop_last();
        law_lookup_answers_first_accepted(cap, prev, name, w, h);
        let o = offers.last();
        let k = cache_key(name, w, h);
        let ko = cache_key(o.0, o.1, o.2);
        if ko == k {
            lemma_cache_key_injective(o.0, o.1, o.2, name, w, h);
        } else {
            law_other_keys_untouched(replay(cap, prev), ko, k, o.3);
        }
    } else {
        assert(empty_state(cap).entries =~= Map::<Seq<char>, Seq<u8>>::empty());
    }
}

/// The label of a device target in cache entry names.
pub open spec fn target_label(t: DeviceTarget) -> Seq<char> {
    match t {
        DeviceTarget::Phone => "phone"@,
        DeviceTarget::Tablet => "tablet"@,
        DeviceTarget::Desktop => "desktop"@,
    }
}

/// The name under which the image stored at `key` is cached once prepared
/// for device `t`: the target's label, `:`, then the key. The device fixes
/// the encoding quality, so images for different devices are kept apart.
pub open spec fn entry_name_of(key: Seq<char>, t: DeviceTarget) -> Seq<char> {
    target_label(t) + ":"@ + key
}

/// The cache entry name of the image at `key` prepared for device `t`.
pub fn entry_name(key: &str, t: DeviceTarget) -> (r: String)
    ensures
        r@ == entry_name_of(key@, t),
{
    let label = match t {
        DeviceTarget::Phone => "phone:",
        DeviceTarget::Tablet => "tablet:",
        DeviceTarget::Desktop => "desktop:",
    };
    proof {
        reveal_strlit("phone:");
        reveal_strlit("tablet:");
        reveal_strlit("desktop:");
        reveal_strlit("phone");
        reveal_strlit("tablet");
        reveal_strlit("desktop");
        reveal_strlit(":");
        assert("phone"@ + ":"@ =~= "phone:"@);
        assert("tablet"@ + ":"@ =~= "tablet:"@);
        assert("desktop"@ + ":"@ =~= "desktop:"@);
    }
    concat2(label, key)
}

/// Distinct `(key, device)` pairs have distinct entry names, so an image
/// prepared for one device is never served for another.
pub proof fn lemma_entry_name_injective(k1: Seq<char>, t1: DeviceTarget, k2: Seq<char>, t2: DeviceTarget)
    requires
        entry_name_of(k1, t1) == entry_name_of(k2, t2),
    ensures
        k1 == k2,
        t1 == t2,
{
    reveal_strlit("phone");
    reveal_strlit("tablet");
    reveal_strlit("desktop");
    reveal_strlit(":");
    let a = entry_name_of(k1, t1);
    let b = entry_name_of(k2, t2);
    assert(a[0] == target_label(t1)[0]);
    assert(b[0] == target_label(t2)[0]);
    if t1 == t2 {
        let n = target_label(t1).len() + 1;
        assert(k1 =~= a.subrange(n as int, a.len() as int));
        assert(k2 =~= b.subrange(n as int, b.len() as int));
    }
}

/// The total length of the images stored under `keys`.
pub open spec fn total_len(keys: Seq<Seq<char>>, m: Map<Seq<char>, Seq<u8>>) -> nat
    decreases keys.len(),
{
    if keys.len() == 0 {
        0
    } else {
        total_len(keys.drop_last(), m) + m[keys.last()].len()
    }
}

proof fn lemma_total_len_insert_other(keys: Seq<Seq<char>>, m: Map<Seq<char>, Seq<u8>>, k: Seq<char>, v: Seq<u8>)
    requires
        !keys.contains(k),
    ensures
        total_len(keys, m.insert(k, v)) == total_len(keys, m),
    decreases keys.len(),
{
    if keys.len() > 0 {
        assert(keys.drop_last().contains(k) ==> keys.contains(k));
        lemma_total_len_insert_other(keys.drop_last(), m, k, v);
        assert(keys.last() != k) by {
            assert(keys.contains(keys.last()));
        }
    }
}

/// A byte-bounded cache of processed images.
pub struct ImageCache {
    storage: StringHashMap<Vec<u8>>,
    current_size: usize,
    max_size: usize,
    keys: Ghost<Seq<Seq<char>>>,
}

impl View for ImageCache {
    type V = CacheState;

    closed spec fn view(&self) -> CacheState {
        CacheState {
            entries: self.storage@.map_values(|v: Vec<u8>| v@),
            used: self.current_size as nat,
            capacity: self.max_size as nat,
        }
    }
}

impl ImageCache {
    /// The cache is consistent: its byte count is the total size of the
    /// stored images and never exceeds the capacity.
    pub closed spec fn wf(&self) -> bool {
        &&& self.keys@.no_duplicates()
        &&& forall|k: Seq<char>| self.storage@.contains_key(k) <==> self.keys@.contains(k)
        &&& self.current_size as nat == total_len(self.keys@, self@.entries)
        &&& self.current_size <= self.max_size
    }

    /// The total size of the stored images.
    pub closed spec fn stored_bytes(&self) -> nat {
        total_len(self.keys@, self@.entries)
    }

    /// A consistent cache holds exactly `used` bytes of images, and no more
    /// than its capacity.
    pub proof fn lemma_within_capacity(&self)
        requires
            self.wf(),
        ensures
            self@.used == self.stored_bytes(),
            self@.used <= self@.capacity,
    {
    }

    /// An empty cache that holds at most `max_size_bytes` bytes of images.
    pub fn new(max_size_bytes: usize) -> (c: Self)
        ensures
            c.wf(),
            c@ == empty_state(max_size_bytes as nat),
            c@.entries == Map::<Seq<char>, Seq<u8>>::empty(),
            c@.used == 0,
            c@.capacity == max_size_bytes,
    {
        let c = ImageCache {
            storage: StringHashMap::new(),
            current_size: 0,
            max_size: max_size_bytes,
            keys: Ghost(Seq::empty()),
        };
        assert(c@.entries =~= Map::<Seq<char>, Seq<u8>>::empty());
        c
    }

    /// Builds the key of the image `name` processed to `w`x`h`.
    pub fn key(name: &str, w: u32, h: u32) -> (k: String)
        ensures
            k@ == cache_key(name@, w, h),
    {
        let mut k = String::new();
        k.append(name);
        k.append("_");
        push_decimal(&mut k, w);
        k.append("_");
        push_decimal(&mut k, h);
        proof {
            reveal_strlit("_");
        }
        k
    }

    /// The cached image `name` at `w`x`h`, if there is one.
    pub fn get(&self, name: &str, w: u32, h: u32) -> (r: Option<Vec<u8>>)
        requires
            self.wf(),
        ensures
            match r {
                Some(v) => self@.lookup(cache_key(name@, w, h)) == Some(v@),
                None => self@.lookup(cache_key(name@, w, h)) is None,
            },
    {
        let key = Self::key(name, w, h);
        match self.storage.get(key.as_str()) {
            Some(v) => {
                let c = v.clone();
                assert(c@ =~= v@);
                Some(c)
            },
            None => None,
        }
    }

    /// Stores `data` as the image `name` at `w`x`h`, unless an image is
    /// already stored under that key or the cache lacks room for it.
    pub fn set(&mut self, name: &str, w: u32, h: u32, data: Vec<u8>)
        requires
            old(self).wf(),
        ensures
            final(self).wf(),
            final(self)@ == old(self)@.after_set(cache_key(name@, w, h), data@),
    {
        let size = data.len();
        let key = Self::key(name, w, h);
        if self.storage.contains_key(key.as_str()) {
            return;
        }
        let current = self.current_size;
        if size > self.max_size - current {
            return;
        }
        let ghost old_entries = self@.entries;
        let ghost k = key@;
        proof {
            lemma_total_len_insert_other(self.keys@, old_entries, k, data@);
        }
        self.storage.insert(key, data);
        self.current_size = current + size;
        self.keys = Ghost(self.keys@.push(k));
        proof {
            assert(self@.entries =~= old_entries.insert(k, data@));
            assert(self.keys@.drop_last() =~= old(self).keys@);
            assert forall|x: Seq<char>| self.storage@.contains_key(x) <==> self.keys@.contains(x) by {
                if x == k {
                    assert(self.keys@[self.keys@.len() - 1] == k);
                } else if old(self).keys@.contains(x) {
                    let i = choose|i: int| 0 <= i < old(self).keys@.len() && old(self).keys@[i] == x;
                    assert(self.keys@[i] == x);
                } else if self.keys@.contains(x) {
                    let i = choose|i: int| 0 <= i < self.keys@.len() && self.keys@[i] == x;
                    assert(old(self).keys@[i] == x);
                }
            }
            assert(!old(self).keys@.contains(k));
            assert(self.keys@.no_duplicates());
            assert(total_len(self.keys@, self@.entries) == total_len(old(self).keys@, self@.entries) + data@.len());
            assert(total_len(old(self).keys@, self@.entries) == total_len(old(self).keys@, old_entries));
        }
    }

    /// Completes a cache miss: a successfully processed image is offered to
    /// the cache as the image `name` at `w`x`h` and handed back; a failure
    /// leaves the cache as it was and is handed back unchanged.
    pub fn keep_processed(
        &mut self,
        name: &str,
        w: u32,
        h: u32,
        processed: Result<Vec<u8>, ImageProcessingError>,
    ) -> (r: Result<Vec<u8>, ImageProcessingError>)
        requires
            old(self).wf(),
        ensures
            final(self).wf(),
            match processed {
                Ok(d) => r matches Ok(o) && o@ == d@
                    && final(self)@ == old(self)@.after_set(cache_key(name@, w, h), d@),
                Err(e) => r matches Err(x) && x@ == e@ && final(self)@ == old(self)@,
            },
    {
        match processed {
            Ok(d) => {
                let copy = d.clone();
                assert(copy@ =~= d@);
                self.set(name, w, h, copy);
                Ok(d)
            },
            Err(e) => Err(e),
        }
    }
}


/// Admission is complete: an image offered under a key the cache does not
/// hold yet, that fits in the room left, is stored. A lookup of the key then
/// answers it, the byte count grows by its length, and no other key changes.
pub proof fn law_fitting_new_image_is_stored(s: CacheState, key: Seq<char>, data: Seq<u8>)
    requires
        !s.entries.contains_key(key),
        s.used + data.len() <= s.capacity,
    ensures
        s.after_set(key, data).lookup(key) == Some(data),
        s.after_set(key, data).used == s.used + data.len(),
        s.after_set(key, data).entries == s.entries.insert(key, data),
        s.after_set(key, data).capacity == s.capacity,
{
}

/// An offer is refused exactly when the key is already held or the image
/// does not fit in the room left; a refused offer changes nothing.
pub proof fn law_refused_exactly_when_held_or_too_large(s: CacheState, key: Seq<char>, data: Seq<u8>)
    ensures
        (s.after_set(key, data) == s) <== (s.entries.contains_key(key) || s.used + data.len() > s.capacity),
        (!s.entries.contains_key(key) && s.used + data.len() <= s.capacity)
            ==> s.after_set(key, data).lookup(key) == Some(data),
{
}

} // verus!
