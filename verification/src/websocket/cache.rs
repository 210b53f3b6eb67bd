//! The keyed caches of the stream handlers, held in `ahash` hash maps.

use vstd::prelude::*;

use crate::http::parse::ArchitectPerpInstrument;
use crate::websocket::messages::OrderMetadata;

verus! {

#[verifier::external_type_specification]
#[verifier::external_body]
pub struct ExRandomState(ahash::RandomState);

#[verifier::external_type_specification]
#[verifier::external_body]
#[verifier::reject_recursive_types(K)]
#[verifier::reject_recursive_types(V)]
#[verifier::reject_recursive_types(S)]
pub struct ExAHashMap<K, V, S>(ahash::AHashMap<K, V, S>);

/// The entries of an instrument cache, keyed by symbol.
pub uninterp spec fn instrument_entries(
    m: ahash::AHashMap<String, ArchitectPerpInstrument>,
) -> Map<Seq<char>, ArchitectPerpInstrument>;

/// The entries of a pending-order table, keyed by request ID, each holding
/// the client order ID and the symbol.
pub uninterp spec fn pending_order_entries(
    m: ahash::AHashMap<i64, OrderMetadata>,
) -> Map<i64, (Seq<char>, Seq<char>)>;

/// Calls `ahash::AHashMap::new`: an empty map.
#[verifier::external_body]
fn new_instrument_map() -> (res: ahash::AHashMap<String, ArchitectPerpInstrument>)
    ensures
        forall|k: Seq<char>| !instrument_entries(res).contains_key(k),
{
    ahash::AHashMap::new()
}

/// Calls `ahash::AHashMap::insert`: the key now maps to the value, the other
/// entries are unchanged.
#[verifier::external_body]
fn instrument_map_insert(
    m: &mut ahash::AHashMap<String, ArchitectPerpInstrument>,
    key: String,
    value: ArchitectPerpInstrument,
)
    ensures
        instrument_entries(*final(m)) == instrument_entries(*old(m)).insert(key@, value),
{
    m.insert(key, value);
}

/// Calls `ahash::AHashMap::get`: the value the key maps to, if any.
#[verifier::external_body]
fn instrument_map_get<'a>(
    m: &'a ahash::AHashMap<String, ArchitectPerpInstrument>,
    key: &str,
) -> (res: Option<&'a ArchitectPerpInstrument>)
    ensures
        res is Some <==> instrument_entries(*m).contains_key(key@),
        res matches Some(v) ==> *v == instrument_entries(*m)[key@],
{
    m.get(key)
}

/// Calls `ahash::AHashMap::new`: an empty map.
#[verifier::external_body]
fn new_pending_map() -> (res: ahash::AHashMap<i64, OrderMetadata>)
    ensures
        forall|k: i64| !pending_order_entries(res).contains_key(k),
{
    ahash::AHashMap::new()
}

/// Calls `ahash::AHashMap::insert`: the key now maps to the value, the other
/// entries are unchanged.
#[verifier::external_body]
fn pending_map_insert(m: &mut ahash::AHashMap<i64, OrderMetadata>, key: i64, value: OrderMetadata)
    ensures
        pending_order_entries(*final(m)) == pending_order_entries(*old(m)).insert(
            key,
            (value.client_order_id@, value.symbol@),
        ),
{
    m.insert(key, value);
}

/// Calls `ahash::AHashMap::remove`: the key no longer maps to anything, the
/// other entries are unchanged.
#[verifier::external_body]
fn pending_map_remove(m: &mut ahash::AHashMap<i64, OrderMetadata>, key: i64)
    ensures
        pending_order_entries(*final(m)) == pending_order_entries(*old(m)).remove(key),
{
    m.remove(&key);
}

/// Calls `ahash::AHashMap::get`: the value the key maps to, if any.
#[verifier::external_body]
fn pending_map_get<'a>(m: &'a ahash::AHashMap<i64, OrderMetadata>, key: i64) -> (res: Option<
    &'a OrderMetadata,
>)
    ensures
        res is Some <==> pending_order_entries(*m).contains_key(key),
        res matches Some(v) ==> (v.client_order_id@, v.symbol@) == pending_order_entries(*m)[key],
{
    m.get(&key)
}

/// The entries after caching each instrument of `s` in turn under its symbol
/// (a later instrument replaces an earlier one with the same symbol).
pub open spec fn cache_all(
    m: Map<Seq<char>, ArchitectPerpInstrument>,
    s: Seq<ArchitectPerpInstrument>,
) -> Map<Seq<char>, ArchitectPerpInstrument>
    decreases s.len(),
{
    if s.len() == 0 {
        m
    } else {
        cache_all(m, s.drop_last()).insert(s.last().symbol@, s.last())
    }
}

/// Law: after caching a list of instruments, an instrument of the list that
/// no later instrument of the list replaces is cached under its symbol.
pub proof fn law_cache_all_last_wins(
    m: Map<Seq<char>, ArchitectPerpInstrument>,
    s: Seq<ArchitectPerpInstrument>,
    i: int,
)
    requires
        0 <= i < s.len(),
        forall|j: int| i < j < s.len() ==> (#[trigger] s[j]).symbol@ != s[i].symbol@,
    ensures
        cache_all(m, s).contains_key(s[i].symbol@),
        cache_all(m, s)[s[i].symbol@] == s[i],
    decreases s.len(),
{
    if i < s.len() - 1 {
        let t = s.drop_last();
        assert forall|j: int| i < j < t.len() implies (#[trigger] t[j]).symbol@ != t[i].symbol@ by {
            assert(t[j] == s[j]);
        }
        law_cache_all_last_wins(m, t, i);
        assert(s.last() == s[s.len() - 1]);
    }
}

/// Law: after caching a list of instruments, the symbol of every instrument
/// of the list is cached.
pub proof fn law_cache_all_contains_each(
    m: Map<Seq<char>, ArchitectPerpInstrument>,
    s: Seq<ArchitectPerpInstrument>,
)
    ensures
        forall|i: int| 0 <= i < s.len() ==> cache_all(m, s).contains_key(#[trigger] s[i].symbol@),
    decreases s.len(),
{
    if s.len() > 0 {
        let t = s.drop_last();
        law_cache_all_contains_each(m, t);
        assert forall|i: int| 0 <= i < s.len() implies cache_all(m, s).contains_key(
            #[trigger] s[i].symbol@,
        ) by {
            if i < s.len() - 1 {
                assert(t[i] == s[i]);
                assert(cache_all(m, t).contains_key(t[i].symbol@));
            }
        }
    }
}

/// Law: caching a list of instruments leaves the entry of a symbol that no
/// instrument of the list has as it was.
pub proof fn law_cache_all_keeps_others(
    m: Map<Seq<char>, ArchitectPerpInstrument>,
    s: Seq<ArchitectPerpInstrument>,
    k: Seq<char>,
)
    requires
        forall|j: int| 0 <= j < s.len() ==> (#[trigger] s[j]).symbol@ != k,
    ensures
        cache_all(m, s).contains_key(k) == m.contains_key(k),
        m.contains_key(k) ==> cache_all(m, s)[k] == m[k],
    decreases s.len(),
{
    if s.len() > 0 {
        let t = s.drop_last();
        assert forall|j: int| 0 <= j < t.len() implies (#[trigger] t[j]).symbol@ != k by {
            assert(t[j] == s[j]);
        }
        law_cache_all_keeps_others(m, t, k);
        assert(s.last() == s[s.len() - 1]);
    }
}

/// Instruments keyed by symbol.
pub struct InstrumentCache {
    map: ahash::AHashMap<String, ArchitectPerpInstrument>,
}

impl InstrumentCache {
    /// The cached instruments, keyed by symbol.
    pub closed spec fn entries(&self) -> Map<Seq<char>, ArchitectPerpInstrument> {
        instrument_entries(self.map)
    }

    /// Creates an empty cache.
    pub fn new() -> (c: Self)
        ensures
            c.entries() == Map::<Seq<char>, ArchitectPerpInstrument>::empty(),
    {
        let c = InstrumentCache { map: new_instrument_map() };
        assert(c.entries() =~= Map::<Seq<char>, ArchitectPerpInstrument>::empty());
        c
    }

    /// Caches an instrument under its symbol, replacing any earlier one.
    pub fn insert(&mut self, instrument: ArchitectPerpInstrument)
        ensures
            final(self).entries() == old(self).entries().insert(instrument.symbol@, instrument),
    {
        let key = instrument.symbol.clone();
        instrument_map_insert(&mut self.map, key, instrument);
    }

    /// Caches each instrument in turn under its symbol.
    pub fn insert_all(&mut self, instruments: Vec<ArchitectPerpInstrument>)
        ensures
            final(self).entries() == cache_all(old(self).entries(), instruments@),
            forall|i: int| 0 <= i < instruments@.len() ==> final(self).entries().contains_key(
                #[trigger] instruments@[i].symbol@,
            ),
    {
        let ghost orig = instruments@;
        let ghost start = self.entries();
        let mut rest = instruments;
        let n = rest.len();
        let mut k: usize = 0;
        assert(orig.take(0) =~= Seq::<ArchitectPerpInstrument>::empty());
        assert(orig.skip(0) =~= orig);
        while rest.len() > 0
            invariant
                k <= orig.len(),
                rest@ == orig.skip(k as int),
                k + rest@.len() == orig.len(),
                orig.len() == n,
                self.entries() == cache_all(start, orig.take(k as int)),
            decreases rest.len(),
        {
            let inst = rest.remove(0);
            proof {
                assert(orig.take(k + 1).drop_last() =~= orig.take(k as int));
                assert(orig.take(k + 1).last() == orig[k as int]);
                assert(orig.skip(k + 1) =~= orig.skip(k as int).drop_first());
            }
            self.insert(inst);
            k = k + 1;
        }
        assert(orig.take(k as int) =~= orig);
        proof {
            law_cache_all_contains_each(start, orig);
        }
    }

    /// Looks up the instrument of a symbol.
    pub fn get(&self, symbol: &str) -> (res: Option<&ArchitectPerpInstrument>)
        ensures
            res is Some <==> self.entries().contains_key(symbol@),
            res matches Some(v) ==> *v == self.entries()[symbol@],
    {
        instrument_map_get(&self.map, symbol)
    }
}

/// Order requests awaiting their response, keyed by request ID.
pub struct PendingOrders {
    map: ahash::AHashMap<i64, OrderMetadata>,
}

impl PendingOrders {
    /// The pending requests: request ID to (client order ID, symbol).
    pub closed spec fn entries(&self) -> Map<i64, (Seq<char>, Seq<char>)> {
        pending_order_entries(self.map)
    }

    /// Creates an empty table.
    pub fn new() -> (p: Self)
        ensures
            p.entries() == Map::<i64, (Seq<char>, Seq<char>)>::empty(),
    {
        let p = PendingOrders { map: new_pending_map() };
        assert(p.entries() =~= Map::<i64, (Seq<char>, Seq<char>)>::empty());
        p
    }

    /// Records a request, replacing any earlier one with the same ID.
    pub fn insert(&mut self, request_id: i64, metadata: OrderMetadata)
        ensures
            final(self).entries() == old(self).entries().insert(
                request_id,
                (metadata.client_order_id@, metadata.symbol@),
            ),
    {
        pending_map_insert(&mut self.map, request_id, metadata);
    }

    /// Forgets a request.
    pub fn remove(&mut self, request_id: i64)
        ensures
            final(self).entries() == old(self).entries().remove(request_id),
    {
        pending_map_remove(&mut self.map, request_id);
    }

    /// Looks up a request.
    pub fn get(&self, request_id: i64) -> (res: Option<&OrderMetadata>)
        ensures
            res is Some <==> self.entries().contains_key(request_id),
            res matches Some(v) ==> (v.client_order_id@, v.symbol@) == self.entries()[request_id],
    {
        pending_map_get(&self.map, request_id)
    }
}

} // verus!
