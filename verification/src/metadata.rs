//! The key-value metadata of a model: a map from keys to values whose
//! entries are kept in increasing order of the keys' UTF-8 bytes, the order
//! in which a `BTreeMap<String, _>` lists them.
use vstd::prelude::*;
use vstd::utf8::encode_utf8;

use crate::value::{MetaView, MetadataValue};

verus! {

broadcast use vstd::utf8::encode_utf8_decode_utf8;

/// `a` and `b` agree on their first `i` bytes.
pub open spec fn agree_below(a: Seq<u8>, b: Seq<u8>, i: int) -> bool {
    forall|j: int| 0 <= j < i ==> a[j] == b[j]
}

/// `i` is where `a` first falls below `b`: both agree before it, and there
/// `a` has ended while `b` goes on, or `a` has the smaller byte.
pub open spec fn below_at(a: Seq<u8>, b: Seq<u8>, i: int) -> bool {
    &&& 0 <= i <= a.len()
    &&& i <= b.len()
    &&& agree_below(a, b, i)
    &&& if i == a.len() {
        i < b.len()
    } else {
        i < b.len() && a[i] < b[i]
    }
}

/// `a` comes strictly before `b` in lexicographic byte order.
pub open spec fn bytes_lt(a: Seq<u8>, b: Seq<u8>) -> bool {
    exists|i: int| below_at(a, b, i)
}

/// Key `a` comes strictly before key `b`: byte order of their UTF-8
/// encodings, which is the order of `String`'s `Ord`.
pub open spec fn key_lt(a: Seq<char>, b: Seq<char>) -> bool {
    bytes_lt(encode_utf8(a), encode_utf8(b))
}

/// The keys of `e` strictly increase.
pub open spec fn sorted_keys(e: Seq<(Seq<char>, MetaView)>) -> bool {
    forall|i: int, j: int| 0 <= i < j < e.len() ==> key_lt(#[trigger] e[i].0, #[trigger] e[j].0)
}

/// `k` is the key of some entry of `e`.
pub open spec fn has_key(e: Seq<(Seq<char>, MetaView)>, k: Seq<char>) -> bool {
    exists|i: int| 0 <= i < e.len() && #[trigger] e[i].0 == k
}

/// The map that the entries `e` list.
pub open spec fn entries_map(e: Seq<(Seq<char>, MetaView)>) -> Map<Seq<char>, MetaView> {
    Map::new(
        |k: Seq<char>| has_key(e, k),
        |k: Seq<char>| e[choose|i: int| 0 <= i < e.len() && #[trigger] e[i].0 == k].1,
    )
}

/// The map that putting the entries `kvs` one after the other into an
/// empty map gives: for a key that occurs more than once, the last value.
pub open spec fn fold_entries(kvs: Seq<(Seq<char>, MetaView)>) -> Map<Seq<char>, MetaView>
    decreases kvs.len(),
{
    if kvs.len() == 0 {
        Map::empty()
    } else {
        fold_entries(kvs.drop_last()).insert(kvs.last().0, kvs.last().1)
    }
}

/// The contents of a vector of entries.
pub open spec fn entries_view(v: Seq<(String, MetadataValue)>) -> Seq<(Seq<char>, MetaView)> {
    v.map_values(|p: (String, MetadataValue)| (p.0@, p.1@))
}

/// No byte sequence comes before itself.
pub proof fn lemma_bytes_lt_irreflexive(a: Seq<u8>)
    ensures
        !bytes_lt(a, a),
{
    if bytes_lt(a, a) {
        let i = choose|i: int| below_at(a, a, i);
        assert(below_at(a, a, i));
    }
}

/// Byte order is transitive.
pub proof fn lemma_bytes_lt_transitive(a: Seq<u8>, b: Seq<u8>, c: Seq<u8>)
    requires
        bytes_lt(a, b),
        bytes_lt(b, c),
    ensures
        bytes_lt(a, c),
{
    let i = choose|i: int| below_at(a, b, i);
    let j = choose|j: int| below_at(b, c, j);
    if i < j {
        assert(below_at(a, c, i));
    } else if j < i {
        assert(below_at(a, c, j));
    } else {
        assert(below_at(a, c, i));
    }
}

/// Two keys with the same UTF-8 encoding are the same key.
pub proof fn lemma_key_bytes_injective(a: Seq<char>, b: Seq<char>)
    requires
        encode_utf8(a) == encode_utf8(b),
    ensures
        a == b,
{
    assert(vstd::utf8::decode_utf8(encode_utf8(a)) == a);
    assert(vstd::utf8::decode_utf8(encode_utf8(b)) == b);
}

/// Key order is transitive.
pub proof fn lemma_key_lt_transitive(a: Seq<char>, b: Seq<char>, c: Seq<char>)
    requires
        key_lt(a, b),
        key_lt(b, c),
    ensures
        key_lt(a, c),
{
    lemma_bytes_lt_transitive(encode_utf8(a), encode_utf8(b), encode_utf8(c));
}

/// No key comes before itself.
pub proof fn lemma_key_lt_irreflexive(a: Seq<char>)
    ensures
        !key_lt(a, a),
{
    lemma_bytes_lt_irreflexive(encode_utf8(a));
}

/// In entries with increasing keys, a key stands at one place only, and
/// the map gives the value that stands there.
pub proof fn lemma_sorted_lookup(e: Seq<(Seq<char>, MetaView)>, i: int)
    requires
        sorted_keys(e),
        0 <= i < e.len(),
    ensures
        entries_map(e).contains_key(e[i].0),
        entries_map(e)[e[i].0] == e[i].1,
        forall|j: int| 0 <= j < e.len() && e[j].0 == e[i].0 ==> j == i,
{
    assert forall|j: int| 0 <= j < e.len() && e[j].0 == e[i].0 implies j == i by {
        if j < i {
            assert(key_lt(e[j].0, e[i].0));
            lemma_key_lt_irreflexive(e[i].0);
        } else if i < j {
            assert(key_lt(e[i].0, e[j].0));
            lemma_key_lt_irreflexive(e[i].0);
        }
    }
    assert(has_key(e, e[i].0));
}

/// Without its first entry, sorted entries list the map without the first
/// key.
proof fn lemma_map_drop_first(e: Seq<(Seq<char>, MetaView)>)
    requires
        sorted_keys(e),
        e.len() > 0,
    ensures
        sorted_keys(e.drop_first()),
        entries_map(e.drop_first()) == entries_map(e).remove(e[0].0),
{
    let t = e.drop_first();
    assert forall|i: int, j: int| 0 <= i < j < t.len() implies key_lt(#[trigger] t[i].0, #[trigger] t[j].0) by {
        assert(t[i] == e[i + 1] && t[j] == e[j + 1]);
    }
    assert forall|k: Seq<char>| #[trigger] has_key(t, k) == (has_key(e, k) && k != e[0].0) by {
        if has_key(t, k) {
            let j = choose|j: int| 0 <= j < t.len() && #[trigger] t[j].0 == k;
            assert(e[j + 1].0 == k);
            lemma_sorted_lookup(e, j + 1);
        }
        if has_key(e, k) && k != e[0].0 {
            let j = choose|j: int| 0 <= j < e.len() && #[trigger] e[j].0 == k;
            assert(t[j - 1].0 == k);
        }
    }
    assert forall|k: Seq<char>| has_key(t, k) implies entries_map(t)[k] == entries_map(e)[k] by {
        let j = choose|j: int| 0 <= j < t.len() && #[trigger] t[j].0 == k;
        lemma_sorted_lookup(t, j);
        assert(e[j + 1] == t[j]);
        lemma_sorted_lookup(e, j + 1);
    }
    assert(entries_map(t) =~= entries_map(e).remove(e[0].0));
}

/// Entries whose keys strictly increase are fixed by the map they list:
/// two such listings of the same map are the same, the map's contents in
/// key order.
pub proof fn law_entries_determined(e1: Seq<(Seq<char>, MetaView)>, e2: Seq<(Seq<char>, MetaView)>)
    requires
        sorted_keys(e1),
        sorted_keys(e2),
        entries_map(e1) == entries_map(e2),
    ensures
        e1 == e2,
    decreases e1.len(),
{
    if e1.len() == 0 || e2.len() == 0 {
        if e2.len() > 0 {
            assert(has_key(e2, e2[0].0));
            assert(entries_map(e2).contains_key(e2[0].0));
        }
        if e1.len() > 0 {
            assert(has_key(e1, e1[0].0));
            assert(entries_map(e1).contains_key(e1[0].0));
        }
        assert(e1 =~= e2);
    } else {
        let k1 = e1[0].0;
        let k2 = e2[0].0;
        lemma_sorted_lookup(e1, 0);
        lemma_sorted_lookup(e2, 0);
        assert(entries_map(e2).contains_key(k1));
        assert(entries_map(e1).contains_key(k2));
        let j = choose|j: int| 0 <= j < e2.len() && #[trigger] e2[j].0 == k1;
        let i = choose|i: int| 0 <= i < e1.len() && #[trigger] e1[i].0 == k2;
        if j > 0 && i > 0 {
            assert(key_lt(k2, k1));
            assert(key_lt(k1, k2));
            lemma_key_lt_transitive(k1, k2, k1);
            lemma_key_lt_irreflexive(k1);
        }
        assert(k1 == k2);
        assert(e1[0].1 == e2[0].1);
        lemma_map_drop_first(e1);
        lemma_map_drop_first(e2);
        law_entries_determined(e1.drop_first(), e2.drop_first());
        assert(e1 =~= seq![e1[0]] + e1.drop_first());
        assert(e2 =~= seq![e2[0]] + e2.drop_first());
    }
}

/// Where a key comes out when compared with another.
pub enum LexOrder {
    Before,
    Same,
    After,
}

/// Compares two byte strings in lexicographic order.
pub fn lex_order(a: &[u8], b: &[u8]) -> (r: LexOrder)
    ensures
        r is Before <==> bytes_lt(a@, b@),
        r is Same <==> a@ == b@,
        r is After <==> bytes_lt(b@, a@),
{
    let n = if a.len() < b.len() {
        a.len()
    } else {
        b.len()
    };
    let mut i: usize = 0;
    while i < n
        invariant
            n <= a.len(),
            n <= b.len(),
            n == a.len() || n == b.len(),
            i <= n,
            agree_below(a@, b@, i as int),
        decreases n - i,
    {
        if a[i] < b[i] {
            assert(below_at(a@, b@, i as int));
            proof {
                lemma_bytes_lt_irreflexive(a@);
                if bytes_lt(b@, a@) {
                    lemma_bytes_lt_transitive(a@, b@, a@);
                }
            }
            return LexOrder::Before;
        }
        if a[i] > b[i] {
            assert(agree_below(b@, a@, i as int));
            assert(below_at(b@, a@, i as int));
            proof {
                lemma_bytes_lt_irreflexive(a@);
                if bytes_lt(a@, b@) {
                    lemma_bytes_lt_transitive(a@, b@, a@);
                }
            }
            return LexOrder::After;
        }
        i = i + 1;
    }
    proof {
        lemma_bytes_lt_irreflexive(a@);
        lemma_bytes_lt_irreflexive(b@);
    }
    if a.len() < b.len() {
        assert(below_at(a@, b@, i as int));
        proof {
            if bytes_lt(b@, a@) {
                lemma_bytes_lt_transitive(a@, b@, a@);
            }
        }
        LexOrder::Before
    } else if b.len() < a.len() {
        assert(agree_below(b@, a@, i as int));
        assert(below_at(b@, a@, i as int));
        proof {
            if bytes_lt(a@, b@) {
                lemma_bytes_lt_transitive(a@, b@, a@);
            }
        }
        LexOrder::After
    } else {
        assert(a@ =~= b@);
        LexOrder::Same
    }
}

/// Compares two keys in the order of their UTF-8 bytes.
fn key_order(a: &str, b: &str) -> (r: LexOrder)
    ensures
        r is Before <==> key_lt(a@, b@),
        r is Same <==> a@ == b@,
        r is After <==> key_lt(b@, a@),
{
    let r = lex_order(a.as_bytes(), b.as_bytes());
    proof {
        if encode_utf8(a@) == encode_utf8(b@) {
            lemma_key_bytes_injective(a@, b@);
        }
    }
    r
}

/// Key-value metadata of a GGUF file: each key at most once, entries in
/// increasing order of their keys.
#[derive(Debug)]
pub struct MetadataMap {
    entries: Vec<(String, MetadataValue)>,
}

impl MetadataMap {
    #[verifier::type_invariant]
    spec fn well_formed(self) -> bool {
        sorted_keys(entries_view(self.entries@))
    }

    /// The entries, in increasing order of their keys.
    pub closed spec fn entries_spec(&self) -> Seq<(Seq<char>, MetaView)> {
        entries_view(self.entries@)
    }

    /// The map from keys to values.
    pub open spec fn view(&self) -> Map<Seq<char>, MetaView> {
        entries_map(self.entries_spec())
    }

    /// An empty map.
    pub fn new() -> (r: MetadataMap)
        ensures
            r.entries_spec() == Seq::<(Seq<char>, MetaView)>::empty(),
            r@ == Map::<Seq<char>, MetaView>::empty(),
    {
        let r = MetadataMap { entries: Vec::new() };
        assert(r.entries_spec() =~= Seq::<(Seq<char>, MetaView)>::empty());
        assert(r@ =~= Map::<Seq<char>, MetaView>::empty());
        r
    }

    /// The number of keys.
    pub fn len(&self) -> (r: usize)
        ensures
            r == self.entries_spec().len(),
    {
        self.entries.len()
    }

    /// There are no keys.
    pub fn is_empty(&self) -> (r: bool)
        ensures
            r == (self.entries_spec().len() == 0),
    {
        self.entries.len() == 0
    }

    /// The entries, in increasing order of their keys.
    pub fn entries(&self) -> (r: &Vec<(String, MetadataValue)>)
        ensures
            entries_view(r@) == self.entries_spec(),
            sorted_keys(entries_view(r@)),
    {
        proof {
            use_type_invariant(self);
        }
        &self.entries
    }

    /// The entries, in increasing order of their keys.
    pub fn into_entries(self) -> (r: Vec<(String, MetadataValue)>)
        ensures
            entries_view(r@) == self.entries_spec(),
            sorted_keys(entries_view(r@)),
    {
        proof {
            use_type_invariant(&self);
        }
        self.entries
    }

    /// The place of `key` among the entries, if it has one.
    fn position(&self, key: &str) -> (r: Option<usize>)
        ensures
            match r {
                Some(i) => i < self.entries_spec().len() && self.entries_spec()[i as int].0 == key@,
                None => !has_key(self.entries_spec(), key@),
            },
    {
        let mut i: usize = 0;
        while i < self.entries.len()
            invariant
                i <= self.entries@.len(),
                forall|j: int| 0 <= j < i ==> #[trigger] self.entries@[j].0@ != key@,
            decreases self.entries@.len() - i,
        {
            match key_order(self.entries[i].0.as_str(), key) {
                LexOrder::Same => {
                    return Some(i);
                },
                _ => {},
            }
            i = i + 1;
        }
        proof {
            if has_key(self.entries_spec(), key@) {
                let j = choose|j: int| 0 <= j < self.entries_spec().len() && #[trigger] self.entries_spec()[j].0 == key@;
                assert(self.entries@[j].0@ == key@);
            }
        }
        None
    }

    /// The value under `key`, if any.
    pub fn get(&self, key: &str) -> (r: Option<&MetadataValue>)
        ensures
            match r {
                Some(v) => self@.contains_key(key@) && v@ == self@[key@],
                None => !self@.contains_key(key@),
            },
    {
        proof {
            use_type_invariant(self);
        }
        match self.position(key) {
            Some(i) => {
                proof {
                    lemma_sorted_lookup(self.entries_spec(), i as int);
                }
                Some(&self.entries[i].1)
            },
            None => None,
        }
    }

    /// There is a value under `key`.
    pub fn contains_key(&self, key: &str) -> (r: bool)
        ensures
            r == self@.contains_key(key@),
    {
        match self.get(key) {
            Some(_) => true,
            None => false,
        }
    }

    /// Puts `value` under `key`, in place of the value that was there.
    pub fn insert(&mut self, key: String, value: MetadataValue)
        ensures
            final(self)@ == old(self)@.insert(key@, value@),
    {
        proof {
            use_type_invariant(&*self);
        }
        let ghost e = self.entries_spec();
        let mut i: usize = 0;
        let mut found = false;
        while i < self.entries.len()
            invariant_except_break
                !found,
            invariant
                e == entries_view(self.entries@),
                sorted_keys(e),
                i <= e.len(),
                forall|j: int| 0 <= j < i ==> key_lt(#[trigger] e[j].0, key@),
            ensures
                e == entries_view(self.entries@),
                i <= e.len(),
                forall|j: int| 0 <= j < i ==> key_lt(#[trigger] e[j].0, key@),
                found ==> i < e.len() && e[i as int].0 == key@,
                !found && i < e.len() ==> key_lt(key@, e[i as int].0),
            decreases e.len() - i,
        {
            match key_order(self.entries[i].0.as_str(), key.as_str()) {
                LexOrder::Before => {
                    i = i + 1;
                },
                LexOrder::Same => {
                    found = true;
                    break;
                },
                LexOrder::After => {
                    break;
                },
            }
        }
        let ghost kv = (key@, value@);
        if found {
            let ghost e2 = e.update(i as int, kv);
            proof {
                assert forall|a: int, b: int| 0 <= a < b < e2.len() implies key_lt(#[trigger] e2[a].0, #[trigger] e2[b].0) by {
                    assert(e2[a].0 == e[a].0 && e2[b].0 == e[b].0);
                }
                self.lemma_update_map(e, i as int, kv);
            }
            let mut entries: Vec<(String, MetadataValue)> = Vec::new();
            std::mem::swap(&mut entries, &mut self.entries);
            entries.set(i, (key, value));
            assert(entries_view(entries@) =~= e2);
            self.entries = entries;
        } else {
            let ghost e2 = e.insert(i as int, kv);
            proof {
                assert forall|a: int, b: int| 0 <= a < b < e2.len() implies key_lt(#[trigger] e2[a].0, #[trigger] e2[b].0) by {
                    if b < i {
                    } else if b == i {
                    } else if a < i {
                        lemma_key_lt_transitive(e2[a].0, key@, e[i as int].0);
                        if b - 1 > i {
                            lemma_key_lt_transitive(e2[a].0, e[i as int].0, e[b - 1].0);
                        }
                    } else if a == i {
                        if b - 1 > i {
                            lemma_key_lt_transitive(key@, e[i as int].0, e[b - 1].0);
                        }
                    } else {
                        assert(e2[a].0 == e[a - 1].0 && e2[b].0 == e[b - 1].0);
                    }
                }
                self.lemma_insert_map(e, i as int, kv);
            }
            let mut entries: Vec<(String, MetadataValue)> = Vec::new();
            std::mem::swap(&mut entries, &mut self.entries);
            entries.insert(i, (key, value));
            assert(entries_view(entries@) =~= e2);
            self.entries = entries;
        }
    }

    proof fn lemma_update_map(&self, e: Seq<(Seq<char>, MetaView)>, i: int, kv: (Seq<char>, MetaView))
        requires
            sorted_keys(e),
            0 <= i < e.len(),
            e[i].0 == kv.0,
            sorted_keys(e.update(i, kv)),
        ensures
            entries_map(e.update(i, kv)) == entries_map(e).insert(kv.0, kv.1),
    {
        let e2 = e.update(i, kv);
        lemma_sorted_lookup(e2, i);
        assert forall|k: Seq<char>| #[trigger] has_key(e2, k) == (has_key(e, k) || k == kv.0) by {
            if has_key(e, k) {
                let j = choose|j: int| 0 <= j < e.len() && #[trigger] e[j].0 == k;
                assert(e2[j].0 == k);
            }
            if has_key(e2, k) {
                let j = choose|j: int| 0 <= j < e2.len() && #[trigger] e2[j].0 == k;
                assert(e[j].0 == k);
            }
        }
        assert forall|k: Seq<char>| has_key(e2, k) && k != kv.0 implies entries_map(e2)[k] == entries_map(e)[k] by {
            let j = choose|j: int| 0 <= j < e2.len() && #[trigger] e2[j].0 == k;
            lemma_sorted_lookup(e2, j);
            lemma_sorted_lookup(e, j);
        }
        assert(entries_map(e2) =~= entries_map(e).insert(kv.0, kv.1));
    }

    proof fn lemma_insert_map(&self, e: Seq<(Seq<char>, MetaView)>, i: int, kv: (Seq<char>, MetaView))
        requires
            sorted_keys(e),
            0 <= i <= e.len(),
            !has_key(e, kv.0),
            sorted_keys(e.insert(i, kv)),
        ensures
            entries_map(e.insert(i, kv)) == entries_map(e).insert(kv.0, kv.1),
    {
        let e2 = e.insert(i, kv);
        lemma_sorted_lookup(e2, i);
        assert forall|k: Seq<char>| #[trigger] has_key(e2, k) == (has_key(e, k) || k == kv.0) by {
            if has_key(e, k) {
                let j = choose|j: int| 0 <= j < e.len() && #[trigger] e[j].0 == k;
                if j < i {
                    assert(e2[j].0 == k);
                } else {
                    assert(e2[j + 1].0 == k);
                }
            }
            if has_key(e2, k) {
                let j = choose|j: int| 0 <= j < e2.len() && #[trigger] e2[j].0 == k;
                if j < i {
                    assert(e[j].0 == k);
                } else if j > i {
                    assert(e[j - 1].0 == k);
                }
            }
        }
        assert forall|k: Seq<char>| has_key(e2, k) && k != kv.0 implies entries_map(e2)[k] == entries_map(e)[k] by {
            let j = choose|j: int| 0 <= j < e2.len() && #[trigger] e2[j].0 == k;
            lemma_sorted_lookup(e2, j);
            if j < i {
                lemma_sorted_lookup(e, j);
            } else {
                lemma_sorted_lookup(e, j - 1);
            }
        }
        assert(entries_map(e2) =~= entries_map(e).insert(kv.0, kv.1));
    }
}

} // verus!
