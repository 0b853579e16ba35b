//! What the library asks of the storage engine, and a model of the engine to
//! state it over.
//!
//! The engine holds two column families, each an ordered map from byte
//! strings to byte strings. The library never touches the engine: it hands its
//! caller writes to commit, keys to read and scans to run, and is told what the
//! engine answered. The model here says what a conforming engine does with
//! them; the laws of the other modules are proved against it.

use vstd::prelude::*;

use crate::lex::{lemma_lex_irreflexive, lemma_lex_total, lex_le, lex_lt};
use crate::options::{extracted_prefix, prefix_in_domain};

verus! {

/// One of the engine's two column families.
#[derive(Clone, Copy, Debug, PartialEq, Eq, Structural)]
pub enum ColumnFamily {
    /// The family named `default`: the user's keys and values.
    Main,
    /// The family named `log`: the operation log.
    Log,
}

impl ColumnFamily {
    /// The name under which the engine knows the family.
    pub fn name(self) -> (name: &'static str)
        ensures
            name@ == (match self {
                ColumnFamily::Main => "default"@,
                ColumnFamily::Log => "log"@,
            }),
    {
        match self {
            ColumnFamily::Main => "default",
            ColumnFamily::Log => "log",
        }
    }
}

/// One write of a batch, as the engine is to apply it.
#[derive(Clone, Debug, PartialEq, Eq)]
pub enum WriteOp {
    /// Store `value` under `key`, replacing what was there.
    Put { cf: ColumnFamily, key: Vec<u8>, value: Vec<u8> },
    /// Remove `key`, if it is there.
    Delete { cf: ColumnFamily, key: Vec<u8> },
}

/// A write, as contracts speak of it.
pub enum Write {
    Put { cf: ColumnFamily, key: Seq<u8>, value: Seq<u8> },
    Delete { cf: ColumnFamily, key: Seq<u8> },
}

impl Write {
    /// The family that the write goes to.
    pub open spec fn cf(self) -> ColumnFamily {
        match self {
            Write::Put { cf, .. } => cf,
            Write::Delete { cf, .. } => cf,
        }
    }

    /// The key that the write is about.
    pub open spec fn key(self) -> Seq<u8> {
        match self {
            Write::Put { key, .. } => key,
            Write::Delete { key, .. } => key,
        }
    }
}

impl View for WriteOp {
    type V = Write;

    open spec fn view(&self) -> Write {
        match *self {
            WriteOp::Put { cf, key, value } => Write::Put { cf, key: key@, value: value@ },
            WriteOp::Delete { cf, key } => Write::Delete { cf, key: key@ },
        }
    }
}

/// The writes that a list of operations stands for, in order.
pub open spec fn writes_of(ops: Seq<WriteOp>) -> Seq<Write> {
    ops.map_values(|op: WriteOp| op@)
}

/// A read of one key.
#[derive(Clone, Debug, PartialEq, Eq)]
pub struct PointRead {
    /// The family to read.
    pub cf: ColumnFamily,
    /// The key to look up.
    pub key: Vec<u8>,
}

/// A range scan: where a cursor starts and what bounds it.
#[derive(Clone, Debug, PartialEq, Eq)]
pub struct ScanPlan {
    /// The family to scan.
    pub cf: ColumnFamily,
    /// The key to seek to: the cursor starts at the first key at or after it.
    pub start: Vec<u8>,
    /// Where given, the cursor ends before the first key at or after it.
    pub upper_bound: Option<Vec<u8>>,
    /// The cursor ends at the first key whose extracted prefix differs from
    /// that of `start`.
    pub prefix_same_as_start: bool,
    /// The cursor ignores the prefix extractor when it seeks.
    pub total_order_seek: bool,
}

/// A range scan, as contracts speak of it.
pub struct Scan {
    pub cf: ColumnFamily,
    pub start: Seq<u8>,
    pub upper_bound: Option<Seq<u8>>,
    pub prefix_same_as_start: bool,
    pub total_order_seek: bool,
}

impl View for ScanPlan {
    type V = Scan;

    open spec fn view(&self) -> Scan {
        Scan {
            cf: self.cf,
            start: self.start@,
            upper_bound: match self.upper_bound {
                Some(bound) => Some(bound@),
                None => None,
            },
            prefix_same_as_start: self.prefix_same_as_start,
            total_order_seek: self.total_order_seek,
        }
    }
}

impl Scan {
    /// The keys that the scan is to visit: those from `start` on and before
    /// the upper bound. Only the main family has a prefix extractor, so only
    /// there does `prefix_same_as_start` restrict anything: to the keys whose
    /// extracted prefix is that of `start`.
    pub open spec fn covers(self, key: Seq<u8>) -> bool {
        &&& lex_le(self.start, key)
        &&& self.upper_bound matches Some(bound) ==> lex_lt(key, bound)
        &&& self.prefix_same_as_start && self.cf == ColumnFamily::Main && prefix_in_domain(self.start)
            ==> prefix_in_domain(key) && extracted_prefix(key) == extracted_prefix(self.start)
    }
}

/// What the engine holds: the contents of its two column families.
#[verifier::ext_equal]
pub struct Store {
    pub main: Map<Seq<u8>, Seq<u8>>,
    pub log: Map<Seq<u8>, Seq<u8>>,
}

impl Store {
    /// The store that holds nothing.
    pub open spec fn empty() -> Store {
        Store { main: Map::empty(), log: Map::empty() }
    }

    /// The contents of one family.
    pub open spec fn family(self, cf: ColumnFamily) -> Map<Seq<u8>, Seq<u8>> {
        match cf {
            ColumnFamily::Main => self.main,
            ColumnFamily::Log => self.log,
        }
    }

    /// The store with the contents of one family replaced.
    pub open spec fn with_family(self, cf: ColumnFamily, contents: Map<Seq<u8>, Seq<u8>>) -> Store {
        match cf {
            ColumnFamily::Main => Store { main: contents, log: self.log },
            ColumnFamily::Log => Store { main: self.main, log: contents },
        }
    }

    /// What a read of `key` in `cf` finds.
    pub open spec fn get(self, cf: ColumnFamily, key: Seq<u8>) -> Option<Seq<u8>> {
        if self.family(cf).dom().contains(key) {
            Some(self.family(cf)[key])
        } else {
            None
        }
    }

    /// The store after one write.
    pub open spec fn apply(self, write: Write) -> Store {
        match write {
            Write::Put { cf, key, value } => self.with_family(
                cf,
                self.family(cf).insert(key, value),
            ),
            Write::Delete { cf, key } => self.with_family(cf, self.family(cf).remove(key)),
        }
    }

    /// The store after a batch of writes, applied in order.
    pub open spec fn apply_all(self, writes: Seq<Write>) -> Store
        decreases writes.len(),
    {
        if writes.len() == 0 {
            self
        } else {
            self.apply_all(writes.drop_last()).apply(writes.last())
        }
    }

    /// The store after the engine dropped the keys in `gone` from `cf`, as it
    /// may when asked to delete the files within a range.
    pub open spec fn without(self, cf: ColumnFamily, gone: Set<Seq<u8>>) -> Store {
        self.with_family(cf, self.family(cf).remove_keys(gone))
    }

    /// Every key is at least as long as a namespace id, and every key of the
    /// log family as long as a log key: what holds of a store that was only
    /// ever written through namespaces.
    pub open spec fn well_formed(self) -> bool {
        &&& forall|key: Seq<u8>| #[trigger] self.main.dom().contains(key) ==> key.len() >= 2
        &&& forall|key: Seq<u8>| #[trigger] self.log.dom().contains(key) ==> key.len() == 18
    }
}

/// `items` is what a cursor yields for `scan` over `contents`: the entries
/// whose keys the scan covers, each once, in ascending key order.
pub open spec fn is_scan_of(
    items: Seq<(Seq<u8>, Seq<u8>)>,
    contents: Map<Seq<u8>, Seq<u8>>,
    scan: Scan,
) -> bool {
    &&& forall|i: int, j: int| 0 <= i < j < items.len() ==> lex_lt(#[trigger] items[i].0, #[trigger] items[j].0)
    &&& forall|i: int|
        0 <= i < items.len() ==> scan.covers(#[trigger] items[i].0) && contents.contains_pair(
            items[i].0,
            items[i].1,
        )
    &&& forall|key: Seq<u8>| #[trigger]
        contents.dom().contains(key) && scan.covers(key) ==> exists|i: int|
            0 <= i < items.len() && #[trigger] items[i].0 == key
}

/// Two answers to one scan agree on their first `n` entries.
proof fn lemma_scan_agrees(
    a: Seq<(Seq<u8>, Seq<u8>)>,
    b: Seq<(Seq<u8>, Seq<u8>)>,
    contents: Map<Seq<u8>, Seq<u8>>,
    scan: Scan,
    n: nat,
)
    requires
        is_scan_of(a, contents, scan),
        is_scan_of(b, contents, scan),
        n <= a.len(),
        n <= b.len(),
    ensures
        forall|i: int| 0 <= i < n ==> a[i] == b[i],
    decreases n,
{
    if n > 0 {
        let i = n - 1;
        lemma_scan_agrees(a, b, contents, scan, i as nat);
        assert(contents.dom().contains(a[i].0));
        assert(contents.dom().contains(b[i].0));
        let k = choose|k: int| 0 <= k < b.len() && #[trigger] b[k].0 == a[i].0;
        let m = choose|m: int| 0 <= m < a.len() && #[trigger] a[m].0 == b[i].0;
        lemma_lex_irreflexive(a[i].0);
        lemma_lex_irreflexive(b[i].0);
        if k < i {
            assert(lex_lt(a[k].0, a[i].0));
        }
        if m < i {
            assert(lex_lt(b[m].0, b[i].0));
        }
        if k > i {
            assert(lex_lt(b[i].0, b[k].0));
            if m > i {
                assert(lex_lt(a[i].0, a[m].0));
                lemma_lex_total(a[i].0, a[m].0);
            }
        }
        assert(a[i].0 == b[i].0);
        assert(a[i].1 == b[i].1);
    }
}

/// A scan has one answer: the entries that a cursor yields for a scan are
/// settled by the contents of the family.
pub proof fn lemma_scan_unique(
    a: Seq<(Seq<u8>, Seq<u8>)>,
    b: Seq<(Seq<u8>, Seq<u8>)>,
    contents: Map<Seq<u8>, Seq<u8>>,
    scan: Scan,
)
    requires
        is_scan_of(a, contents, scan),
        is_scan_of(b, contents, scan),
    ensures
        a == b,
{
    let n = if a.len() <= b.len() {
        a.len()
    } else {
        b.len()
    };
    lemma_scan_agrees(a, b, contents, scan, n);
    if a.len() > n {
        let key = a[n as int].0;
        assert(contents.dom().contains(key));
        let k = choose|k: int| 0 <= k < b.len() && #[trigger] b[k].0 == key;
        assert(lex_lt(a[k].0, a[n as int].0));
        lemma_lex_irreflexive(key);
    }
    if b.len() > n {
        let key = b[n as int].0;
        assert(contents.dom().contains(key));
        let k = choose|k: int| 0 <= k < a.len() && #[trigger] a[k].0 == key;
        assert(lex_lt(b[k].0, b[n as int].0));
        lemma_lex_irreflexive(key);
    }
    assert(a =~= b);
}

/// A batch of one write is that write.
pub proof fn lemma_apply_one(store: Store, write: Write)
    ensures
        store.apply_all(seq![write]) == store.apply(write),
{
    reveal_with_fuel(Store::apply_all, 2);
    assert(seq![write].drop_last() =~= Seq::<Write>::empty());
}

/// A batch that grew by one write applies the old batch and then that write.
pub proof fn lemma_apply_push(store: Store, writes: Seq<Write>, write: Write)
    ensures
        store.apply_all(writes.push(write)) == store.apply_all(writes).apply(write),
{
    assert(writes.push(write).drop_last() =~= writes);
}

/// Two batches one after the other are the batch of both.
pub proof fn lemma_apply_concat(store: Store, first: Seq<Write>, second: Seq<Write>)
    ensures
        store.apply_all(first + second) == store.apply_all(first).apply_all(second),
    decreases second.len(),
{
    if second.len() == 0 {
        assert(first + second =~= first);
    } else {
        assert((first + second).drop_last() =~= first + second.drop_last());
        lemma_apply_concat(store, first, second.drop_last());
    }
}

/// A write touches one key of one family and nothing else.
pub proof fn lemma_apply_frame(store: Store, write: Write, cf: ColumnFamily, key: Seq<u8>)
    requires
        cf != write.cf() || key != write.key(),
    ensures
        store.apply(write).get(cf, key) == store.get(cf, key),
{
}

/// A batch leaves alone every key that none of its writes is about.
pub proof fn lemma_apply_all_frame(store: Store, writes: Seq<Write>, cf: ColumnFamily, key: Seq<u8>)
    requires
        forall|i: int| 0 <= i < writes.len() ==> cf != (#[trigger] writes[i]).cf() || key != writes[i].key(),
    ensures
        store.apply_all(writes).get(cf, key) == store.get(cf, key),
    decreases writes.len(),
{
    if writes.len() > 0 {
        lemma_apply_all_frame(store, writes.drop_last(), cf, key);
        lemma_apply_frame(store.apply_all(writes.drop_last()), writes.last(), cf, key);
    }
}

/// A batch whose keys are well formed keeps the store well formed.
pub proof fn lemma_apply_all_well_formed(store: Store, writes: Seq<Write>)
    requires
        store.well_formed(),
        forall|i: int|
            0 <= i < writes.len() ==> (#[trigger] writes[i]).key().len() >= 2 && (writes[i].cf()
                == ColumnFamily::Log ==> writes[i].key().len() == 18),
    ensures
        store.apply_all(writes).well_formed(),
    decreases writes.len(),
{
    if writes.len() > 0 {
        lemma_apply_all_well_formed(store, writes.drop_last());
    }
}

} // verus!
