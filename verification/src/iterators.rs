//! Cursors over the entries of a namespace.
//!
//! A cursor of the library steers a cursor of the engine: it says where the
//! engine's cursor has to go, is shown the entry that the engine's cursor then
//! stands on, and gives the entry as the namespace's user sees it.

use vstd::prelude::*;

use crate::codec::{
    be16, build_key, build_log_key, build_log_prefix, decode_log_key, lemma_be_bytes_len,
    lemma_be_bytes_order, lemma_be_limits, lemma_log_key_decodes, lemma_log_key_of_any,
    lemma_log_key_order_across, lemma_log_key_shape, lemma_main_key_order, lemma_main_key_prefix,
    log_key, log_position, log_prefix, main_key, namespace_of, user_key,
};
use crate::engine::{is_scan_of, ColumnFamily, Scan, ScanPlan, Store};
use crate::lex::{
    has_prefix, lemma_lex_irreflexive, lemma_lex_leading, lemma_lex_prefix_le, lemma_lex_total,
    lex_lt,
};
use crate::sentinel::Sentinel;

verus! {

/// What the engine's cursor has to do before its entry is shown to
/// `next`.
#[derive(Clone, Copy, Debug, PartialEq, Eq, Structural)]
pub enum CursorMove {
    /// Go to the first entry of the scan.
    Seek,
    /// Go to the entry after the current one.
    Next,
}

/// The scan over the main entries of namespace `num`: from the namespace id
/// on, for as long as the keys carry it.
pub open spec fn main_scan(num: u16) -> Scan {
    Scan {
        cf: ColumnFamily::Main,
        start: be16(num),
        upper_bound: None,
        prefix_same_as_start: true,
        total_order_seek: false,
    }
}

/// The first key after the log entries of the group `prefix` of namespace
/// `num`: the log prefix of the next group; after the last group, the id of
/// the next namespace; after the last group of the last namespace, nothing.
pub open spec fn log_upper(num: u16, prefix: u64) -> Option<Seq<u8>> {
    if prefix < u64::MAX {
        Some(log_prefix(num, (prefix + 1) as u64))
    } else if num < u16::MAX {
        Some(be16((num + 1) as u16))
    } else {
        None
    }
}

/// The scan over the log entries of the group `prefix` of namespace `num`,
/// from the sequence number `start` on.
pub open spec fn log_scan(num: u16, prefix: u64, start: u64) -> Scan {
    Scan {
        cf: ColumnFamily::Log,
        start: log_key(num, prefix, start),
        upper_bound: log_upper(num, prefix),
        prefix_same_as_start: false,
        total_order_seek: false,
    }
}

/// A main entry as its namespace's user sees it: the key without the
/// namespace id, and the value.
pub open spec fn main_item(entry: (Seq<u8>, Seq<u8>)) -> (Seq<u8>, Seq<u8>) {
    (entry.0.skip(2), entry.1)
}

/// A log entry as its namespace's user sees it: the log position, and the
/// value.
pub open spec fn log_item(entry: (Seq<u8>, Seq<u8>)) -> ((u64, u64), Seq<u8>) {
    (log_position(entry.0), entry.1)
}

/// A cursor over the main entries of a namespace. While it lives, it holds
/// a reference to the sentinels of its engine and of its namespace.
#[derive(Debug)]
pub struct StorageIterator {
    num: u16,
    first: bool,
    engine: Sentinel,
    iterators_handle: Sentinel,
}

/// A cursor over the log entries of one group of a namespace. While it
/// lives, it holds a reference to the sentinels of its engine and of its
/// namespace.
#[derive(Debug)]
pub struct LogStorageIterator {
    num: u16,
    prefix: u64,
    start: u64,
    first: bool,
    engine: Sentinel,
    iterators_handle: Sentinel,
}

impl StorageIterator {
    /// The namespace of the cursor.
    pub closed spec fn num(&self) -> u16 {
        self.num
    }

    /// The cursor has not been asked for an entry yet.
    pub closed spec fn fresh(&self) -> bool {
        self.first
    }

    pub(crate) fn new(num: u16, engine: Sentinel, iterators_handle: Sentinel) -> (iterator:
        StorageIterator)
        ensures
            iterator.num() == num,
            iterator.fresh(),
    {
        StorageIterator { num, first: true, engine, iterators_handle }
    }

    /// The scan that the engine's cursor is to run.
    pub fn plan(&self) -> (plan: ScanPlan)
        ensures
            plan@ == main_scan(self.num()),
    {
        ScanPlan {
            cf: ColumnFamily::Main,
            start: build_key(self.num, &[]),
            upper_bound: None,
            prefix_same_as_start: true,
            total_order_seek: false,
        }
    }

    /// What the engine's cursor has to do before `next` is called: seek
    /// before the first call, step forward before each later one.
    pub fn pending_move(&self) -> (step: CursorMove)
        ensures
            step == (if self.fresh() {
                CursorMove::Seek
            } else {
                CursorMove::Next
            }),
    {
        if self.first {
            CursorMove::Seek
        } else {
            CursorMove::Next
        }
    }

    /// Takes the entry that the engine's cursor stands on after the pending
    /// move, or `None` if it stands on none, and gives the entry as the user
    /// sees it: the key without the namespace id, and the value. The end of
    /// the engine's cursor is the end of this one.
    pub fn next<'k>(&mut self, position: Option<(&'k [u8], &'k [u8])>) -> (item: Option<
        (&'k [u8], &'k [u8]),
    >)
        requires
            position matches Some(entry) ==> entry.0@.len() >= 2,
        ensures
            final(self).num() == old(self).num(),
            !final(self).fresh(),
            match position {
                Some(entry) => item matches Some(found) && (found.0@, found.1@) == main_item(
                    (entry.0@, entry.1@),
                ),
                None => item is None,
            },
    {
        self.first = false;
        match position {
            Some((key, value)) => Some((user_key(key), value)),
            None => None,
        }
    }
}

impl LogStorageIterator {
    /// The namespace of the cursor.
    pub closed spec fn num(&self) -> u16 {
        self.num
    }

    /// The group whose entries the cursor visits.
    pub closed spec fn prefix(&self) -> u64 {
        self.prefix
    }

    /// The sequence number from which on the cursor visits entries.
    pub closed spec fn start(&self) -> u64 {
        self.start
    }

    /// The cursor has not been asked for an entry yet.
    pub closed spec fn fresh(&self) -> bool {
        self.first
    }

    pub(crate) fn new(
        num: u16,
        prefix: u64,
        start: u64,
        engine: Sentinel,
        iterators_handle: Sentinel,
    ) -> (iterator: LogStorageIterator)
        ensures
            iterator.num() == num,
            iterator.prefix() == prefix,
            iterator.start() == start,
            iterator.fresh(),
    {
        LogStorageIterator { num, prefix, start, first: true, engine, iterators_handle }
    }

    /// The scan that the engine's cursor is to run: from the log key of the
    /// first position, up to the first key after the group.
    pub fn plan(&self) -> (plan: ScanPlan)
        ensures
            plan@ == log_scan(self.num(), self.prefix(), self.start()),
    {
        let upper_bound = if self.prefix < u64::MAX {
            Some(build_log_prefix(self.num, self.prefix + 1))
        } else if self.num < u16::MAX {
            Some(build_key(self.num + 1, &[]))
        } else {
            None
        };
        ScanPlan {
            cf: ColumnFamily::Log,
            start: build_log_key(self.num, (self.prefix, self.start)),
            upper_bound,
            prefix_same_as_start: false,
            total_order_seek: false,
        }
    }

    /// What the engine's cursor has to do before `next` is called: seek
    /// before the first call, step forward before each later one.
    pub fn pending_move(&self) -> (step: CursorMove)
        ensures
            step == (if self.fresh() {
                CursorMove::Seek
            } else {
                CursorMove::Next
            }),
    {
        if self.first {
            CursorMove::Seek
        } else {
            CursorMove::Next
        }
    }

    /// Takes the entry that the engine's cursor stands on after the pending
    /// move, or `None` if it stands on none, and gives the entry as the user
    /// sees it: the log position that the key holds, and the value. The end
    /// of the engine's cursor is the end of this one. Every key of the log
    /// family has eighteen bytes.
    pub fn next<'k>(&mut self, position: Option<(&'k [u8], &'k [u8])>) -> (item: Option<
        ((u64, u64), &'k [u8]),
    >)
        requires
            position matches Some(entry) ==> entry.0@.len() == 18,
        ensures
            final(self).num() == old(self).num(),
            final(self).prefix() == old(self).prefix(),
            final(self).start() == old(self).start(),
            !final(self).fresh(),
            match position {
                Some(entry) => item matches Some(found) && (found.0, found.1@) == log_item(
                    (entry.0@, entry.1@),
                ),
                None => item is None,
            },
    {
        self.first = false;
        match position {
            Some((key, value)) => Some((decode_log_key(key), value)),
            None => None,
        }
    }
}

/// A walk over the main entries of a namespace, borrowed from its cursor.
#[derive(Debug)]
pub struct StorageIter<'a> {
    it: &'a mut StorageIterator,
}

impl StorageIterator {
    /// A walk that goes on where the cursor stands.
    pub fn iter<'a>(&'a mut self) -> (walk: StorageIter<'a>)
        ensures
            walk.num() == old(self).num(),
            walk.fresh() == old(self).fresh(),
    {
        StorageIter { it: self }
    }
}

impl<'a> StorageIter<'a> {
    /// The namespace of the walk.
    pub closed spec fn num(&self) -> u16 {
        self.it.num
    }

    /// The walk has not been asked for an entry yet.
    pub closed spec fn fresh(&self) -> bool {
        self.it.first
    }

    /// What the engine's cursor has to do before `next` is called: seek
    /// before the first call on a fresh cursor, step forward before each
    /// later one.
    pub fn pending_move(&self) -> (step: CursorMove)
        ensures
            step == (if self.fresh() {
                CursorMove::Seek
            } else {
                CursorMove::Next
            }),
    {
        self.it.pending_move()
    }

    /// Takes the entry that the engine's cursor stands on after the pending
    /// move, or `None` if it stands on none, and gives the entry as the user
    /// sees it: the key without the namespace id, and the value.
    pub fn next<'k>(&mut self, position: Option<(&'k [u8], &'k [u8])>) -> (item: Option<
        (&'k [u8], &'k [u8]),
    >)
        requires
            position matches Some(entry) ==> entry.0@.len() >= 2,
        ensures
            final(self).num() == old(self).num(),
            !final(self).fresh(),
            match position {
                Some(entry) => item matches Some(found) && (found.0@, found.1@) == main_item(
                    (entry.0@, entry.1@),
                ),
                None => item is None,
            },
    {
        self.it.next(position)
    }
}

/// A walk over the log entries of one group of a namespace, borrowed from
/// its cursor.
#[derive(Debug)]
pub struct LogStorageIter<'a> {
    it: &'a mut LogStorageIterator,
}

impl LogStorageIterator {
    /// A walk that goes on where the cursor stands.
    pub fn iter<'a>(&'a mut self) -> (walk: LogStorageIter<'a>)
        ensures
            walk.num() == old(self).num(),
            walk.prefix() == old(self).prefix(),
            walk.start() == old(self).start(),
            walk.fresh() == old(self).fresh(),
    {
        LogStorageIter { it: self }
    }
}

impl<'a> LogStorageIter<'a> {
    /// The namespace of the walk.
    pub closed spec fn num(&self) -> u16 {
        self.it.num
    }

    /// The group whose entries the walk visits.
    pub closed spec fn prefix(&self) -> u64 {
        self.it.prefix
    }

    /// The sequence number from which on the walk visits entries.
    pub closed spec fn start(&self) -> u64 {
        self.it.start
    }

    /// The walk has not been asked for an entry yet.
    pub closed spec fn fresh(&self) -> bool {
        self.it.first
    }

    /// What the engine's cursor has to do before `next` is called: seek
    /// before the first call on a fresh cursor, step forward before each
    /// later one.
    pub fn pending_move(&self) -> (step: CursorMove)
        ensures
            step == (if self.fresh() {
                CursorMove::Seek
            } else {
                CursorMove::Next
            }),
    {
        self.it.pending_move()
    }

    /// Takes the entry that the engine's cursor stands on after the pending
    /// move, or `None` if it stands on none, and gives the entry as the user
    /// sees it: the log position that the key holds, and the value. Every key
    /// of the log family has eighteen bytes.
    pub fn next<'k>(&mut self, position: Option<(&'k [u8], &'k [u8])>) -> (item: Option<
        ((u64, u64), &'k [u8]),
    >)
        requires
            position matches Some(entry) ==> entry.0@.len() == 18,
        ensures
            final(self).num() == old(self).num(),
            final(self).prefix() == old(self).prefix(),
            final(self).start() == old(self).start(),
            !final(self).fresh(),
            match position {
                Some(entry) => item matches Some(found) && (found.0, found.1@) == log_item(
                    (entry.0@, entry.1@),
                ),
                None => item is None,
            },
    {
        self.it.next(position)
    }
}

/// The scan of a namespace's main entries covers exactly the keys that carry
/// the namespace id.
pub proof fn lemma_main_scan_covers(num: u16, key: Seq<u8>)
    ensures
        main_scan(num).covers(key) <==> has_prefix(key, be16(num)),
{
    lemma_be_bytes_len(num as nat, 2);
    assert(be16(num).take(2) =~= be16(num));
    if has_prefix(key, be16(num)) {
        lemma_lex_prefix_le(key, be16(num));
    }
}

/// The scan of a group of log entries covers, of the keys of eighteen bytes,
/// exactly the log keys of the namespace and the group whose sequence number
/// is at or after the start.
pub proof fn lemma_log_scan_covers(num: u16, prefix: u64, start: u64, key: Seq<u8>)
    requires
        key.len() == 18,
    ensures
        log_scan(num, prefix, start).covers(key) <==> (namespace_of(key) == num && log_position(
            key,
        ).0 == prefix && log_position(key).1 >= start),
{
    let (a, b, c) = (namespace_of(key), log_position(key).0, log_position(key).1);
    let from = log_key(num, prefix, start);
    lemma_log_key_of_any(key);
    lemma_log_key_shape(a, b, c);
    lemma_log_key_shape(num, prefix, start);
    lemma_log_key_order_across(num, prefix, start, a, b, c);
    lemma_log_key_order_across(a, b, c, num, prefix, start);
    lemma_lex_total(from, key);
    lemma_be_limits();
    lemma_be_bytes_len(a as nat, 2);
    if prefix < u64::MAX {
        let bound = log_prefix(num, (prefix + 1) as u64);
        lemma_log_key_shape(num, (prefix + 1) as u64, 0);
        lemma_lex_leading(key, bound);
        assert(key.take(10) == log_prefix(a, b));
        lemma_log_key_order_across(a, b, 0, num, (prefix + 1) as u64, 0);
    } else if num < u16::MAX {
        let bound = be16((num + 1) as u16);
        lemma_be_bytes_len((num + 1) as nat, 2);
        lemma_lex_leading(key, bound);
        assert(key.take(2) == be16(a));
        lemma_be_bytes_order(a as nat, (num + 1) as nat, 2);
    }
}

/// Iterator order: shown the entries that the engine's cursor yields for the
/// scan of namespace `num`, the iterator gives the user keys of the namespace
/// in strictly ascending order, each with its value, and every key that the
/// namespace holds is among them. Being in strict order, each comes once.
pub proof fn lemma_iterator_order(store: Store, num: u16, items: Seq<(Seq<u8>, Seq<u8>)>)
    requires
        is_scan_of(items, store.main, main_scan(num)),
    ensures
        forall|i: int, j: int|
            0 <= i < j < items.len() ==> lex_lt(
                #[trigger] main_item(items[i]).0,
                #[trigger] main_item(items[j]).0,
            ),
        forall|i: int|
            0 <= i < items.len() ==> store.main_of(num).contains_pair(
                (#[trigger] main_item(items[i])).0,
                main_item(items[i]).1,
            ),
        forall|key: Seq<u8>| #[trigger]
            store.main_of(num).dom().contains(key) ==> exists|i: int|
                0 <= i < items.len() && (#[trigger] main_item(items[i])).0 == key,
        forall|i: int, j: int|
            0 <= i < items.len() && 0 <= j < items.len() && i != j ==> (#[trigger] main_item(
                items[i],
            )).0 != (#[trigger] main_item(items[j])).0,
{
    assert forall|i: int| 0 <= i < items.len() implies #[trigger] items[i].0 == main_key(
        num,
        main_item(items[i]).0,
    ) by {
        lemma_main_scan_covers(num, items[i].0);
        lemma_main_key_prefix(num, items[i].0);
    }
    assert forall|i: int, j: int| 0 <= i < j < items.len() implies lex_lt(
        #[trigger] main_item(items[i]).0,
        #[trigger] main_item(items[j]).0,
    ) by {
        assert(lex_lt(items[i].0, items[j].0));
        lemma_main_key_order(num, main_item(items[i]).0, main_item(items[j]).0);
    }
    assert forall|key: Seq<u8>| #[trigger] store.main_of(num).dom().contains(key) implies exists|
        i: int,
    |
        0 <= i < items.len() && (#[trigger] main_item(items[i])).0 == key by {
        let physical = main_key(num, key);
        lemma_main_key_prefix(num, key);
        lemma_main_scan_covers(num, physical);
        assert(store.main.dom().contains(physical));
        let i = choose|i: int| 0 <= i < items.len() && #[trigger] items[i].0 == physical;
        assert(main_item(items[i]).0 == key);
    }
    assert forall|i: int, j: int|
        0 <= i < items.len() && 0 <= j < items.len() && i != j implies (#[trigger] main_item(
        items[i],
    )).0 != (#[trigger] main_item(items[j])).0 by {
        lemma_lex_irreflexive(main_item(items[i]).0);
        if i < j {
            assert(lex_lt(main_item(items[i]).0, main_item(items[j]).0));
        } else {
            assert(lex_lt(main_item(items[j]).0, main_item(items[i]).0));
        }
    }
}

/// Log range: shown the entries that the engine's cursor yields for the scan
/// of the group `prefix` from `start` on, the iterator gives exactly the
/// entries of the namespace at the positions `(prefix, seq)` with `seq` at or
/// after `start`, in ascending order of `seq`, and none of another group.
pub proof fn lemma_log_iterator_range(
    store: Store,
    num: u16,
    prefix: u64,
    start: u64,
    items: Seq<(Seq<u8>, Seq<u8>)>,
)
    requires
        store.well_formed(),
        is_scan_of(items, store.log, log_scan(num, prefix, start)),
    ensures
        forall|i: int|
            0 <= i < items.len() ==> (#[trigger] log_item(items[i])).0.0 == prefix && log_item(
                items[i],
            ).0.1 >= start && store.log_of(num).contains_pair(
                log_item(items[i]).0,
                log_item(items[i]).1,
            ),
        forall|i: int, j: int|
            0 <= i < j < items.len() ==> (#[trigger] log_item(items[i])).0.1 < (#[trigger] log_item(
                items[j],
            )).0.1,
        forall|seq: u64|
            seq >= start && #[trigger] store.log_of(num).dom().contains((prefix, seq)) ==> exists|
                i: int,
            |
                0 <= i < items.len() && (#[trigger] log_item(items[i])).0 == (prefix, seq),
{
    assert forall|i: int| 0 <= i < items.len() implies #[trigger] items[i].0 == log_key(
        num,
        prefix,
        log_item(items[i]).0.1,
    ) && log_item(items[i]).0.0 == prefix && log_item(items[i]).0.1 >= start by {
        assert(store.log.dom().contains(items[i].0));
        lemma_log_scan_covers(num, prefix, start, items[i].0);
        lemma_log_key_of_any(items[i].0);
    }
    assert forall|i: int, j: int| 0 <= i < j < items.len() implies (#[trigger] log_item(
        items[i],
    )).0.1 < (#[trigger] log_item(items[j])).0.1 by {
        assert(lex_lt(items[i].0, items[j].0));
        lemma_log_key_order_across(
            num,
            prefix,
            log_item(items[i]).0.1,
            num,
            prefix,
            log_item(items[j]).0.1,
        );
    }
    assert forall|seq: u64|
        seq >= start && #[trigger] store.log_of(num).dom().contains((prefix, seq)) implies exists|
        i: int,
    |
        0 <= i < items.len() && (#[trigger] log_item(items[i])).0 == (prefix, seq) by {
        let physical = log_key(num, prefix, seq);
        lemma_log_key_shape(num, prefix, seq);
        lemma_log_key_decodes(num, prefix, seq);
        lemma_log_scan_covers(num, prefix, start, physical);
        assert(store.log.dom().contains(physical));
        let i = choose|i: int| 0 <= i < items.len() && #[trigger] items[i].0 == physical;
        assert(log_item(items[i]).0 == (prefix, seq));
    }
}

} // verus!
