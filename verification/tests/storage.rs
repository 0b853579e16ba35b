//! The namespace handles, driven against a small engine that lives in memory.

use std::collections::BTreeMap;
use std::ops::Bound;

use vnode_store::clear::ClearAction;
use vnode_store::engine::{ColumnFamily, PointRead, ScanPlan, WriteOp};
use vnode_store::iterators::CursorMove;
use vnode_store::sentinel::{other_references, sole_reference, Sentinel};
use vnode_store::storage::{OpenPhase, Storage, StorageError, StorageManager};

/// Two ordered maps that do what the library asks of an engine.
struct MemEngine {
    main: BTreeMap<Vec<u8>, Vec<u8>>,
    log: BTreeMap<Vec<u8>, Vec<u8>>,
}

impl MemEngine {
    fn new() -> MemEngine {
        MemEngine { main: BTreeMap::new(), log: BTreeMap::new() }
    }

    fn family(&self, cf: ColumnFamily) -> &BTreeMap<Vec<u8>, Vec<u8>> {
        match cf {
            ColumnFamily::Main => &self.main,
            ColumnFamily::Log => &self.log,
        }
    }

    fn family_mut(&mut self, cf: ColumnFamily) -> &mut BTreeMap<Vec<u8>, Vec<u8>> {
        match cf {
            ColumnFamily::Main => &mut self.main,
            ColumnFamily::Log => &mut self.log,
        }
    }

    fn write(&mut self, ops: Vec<WriteOp>) {
        for op in ops {
            match op {
                WriteOp::Put { cf, key, value } => {
                    self.family_mut(cf).insert(key, value);
                }
                WriteOp::Delete { cf, key } => {
                    self.family_mut(cf).remove(&key);
                }
            }
        }
    }

    fn read(&self, read: PointRead) -> Option<Vec<u8>> {
        self.family(read.cf).get(&read.key).cloned()
    }

    /// The entries that a cursor of the engine yields for `plan`, in order.
    fn scan(&self, plan: &ScanPlan) -> Vec<(Vec<u8>, Vec<u8>)> {
        let upper = match &plan.upper_bound {
            Some(bound) => Bound::Excluded(bound.clone()),
            None => Bound::Unbounded,
        };
        let by_prefix =
            plan.prefix_same_as_start && plan.cf == ColumnFamily::Main && plan.start.len() >= 2;
        self.family(plan.cf)
            .range((Bound::Included(plan.start.clone()), upper))
            .take_while(|(key, _)| !by_prefix || (key.len() >= 2 && key[..2] == plan.start[..2]))
            .map(|(key, value)| (key.clone(), value.clone()))
            .collect()
    }

    fn get_vec(&self, storage: &Storage, key: &[u8]) -> Option<Vec<u8>> {
        self.read(storage.get(key))
    }

    fn log_get_vec(&self, storage: &Storage, log_key: (u64, u64)) -> Option<Vec<u8>> {
        self.read(storage.log_get(log_key))
    }

    fn set(&mut self, storage: &Storage, key: &[u8], value: &[u8]) {
        self.write(storage.set(key, value));
    }

    fn del(&mut self, storage: &Storage, key: &[u8]) {
        self.write(storage.del(key));
    }

    /// What the iterator of `storage` yields.
    fn iterate(&self, storage: &Storage) -> Vec<(Vec<u8>, Vec<u8>)> {
        let mut iterator = storage.iterator();
        let entries = self.scan(&iterator.plan());
        let mut walk = iterator.iter();
        let mut at: usize = 0;
        let mut items = Vec::new();
        loop {
            match walk.pending_move() {
                CursorMove::Seek => at = 0,
                CursorMove::Next => at += 1,
            }
            let position = entries.get(at).map(|(key, value)| (key.as_slice(), value.as_slice()));
            if let Some((key, _)) = position {
                assert!(key.len() >= 2);
            }
            match walk.next(position) {
                Some((key, value)) => items.push((key.to_vec(), value.to_vec())),
                None => break,
            }
        }
        items
    }

    /// What the log iterator of `storage` yields for a group, from `start` on.
    fn iterate_log(&self, storage: &Storage, prefix: u64, start: u64) -> Vec<((u64, u64), Vec<u8>)> {
        let mut iterator = storage.log_iterator(prefix, start);
        let entries = self.scan(&iterator.plan());
        let mut walk = iterator.iter();
        let mut at: usize = 0;
        let mut items = Vec::new();
        loop {
            match walk.pending_move() {
                CursorMove::Seek => at = 0,
                CursorMove::Next => at += 1,
            }
            let position = entries.get(at).map(|(key, value)| (key.as_slice(), value.as_slice()));
            if let Some((key, _)) = position {
                assert!(key.len() == 18);
            }
            match walk.next(position) {
                Some((key, value)) => items.push((key, value.to_vec())),
                None => break,
            }
        }
        items
    }

    /// Runs the clearing of `storage` to its end; gives the requests made.
    fn clear(&mut self, storage: &Storage) -> Vec<ClearAction> {
        let mut run = storage.clear().expect("an iterator of the namespace is alive");
        let mut asked = Vec::new();
        let mut entries: Vec<(Vec<u8>, Vec<u8>)> = Vec::new();
        let mut at: usize = 0;
        while let Some(action) = run.next_action() {
            asked.push(action.clone());
            match action {
                ClearAction::DeleteFilesInRange { .. } => run.advance(None),
                ClearAction::Seek { plan } => {
                    entries = self.scan(&plan);
                    at = 0;
                    run.advance(entries.get(at).map(|(key, _)| key.as_slice()));
                }
                ClearAction::Delete { cf, key } => {
                    self.family_mut(cf).remove(&key);
                    run.advance(None);
                }
                ClearAction::Next { .. } => {
                    at += 1;
                    run.advance(entries.get(at).map(|(key, _)| key.as_slice()));
                }
            }
        }
        assert!(run.is_done());
        asked
    }
}

/// An engine handle whose engine opened at the first attempt.
fn opened(path: &str) -> StorageManager {
    let mut manager = StorageManager::new(path);
    manager.record(Ok(()));
    manager
}

#[test]
fn test_simple() {
    let mut db = MemEngine::new();
    let sm = opened("t/test_simple");
    let storage = sm.open(1).unwrap();
    assert_eq!(db.get_vec(&storage, b"sample"), None);
    db.set(&storage, b"sample", b"sample_value");
    assert_eq!(db.get_vec(&storage, b"sample").unwrap(), b"sample_value");
    db.del(&storage, b"sample");
    assert_eq!(db.get_vec(&storage, b"sample"), None);
}

#[test]
fn test_simple_log() {
    let mut db = MemEngine::new();
    let sm = opened("t/test_simple_log");
    let storage = sm.open(1).unwrap();
    assert_eq!(db.get_vec(&storage, b"sample"), None);
    let mut b = storage.batch_new(0);
    b.set(b"sample", b"sample_value");
    b.log_set((1, 1), b"sample");
    db.write(storage.batch_write(b));
    assert_eq!(db.get_vec(&storage, b"sample").unwrap(), b"sample_value");
    assert_eq!(db.log_get_vec(&storage, (1, 1)).unwrap(), b"sample");
}

#[test]
fn test_iter() {
    let mut db = MemEngine::new();
    let sm = opened("t/test_iter");
    for &i in &[0u16, 1, 2] {
        let storage = sm.open(i).unwrap();
        db.set(&storage, b"1", i.to_string().as_bytes());
        db.set(&storage, b"2", i.to_string().as_bytes());
        db.set(&storage, b"3", i.to_string().as_bytes());
    }
    for &i in &[0u16, 1, 2] {
        let storage = sm.open(i).unwrap();
        let results: Vec<Vec<u8>> = db.iterate(&storage).into_iter().map(|(_, v)| v).collect();
        assert_eq!(results, vec![i.to_string().as_bytes(); 3]);
    }
}

#[test]
fn test_iter_log() {
    let mut db = MemEngine::new();
    let sm = opened("t/test_iter_log");
    for &i in &[0u64, 1, 2] {
        let storage = sm.open(i as u16).unwrap();
        let mut b = storage.batch_new(0);
        b.log_set((i, i + 0), (i + 0).to_string().as_bytes());
        b.log_set((i, i + 1), (i + 1).to_string().as_bytes());
        b.log_set((i, i + 2), (i + 2).to_string().as_bytes());
        b.log_set((i + 1, i), b"");
        db.write(storage.batch_write(b));
    }
    for &i in &[0u64, 1, 2] {
        let storage = sm.open(i as u16).unwrap();
        let results: Vec<(_, Vec<u8>)> = db.iterate_log(&storage, i, i + 1);
        assert_eq!(
            results,
            vec![
                ((i, i + 1), (i + 1).to_string().into_bytes()),
                ((i, i + 2), (i + 2).to_string().into_bytes()),
            ]
        );
        assert_eq!(db.iterate_log(&storage, i, i).len(), 3);
    }
}

#[test]
fn test_clear() {
    let mut db = MemEngine::new();
    let sm = opened("t/test_clear");
    for &i in &[0u64, 1, 2] {
        let storage = sm.open(i as u16).unwrap();
        let mut b = storage.batch_new(0);
        b.set(i.to_string().as_bytes(), i.to_string().as_bytes());
        b.log_set((i, i), i.to_string().as_bytes());
        db.write(storage.batch_write(b));
    }
    for &i in &[0u64, 1, 2] {
        let storage = sm.open(i as u16).unwrap();
        assert_eq!(db.iterate(&storage).len(), 1);
        assert_eq!(db.iterate_log(&storage, i, i).len(), 1);
        db.clear(&storage);
        assert_eq!(db.iterate(&storage).len(), 0);
        assert_eq!(db.iterate_log(&storage, i, i).len(), 0);
    }
}

#[test]
fn test_open_all() {
    let sm = opened("t/test_open_all");
    sm.open(1).unwrap();
    sm.open(2).unwrap();
    sm.open(3).unwrap();
    sm.open(1).unwrap();
    sm.open(2).unwrap();
    sm.open(3).unwrap();
}

#[test]
fn repeated_handles_see_one_store() {
    let mut db = MemEngine::new();
    let sm = opened("t/repeated");
    let first = sm.open(7).unwrap();
    let second = sm.open(7).unwrap();
    assert_eq!(first.id(), second.id());
    db.set(&first, b"k", b"v");
    assert_eq!(db.get_vec(&second, b"k").unwrap(), b"v");
    db.del(&second, b"k");
    assert_eq!(db.get_vec(&first, b"k"), None);
}

#[test]
fn set_builds_one_put_under_the_main_key() {
    let sm = opened("t/set");
    let storage = sm.open(0x0102).unwrap();
    assert_eq!(storage.id(), 0x0102);
    assert_eq!(
        storage.set(b"ab", b"xyz"),
        vec![WriteOp::Put {
            cf: ColumnFamily::Main,
            key: vec![0x01, 0x02, b'a', b'b'],
            value: b"xyz".to_vec(),
        }]
    );
    assert_eq!(
        storage.del(b"ab"),
        vec![WriteOp::Delete { cf: ColumnFamily::Main, key: vec![0x01, 0x02, b'a', b'b'] }]
    );
}

#[test]
fn get_and_log_get_ask_for_the_built_keys() {
    let sm = opened("t/get");
    let storage = sm.open(3).unwrap();
    assert_eq!(
        storage.get(b"k"),
        PointRead { cf: ColumnFamily::Main, key: vec![0, 3, b'k'] }
    );
    assert_eq!(
        storage.log_get((1, 0x0203)),
        PointRead {
            cf: ColumnFamily::Log,
            key: vec![0, 3, 0, 0, 0, 0, 0, 0, 0, 1, 0, 0, 0, 0, 0, 0, 2, 3],
        }
    );
}

#[test]
fn batch_keeps_the_order_of_its_writes() {
    let sm = opened("t/batch");
    let storage = sm.open(1).unwrap();
    let mut b = storage.batch_new(64);
    assert_eq!(b.reserve(), 64);
    assert_eq!(b.len(), 0);
    b.set(b"a", b"1");
    b.log_set((2, 3), b"entry");
    b.del(b"a");
    assert_eq!(b.len(), 3);
    assert_eq!(
        storage.batch_write(b),
        vec![
            WriteOp::Put { cf: ColumnFamily::Main, key: vec![0, 1, b'a'], value: b"1".to_vec() },
            WriteOp::Put {
                cf: ColumnFamily::Log,
                key: vec![0, 1, 0, 0, 0, 0, 0, 0, 0, 2, 0, 0, 0, 0, 0, 0, 0, 3],
                value: b"entry".to_vec(),
            },
            WriteOp::Delete { cf: ColumnFamily::Main, key: vec![0, 1, b'a'] },
        ]
    );
}

#[test]
fn empty_batch_commits_nothing() {
    let sm = opened("t/empty_batch");
    let storage = sm.open(1).unwrap();
    let b = storage.batch_new(0);
    assert_eq!(storage.batch_write(b), Vec::<WriteOp>::new());
}

#[test]
fn writes_to_one_namespace_leave_the_others_alone() {
    let mut db = MemEngine::new();
    let sm = opened("t/isolation");
    let one = sm.open(1).unwrap();
    let two = sm.open(2).unwrap();
    db.set(&two, b"k", b"two");
    db.set(&one, b"k", b"one");
    assert_eq!(db.get_vec(&two, b"k").unwrap(), b"two");
    db.del(&one, b"k");
    assert_eq!(db.get_vec(&two, b"k").unwrap(), b"two");
    assert_eq!(db.get_vec(&one, b"k"), None);
}

#[test]
fn set_then_get_round_trips_until_the_key_is_written_again() {
    let mut db = MemEngine::new();
    let sm = opened("t/round_trip");
    let storage = sm.open(9).unwrap();
    db.set(&storage, b"k", b"");
    assert_eq!(db.get_vec(&storage, b"k").unwrap(), b"");
    db.set(&storage, b"k", &[0u8, 255, 7]);
    db.set(&storage, b"other", b"x");
    assert_eq!(db.get_vec(&storage, b"k").unwrap(), vec![0u8, 255, 7]);
    db.set(&storage, b"k", b"again");
    assert_eq!(db.get_vec(&storage, b"k").unwrap(), b"again");
}

#[test]
fn deleting_twice_is_deleting_once() {
    let mut db = MemEngine::new();
    let sm = opened("t/del_twice");
    let storage = sm.open(4).unwrap();
    db.set(&storage, b"k", b"v");
    db.set(&storage, b"l", b"w");
    db.del(&storage, b"k");
    let once = (db.main.clone(), db.log.clone());
    db.del(&storage, b"k");
    assert_eq!((db.main.clone(), db.log.clone()), once);
}

#[test]
fn empty_user_key_is_a_key() {
    let mut db = MemEngine::new();
    let sm = opened("t/empty_key");
    let storage = sm.open(5).unwrap();
    db.set(&storage, b"", b"nothing");
    assert_eq!(db.get_vec(&storage, b"").unwrap(), b"nothing");
    assert_eq!(db.iterate(&storage), vec![(Vec::new(), b"nothing".to_vec())]);
}

#[test]
fn long_user_keys_are_stored_whole() {
    let mut db = MemEngine::new();
    let sm = opened("t/long_key");
    let storage = sm.open(5).unwrap();
    let key = vec![b'k'; 600];
    db.set(&storage, &key, b"v");
    assert_eq!(storage.get(&key).key.len(), 602);
    assert_eq!(db.get_vec(&storage, &key).unwrap(), b"v");
}

#[test]
fn iterator_yields_user_keys_in_ascending_order() {
    let mut db = MemEngine::new();
    let sm = opened("t/order");
    let storage = sm.open(1).unwrap();
    let neighbour = sm.open(2).unwrap();
    db.set(&neighbour, b"a", b"other");
    for key in [&b"b"[..], b"", b"ab", b"a", b"\xff", b"a\x00"] {
        db.set(&storage, key, key);
    }
    let keys: Vec<Vec<u8>> = db.iterate(&storage).into_iter().map(|(k, _)| k).collect();
    assert_eq!(
        keys,
        vec![
            b"".to_vec(),
            b"a".to_vec(),
            b"a\x00".to_vec(),
            b"ab".to_vec(),
            b"b".to_vec(),
            b"\xff".to_vec()
        ]
    );
}

#[test]
fn iterator_plan_is_the_prefix_scan_of_the_namespace() {
    let sm = opened("t/plan");
    let storage = sm.open(0x0a0b).unwrap();
    assert_eq!(
        storage.iterator().plan(),
        ScanPlan {
            cf: ColumnFamily::Main,
            start: vec![0x0a, 0x0b],
            upper_bound: None,
            prefix_same_as_start: true,
            total_order_seek: false,
        }
    );
}

#[test]
fn log_iterator_plan_ends_before_the_next_group() {
    let sm = opened("t/log_plan");
    let storage = sm.open(1).unwrap();
    assert_eq!(
        storage.log_iterator(2, 3).plan(),
        ScanPlan {
            cf: ColumnFamily::Log,
            start: vec![0, 1, 0, 0, 0, 0, 0, 0, 0, 2, 0, 0, 0, 0, 0, 0, 0, 3],
            upper_bound: Some(vec![0, 1, 0, 0, 0, 0, 0, 0, 0, 3]),
            prefix_same_as_start: false,
            total_order_seek: false,
        }
    );
}

#[test]
fn log_iterator_plan_of_the_last_group_ends_before_the_next_namespace() {
    let sm = opened("t/log_plan_last");
    let storage = sm.open(1).unwrap();
    assert_eq!(storage.log_iterator(u64::MAX, 0).plan().upper_bound, Some(vec![0, 2]));
    let last = sm.open(u16::MAX).unwrap();
    assert_eq!(last.log_iterator(u64::MAX, 0).plan().upper_bound, None);
    assert_eq!(
        last.log_iterator(5, 0).plan().upper_bound,
        Some(vec![0xff, 0xff, 0, 0, 0, 0, 0, 0, 0, 6])
    );
}

#[test]
fn log_iterator_of_the_last_group_yields_its_entries() {
    let mut db = MemEngine::new();
    let sm = opened("t/log_last");
    for num in [7u16, u16::MAX] {
        let storage = sm.open(num).unwrap();
        let mut b = storage.batch_new(0);
        b.log_set((u64::MAX - 1, 9), b"before");
        b.log_set((u64::MAX, 0), b"zero");
        b.log_set((u64::MAX, u64::MAX), b"last");
        db.write(storage.batch_write(b));
    }
    for num in [7u16, u16::MAX] {
        let storage = sm.open(num).unwrap();
        assert_eq!(
            db.iterate_log(&storage, u64::MAX, 0),
            vec![((u64::MAX, 0), b"zero".to_vec()), ((u64::MAX, u64::MAX), b"last".to_vec())]
        );
        assert_eq!(
            db.iterate_log(&storage, u64::MAX, 1),
            vec![((u64::MAX, u64::MAX), b"last".to_vec())]
        );
    }
}

#[test]
fn log_iterator_yields_no_other_group_and_nothing_before_the_start() {
    let mut db = MemEngine::new();
    let sm = opened("t/log_range");
    let storage = sm.open(3).unwrap();
    let mut b = storage.batch_new(0);
    b.log_set((1, 5), b"1-5");
    b.log_set((2, 0), b"2-0");
    b.log_set((2, 256), b"2-256");
    b.log_set((2, 7), b"2-7");
    b.log_set((3, 0), b"3-0");
    db.write(storage.batch_write(b));
    assert_eq!(
        db.iterate_log(&storage, 2, 1),
        vec![((2, 7), b"2-7".to_vec()), ((2, 256), b"2-256".to_vec())]
    );
    assert_eq!(db.iterate_log(&storage, 2, 257), Vec::new());
    assert_eq!(db.iterate_log(&storage, 4, 0), Vec::new());
}

#[test]
fn first_move_seeks_and_later_moves_step() {
    let sm = opened("t/moves");
    let storage = sm.open(1).unwrap();
    let mut iterator = storage.iterator();
    assert_eq!(iterator.pending_move(), CursorMove::Seek);
    assert_eq!(
        iterator.next(Some((&[0, 1, b'k'][..], &b"v"[..]))),
        Some((&b"k"[..], &b"v"[..]))
    );
    assert_eq!(iterator.pending_move(), CursorMove::Next);
    assert_eq!(iterator.next(None), None);
    assert_eq!(iterator.pending_move(), CursorMove::Next);

    let mut log = storage.log_iterator(1, 0);
    assert_eq!(log.pending_move(), CursorMove::Seek);
    let key = [0u8, 1, 0, 0, 0, 0, 0, 0, 0, 1, 0x10, 0x20, 0x30, 0x40, 0x50, 0x60, 0x70, 0x80];
    assert_eq!(
        log.next(Some((&key[..], &b"v"[..]))),
        Some(((1, 0x1020_3040_5060_7080), &b"v"[..]))
    );
    assert_eq!(log.pending_move(), CursorMove::Next);
    assert_eq!(log.next(None), None);
}

#[test]
fn clear_asks_for_files_first_and_then_deletes_key_by_key() {
    let mut db = MemEngine::new();
    let sm = opened("t/clear_run");
    let storage = sm.open(1).unwrap();
    let mut b = storage.batch_new(0);
    b.set(b"a", b"1");
    b.set(b"b", b"2");
    b.log_set((1, 1), b"l");
    db.write(storage.batch_write(b));
    let plan = |cf| ScanPlan {
        cf,
        start: vec![0, 1],
        upper_bound: Some(vec![0, 2]),
        prefix_same_as_start: true,
        total_order_seek: false,
    };
    let log_key = vec![0, 1, 0, 0, 0, 0, 0, 0, 0, 1, 0, 0, 0, 0, 0, 0, 0, 1];
    assert_eq!(
        db.clear(&storage),
        vec![
            ClearAction::DeleteFilesInRange {
                cf: ColumnFamily::Main,
                from: vec![0, 1],
                to: Some(vec![0, 2]),
            },
            ClearAction::Seek { plan: plan(ColumnFamily::Main) },
            ClearAction::Delete { cf: ColumnFamily::Main, key: vec![0, 1, b'a'] },
            ClearAction::Next { cf: ColumnFamily::Main },
            ClearAction::Delete { cf: ColumnFamily::Main, key: vec![0, 1, b'b'] },
            ClearAction::Next { cf: ColumnFamily::Main },
            ClearAction::DeleteFilesInRange {
                cf: ColumnFamily::Log,
                from: vec![0, 1],
                to: Some(vec![0, 2]),
            },
            ClearAction::Seek { plan: plan(ColumnFamily::Log) },
            ClearAction::Delete { cf: ColumnFamily::Log, key: log_key },
            ClearAction::Next { cf: ColumnFamily::Log },
        ]
    );
    assert!(db.main.is_empty());
    assert!(db.log.is_empty());
}

#[test]
fn clear_of_an_empty_namespace_deletes_nothing() {
    let mut db = MemEngine::new();
    let sm = opened("t/clear_empty");
    let storage = sm.open(1).unwrap();
    let other = sm.open(2).unwrap();
    db.set(&other, b"k", b"v");
    let asked = db.clear(&storage);
    assert_eq!(asked.len(), 4);
    assert!(asked.iter().all(|action| !matches!(action, ClearAction::Delete { .. })));
    assert_eq!(db.get_vec(&other, b"k").unwrap(), b"v");
}

#[test]
fn clear_leaves_the_neighbours_alone() {
    let mut db = MemEngine::new();
    let sm = opened("t/clear_neighbours");
    for num in [0x00feu16, 0x00ff, 0x0100] {
        let storage = sm.open(num).unwrap();
        let mut b = storage.batch_new(0);
        b.set(b"", b"empty");
        b.set(b"\xff\xff", b"high");
        b.log_set((0, 0), b"first");
        b.log_set((u64::MAX, u64::MAX), b"last");
        db.write(storage.batch_write(b));
    }
    let middle = sm.open(0x00ff).unwrap();
    db.clear(&middle);
    assert_eq!(db.iterate(&middle), Vec::new());
    assert_eq!(db.iterate_log(&middle, 0, 0), Vec::new());
    assert_eq!(db.iterate_log(&middle, u64::MAX, 0), Vec::new());
    for num in [0x00feu16, 0x0100] {
        let storage = sm.open(num).unwrap();
        assert_eq!(db.iterate(&storage).len(), 2);
        assert_eq!(db.iterate_log(&storage, 0, 0).len(), 1);
        assert_eq!(db.iterate_log(&storage, u64::MAX, 0).len(), 1);
    }
}

#[test]
fn clear_of_the_last_namespace_has_no_upper_bound() {
    let mut db = MemEngine::new();
    let sm = opened("t/clear_last");
    let last = sm.open(u16::MAX).unwrap();
    let before = sm.open(u16::MAX - 1).unwrap();
    db.set(&last, b"\xff\xff\xff", b"v");
    db.set(&last, b"", b"w");
    db.set(&before, b"k", b"kept");
    let mut b = last.batch_new(0);
    b.log_set((u64::MAX, u64::MAX), b"l");
    db.write(last.batch_write(b));
    let asked = db.clear(&last);
    assert_eq!(
        asked[0],
        ClearAction::DeleteFilesInRange { cf: ColumnFamily::Main, from: vec![0xff, 0xff], to: None }
    );
    assert_eq!(
        asked[1],
        ClearAction::Seek {
            plan: ScanPlan {
                cf: ColumnFamily::Main,
                start: vec![0xff, 0xff],
                upper_bound: None,
                prefix_same_as_start: true,
                total_order_seek: false,
            }
        }
    );
    assert_eq!(db.iterate(&last), Vec::new());
    assert_eq!(db.iterate_log(&last, u64::MAX, 0), Vec::new());
    assert_eq!(db.get_vec(&before, b"k").unwrap(), b"kept");
    assert_eq!(db.main.len(), 1);
    assert!(db.log.is_empty());
}

#[test]
fn a_run_advances_as_the_engine_answers() {
    let sm = opened("t/run");
    let storage = sm.open(1).unwrap();
    let mut run = storage.clear().unwrap();
    assert!(!run.is_done());
    assert!(matches!(
        run.next_action(),
        Some(ClearAction::DeleteFilesInRange { cf: ColumnFamily::Main, .. })
    ));
    run.advance(None);
    assert!(matches!(run.next_action(), Some(ClearAction::Seek { .. })));
    run.advance(Some(&[0, 1, 9][..]));
    assert_eq!(
        run.next_action(),
        Some(ClearAction::Delete { cf: ColumnFamily::Main, key: vec![0, 1, 9] })
    );
    run.advance(Some(&[0, 1, 7][..]));
    assert_eq!(run.next_action(), Some(ClearAction::Next { cf: ColumnFamily::Main }));
    run.advance(None);
    assert!(matches!(
        run.next_action(),
        Some(ClearAction::DeleteFilesInRange { cf: ColumnFamily::Log, .. })
    ));
    run.advance(None);
    run.advance(None);
    assert!(run.is_done());
    assert_eq!(run.next_action(), None);
    run.advance(Some(&[0, 1][..]));
    assert!(run.is_done());
}

#[test]
fn sole_reference_is_one_strong_and_no_weak() {
    assert!(sole_reference(1, 0));
    assert!(!sole_reference(2, 0));
    assert!(!sole_reference(1, 1));
    assert!(!sole_reference(0, 0));
    assert!(!sole_reference(4, 0));
    assert_eq!(other_references(1), 0);
    assert_eq!(other_references(3), 2);
    assert_eq!(other_references(0), 0);
}

#[test]
fn a_sentinel_counts_its_other_holders() {
    let sentinel = Sentinel::new();
    assert!(sentinel.is_sole());
    assert_eq!(sentinel.others(), 0);
    let shared = sentinel.share();
    assert!(!sentinel.is_sole());
    assert!(!shared.is_sole());
    assert_eq!(sentinel.others(), 1);
    drop(shared);
    assert!(sentinel.is_sole());
}

#[test]
fn a_namespace_with_a_live_iterator_is_not_cleared() {
    let sm = opened("t/pending");
    let storage = sm.open(1).unwrap();
    assert!(storage.check_pending_iters());
    assert_eq!(storage.pending_iterators(), 0);
    let iterator = storage.iterator();
    let log_iterator = storage.log_iterator(1, 0);
    assert!(!storage.check_pending_iters());
    assert_eq!(storage.pending_iterators(), 2);
    assert!(storage.clear().is_none());
    drop(iterator);
    assert_eq!(storage.pending_iterators(), 1);
    assert!(storage.clear().is_none());
    drop(log_iterator);
    assert!(storage.check_pending_iters());
    assert!(storage.clear().is_some());
}

#[test]
fn iterators_of_one_handle_do_not_hold_up_another() {
    let sm = opened("t/pending_other");
    let first = sm.open(1).unwrap();
    let second = sm.open(1).unwrap();
    let iterator = first.iterator();
    assert!(!first.check_pending_iters());
    assert!(second.check_pending_iters());
    assert!(second.clear().is_some());
    drop(iterator);
    assert!(first.clear().is_some());
}

#[test]
fn the_engine_is_sole_owner_once_every_handle_and_iterator_is_gone() {
    let sm = opened("t/owner");
    assert!(sm.is_sole_owner());
    let storage = sm.open(1).unwrap();
    assert!(!sm.is_sole_owner());
    let iterator = storage.iterator();
    drop(storage);
    assert!(!sm.is_sole_owner());
    drop(iterator);
    assert!(sm.is_sole_owner());
}

#[test]
fn a_namespace_is_opened_only_on_an_open_engine() {
    let mut manager = StorageManager::new("t/not_open");
    assert_eq!(manager.path(), "t/not_open");
    assert_eq!(manager.phase(), OpenPhase::Both);
    assert_eq!(manager.open(1).unwrap_err(), StorageError::NotOpen);
    manager.record(Err("no log family".to_string()));
    assert_eq!(manager.phase(), OpenPhase::Legacy);
    assert_eq!(manager.open(1).unwrap_err(), StorageError::NotOpen);
    manager.record(Ok(()));
    assert_eq!(manager.phase(), OpenPhase::CreateLog);
    assert_eq!(manager.open(1).unwrap_err(), StorageError::NotOpen);
    manager.record(Ok(()));
    assert_eq!(manager.phase(), OpenPhase::Ready);
    assert_eq!(manager.open(1).unwrap().id(), 1);
    manager.record(Err("late".to_string()));
    assert_eq!(manager.phase(), OpenPhase::Ready);
}

#[test]
fn a_failed_opening_gives_the_engine_message() {
    let mut manager = StorageManager::new("t/failed");
    manager.record(Err("first".to_string()));
    manager.record(Err("second".to_string()));
    assert_eq!(manager.phase(), OpenPhase::Failed);
    assert_eq!(manager.next_action(), None);
    assert_eq!(manager.open(1).unwrap_err(), StorageError::Engine("second".to_string()));

    let mut manager = StorageManager::new("t/failed_create");
    manager.record(Err("first".to_string()));
    manager.record(Ok(()));
    manager.record(Err("cannot create".to_string()));
    assert_eq!(manager.phase(), OpenPhase::Failed);
    assert_eq!(manager.open(2).unwrap_err(), StorageError::Engine("cannot create".to_string()));
    manager.record(Ok(()));
    assert_eq!(manager.phase(), OpenPhase::Failed);
}
