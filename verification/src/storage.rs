//! The engine handle, the namespace handles that it gives out, and batches.
//!
//! Nothing here performs a read or a write. A namespace handle turns what its
//! user asks into what the engine has to be asked: the key to read, the
//! writes to commit, the scan to run. The caller puts that to the engine.

use vstd::prelude::*;
use vstd::slice::slice_to_vec;

use crate::clear::StorageClear;
use crate::codec::{build_key, build_log_key, log_key, main_key};
use crate::engine::{writes_of, ColumnFamily, PointRead, Write, WriteOp};
use crate::iterators::{LogStorageIterator, StorageIterator};
use crate::namespace::{
    all_in_namespace, del_write, in_namespace, lemma_writes_in_namespace, log_set_write, set_write,
};
use crate::options::{EngineOptions, FamilyOptions};
use crate::sentinel::Sentinel;

verus! {

/// Why the storage layer could not do what was asked.
#[derive(Clone, Debug, PartialEq, Eq)]
pub enum StorageError {
    /// The engine has not been opened, or not yet.
    NotOpen,
    /// The engine failed; its message.
    Engine(String),
}

/// Where the opening of the engine stands.
#[derive(Clone, Copy, Debug, PartialEq, Eq, Structural)]
pub enum OpenPhase {
    /// The directory is to be opened with both families.
    Both,
    /// That failed: the directory is to be opened with the main family alone,
    /// as a store has it that was written before there was a log.
    Legacy,
    /// The main family is open: the log family is to be created.
    CreateLog,
    /// The engine is open with both families.
    Ready,
    /// The engine could not be opened.
    Failed,
}

/// What the caller has to ask of the engine next, to open it.
#[derive(Debug, PartialEq, Eq)]
pub enum OpenAction {
    /// Open the directory at `path` with these families.
    Open { path: String, options: EngineOptions, families: Vec<FamilyOptions> },
    /// Create a family in the open engine.
    CreateFamily { family: FamilyOptions },
}

/// Where the opening goes after the engine has answered the request of
/// `phase`, well or not. Any failure to open with both families leads to the
/// attempt with the main family alone; a failure after that is final.
pub open spec fn open_step(phase: OpenPhase, succeeded: bool) -> OpenPhase {
    match phase {
        OpenPhase::Both => if succeeded {
            OpenPhase::Ready
        } else {
            OpenPhase::Legacy
        },
        OpenPhase::Legacy => if succeeded {
            OpenPhase::CreateLog
        } else {
            OpenPhase::Failed
        },
        OpenPhase::CreateLog => if succeeded {
            OpenPhase::Ready
        } else {
            OpenPhase::Failed
        },
        OpenPhase::Ready => OpenPhase::Ready,
        OpenPhase::Failed => OpenPhase::Failed,
    }
}

/// The engine handle: the directory of the engine and how far it is open.
/// It shares a sentinel with every namespace handle and every iterator that
/// came from it.
#[derive(Debug)]
pub struct StorageManager {
    path: String,
    phase: OpenPhase,
    error: Option<String>,
    handles: Sentinel,
}

impl StorageManager {
    /// The directory of the engine.
    pub closed spec fn path_view(&self) -> Seq<char> {
        self.path@
    }

    /// Where the opening stands.
    pub closed spec fn phase_view(&self) -> OpenPhase {
        self.phase
    }

    /// The message of the failure that ended the opening, if one did.
    pub closed spec fn error_view(&self) -> Option<Seq<char>> {
        match self.error {
            Some(message) => Some(message@),
            None => None,
        }
    }

    /// A handle for the engine in the directory `path`, which is still to be
    /// opened: see [`StorageManager::next_action`].
    pub fn new(path: &str) -> (manager: StorageManager)
        ensures
            manager.path_view() == path@,
            manager.phase_view() == OpenPhase::Both,
            manager.error_view() == None::<Seq<char>>,
    {
        StorageManager {
            path: path.to_owned(),
            phase: OpenPhase::Both,
            error: None,
            handles: Sentinel::new(),
        }
    }

    /// The directory of the engine.
    pub fn path(&self) -> (path: &str)
        ensures
            path@ == self.path_view(),
    {
        self.path.as_str()
    }

    /// Where the opening stands.
    pub fn phase(&self) -> (phase: OpenPhase)
        ensures
            phase == self.phase_view(),
    {
        self.phase
    }

    /// What to ask of the engine next: to open the directory with both
    /// families, tuned as [`FamilyOptions::main`] and [`FamilyOptions::log`]
    /// say; after a failure, to open it with the main family alone, and then
    /// to create the log family. Nothing once the engine is open or has
    /// failed.
    pub fn next_action(&self) -> (action: Option<OpenAction>)
        ensures
            match self.phase_view() {
                OpenPhase::Both => action matches Some(OpenAction::Open { path, options, families })
                    && path@ == self.path_view() && options.create_if_missing
                    && options.max_background_jobs == 4 && options.enable_pipelined_write
                    && families@.len() == 2 && families@[0].tuned_for_main()
                    && families@[1].tuned_for_log(),
                OpenPhase::Legacy => action matches Some(OpenAction::Open { path, options, families })
                    && path@ == self.path_view() && options.create_if_missing
                    && options.max_background_jobs == 4 && options.enable_pipelined_write
                    && families@.len() == 1 && families@[0].tuned_for_main(),
                OpenPhase::CreateLog => action matches Some(OpenAction::CreateFamily { family })
                    && family.tuned_for_log(),
                OpenPhase::Ready => action is None,
                OpenPhase::Failed => action is None,
            },
    {
        match self.phase {
            OpenPhase::Both => {
                let mut families: Vec<FamilyOptions> = Vec::new();
                families.push(FamilyOptions::main());
                families.push(FamilyOptions::log());
                Some(
                    OpenAction::Open {
                        path: self.path.clone(),
                        options: EngineOptions::tuned(),
                        families,
                    },
                )
            },
            OpenPhase::Legacy => {
                let mut families: Vec<FamilyOptions> = Vec::new();
                families.push(FamilyOptions::main());
                Some(
                    OpenAction::Open {
                        path: self.path.clone(),
                        options: EngineOptions::tuned(),
                        families,
                    },
                )
            },
            OpenPhase::CreateLog => Some(OpenAction::CreateFamily { family: FamilyOptions::log() }),
            OpenPhase::Ready => None,
            OpenPhase::Failed => None,
        }
    }

    /// Takes the engine's answer to the request of [`StorageManager::next_action`]:
    /// `Ok` if it did as asked, else its message. The opening moves on as
    /// [`open_step`] says. The failure that leads to the second attempt is
    /// forgotten; one that ends the opening is kept.
    pub fn record(&mut self, outcome: Result<(), String>)
        ensures
            final(self).path_view() == old(self).path_view(),
            final(self).phase_view() == open_step(old(self).phase_view(), outcome is Ok),
            final(self).error_view() == (match outcome {
                Err(message) if old(self).phase_view() == OpenPhase::Legacy || old(
                    self,
                ).phase_view() == OpenPhase::CreateLog => Some(message@),
                _ => old(self).error_view(),
            }),
    {
        match outcome {
            Ok(()) => {
                self.phase = match self.phase {
                    OpenPhase::Both => OpenPhase::Ready,
                    OpenPhase::Legacy => OpenPhase::CreateLog,
                    OpenPhase::CreateLog => OpenPhase::Ready,
                    OpenPhase::Ready => OpenPhase::Ready,
                    OpenPhase::Failed => OpenPhase::Failed,
                };
            },
            Err(message) => {
                match self.phase {
                    OpenPhase::Both => {
                        self.phase = OpenPhase::Legacy;
                    },
                    OpenPhase::Legacy => {
                        self.phase = OpenPhase::Failed;
                        self.error = Some(message);
                    },
                    OpenPhase::CreateLog => {
                        self.phase = OpenPhase::Failed;
                        self.error = Some(message);
                    },
                    OpenPhase::Ready => {},
                    OpenPhase::Failed => {},
                }
            },
        }
    }

    /// Whether no namespace handle and no iterator of the engine is alive,
    /// now: whether the engine may be closed.
    pub fn is_sole_owner(&self) -> (sole: bool) {
        self.handles.is_sole()
    }

    /// A handle for the namespace `db_num`. Any number of handles may be
    /// opened for one namespace: all of them ask the engine for the same keys.
    /// It is given exactly when the engine is open; a failed opening gives the
    /// engine's message.
    pub fn open(&self, db_num: u16) -> (handle: Result<Storage, StorageError>)
        ensures
            self.phase_view() == OpenPhase::Ready <==> handle is Ok,
            handle matches Ok(storage) ==> storage.num() == db_num,
            handle matches Err(error) ==> (match self.error_view() {
                Some(message) if self.phase_view() == OpenPhase::Failed => error
                    matches StorageError::Engine(text) && text@ == message,
                _ => error == StorageError::NotOpen,
            }),
    {
        match self.phase {
            OpenPhase::Ready => Ok(
                Storage { num: db_num, engine: self.handles.share(), iterators_handle: Sentinel::new() },
            ),
            OpenPhase::Failed => match &self.error {
                Some(message) => Err(StorageError::Engine(message.clone())),
                None => Err(StorageError::NotOpen),
            },
            _ => Err(StorageError::NotOpen),
        }
    }
}

/// The engine is open after the first request if that succeeds, and else
/// after the third if the second and the third succeed; it has failed for
/// good as soon as the second or the third fails. Three answers settle it.
pub proof fn lemma_open_settles(first: bool, second: bool, third: bool)
    ensures
        ({
            let end = open_step(open_step(open_step(OpenPhase::Both, first), second), third);
            &&& end == OpenPhase::Ready || end == OpenPhase::Failed || (first && end
                == OpenPhase::Ready)
            &&& first ==> open_step(OpenPhase::Both, first) == OpenPhase::Ready
            &&& !first ==> (end == OpenPhase::Ready <==> second && third)
            &&& !first ==> (end == OpenPhase::Failed <==> !(second && third))
        }),
{
}

/// A handle for one namespace of the engine. It shares a sentinel with every
/// iterator that came from it.
#[derive(Debug)]
pub struct Storage {
    num: u16,
    engine: Sentinel,
    iterators_handle: Sentinel,
}

/// A batch of writes of one namespace, committed as a whole or not at all.
#[derive(Debug)]
pub struct StorageBatch<'a> {
    storage: &'a Storage,
    reserve: usize,
    ops: Vec<WriteOp>,
}

impl Storage {
    /// The id of the namespace.
    pub closed spec fn num(&self) -> u16 {
        self.num
    }

    /// The id of the namespace.
    pub fn id(&self) -> (num: u16)
        ensures
            num == self.num(),
    {
        self.num
    }

    /// How many iterators of the namespace are alive, now.
    pub fn pending_iterators(&self) -> (pending: usize) {
        self.iterators_handle.others()
    }

    /// Whether no iterator of the namespace is alive, now: whether the
    /// namespace may be cleared, or its handle dropped.
    pub fn check_pending_iters(&self) -> (none: bool) {
        self.iterators_handle.is_sole()
    }

    /// The read that looks up the user key `key`.
    pub fn get(&self, key: &[u8]) -> (read: PointRead)
        ensures
            read.cf == ColumnFamily::Main,
            read.key@ == main_key(self.num(), key@),
    {
        PointRead { cf: ColumnFamily::Main, key: build_key(self.num, key) }
    }

    /// The read that looks up the log position `log_key`.
    pub fn log_get(&self, log_key: (u64, u64)) -> (read: PointRead)
        ensures
            read.cf == ColumnFamily::Log,
            read.key@ == self::log_key(self.num(), log_key.0, log_key.1),
    {
        PointRead { cf: ColumnFamily::Log, key: build_log_key(self.num, log_key) }
    }

    /// The writes to commit for storing `value` under `key`: a batch of one.
    pub fn set(&self, key: &[u8], value: &[u8]) -> (ops: Vec<WriteOp>)
        ensures
            writes_of(ops@) == seq![set_write(self.num(), key@, value@)],
    {
        let mut batch = self.batch_new(0);
        batch.set(key, value);
        let ops = self.batch_write(batch);
        assert(Seq::<Write>::empty().push(set_write(self.num(), key@, value@)) =~= seq![
            set_write(self.num(), key@, value@),
        ]);
        ops
    }

    /// The writes to commit for removing `key`: a batch of one.
    pub fn del(&self, key: &[u8]) -> (ops: Vec<WriteOp>)
        ensures
            writes_of(ops@) == seq![del_write(self.num(), key@)],
    {
        let mut batch = self.batch_new(0);
        batch.del(key);
        let ops = self.batch_write(batch);
        assert(Seq::<Write>::empty().push(del_write(self.num(), key@)) =~= seq![
            del_write(self.num(), key@),
        ]);
        ops
    }

    /// An empty batch for this namespace. `reserve` is a hint of the size of
    /// what will be written.
    pub fn batch_new(&self, reserve: usize) -> (batch: StorageBatch<'_>)
        ensures
            batch.well_formed(),
            batch@ == Seq::<Write>::empty(),
            batch.num() == self.num(),
            batch.reserve_hint() == reserve,
    {
        let batch = StorageBatch { storage: self, reserve, ops: Vec::new() };
        assert(writes_of(batch.ops@) =~= Seq::<Write>::empty());
        batch
    }

    /// Ends a batch: the writes to commit, in the order in which they were
    /// added. The engine is to apply all of them or none, across both
    /// families. Each of them belongs to the namespace of the batch.
    pub fn batch_write(&self, batch: StorageBatch<'_>) -> (ops: Vec<WriteOp>)
        requires
            batch.well_formed(),
        ensures
            writes_of(ops@) == batch@,
            all_in_namespace(batch@, batch.num()),
    {
        batch.ops
    }

    /// The cursor over the main entries of the namespace, in the order of
    /// their keys.
    pub fn iterator(&self) -> (iterator: StorageIterator)
        ensures
            iterator.num() == self.num(),
            iterator.fresh(),
    {
        StorageIterator::new(self.num, self.engine.share(), self.iterators_handle.share())
    }

    /// The cursor over the log entries of the group `prefix`, from the
    /// sequence number `start` on.
    pub fn log_iterator(&self, prefix: u64, start: u64) -> (iterator: LogStorageIterator)
        ensures
            iterator.num() == self.num(),
            iterator.prefix() == prefix,
            iterator.start() == start,
            iterator.fresh(),
    {
        LogStorageIterator::new(
            self.num,
            prefix,
            start,
            self.engine.share(),
            self.iterators_handle.share(),
        )
    }

    /// Begins the removal of everything that the namespace holds, in both
    /// families, unless an iterator of the namespace is alive now: then
    /// nothing may be cleared, and `None` is given.
    pub fn clear(&self) -> (run: Option<StorageClear>)
        ensures
            run matches Some(started) ==> started.num() == self.num() && started.at_start(),
    {
        self.clear_if(self.check_pending_iters())
    }

    /// Begins the removal of everything that the namespace holds exactly if
    /// `unobserved` says that no iterator of the namespace is alive.
    pub fn clear_if(&self, unobserved: bool) -> (run: Option<StorageClear>)
        ensures
            run is Some <==> unobserved,
            run matches Some(started) ==> started.num() == self.num() && started.at_start(),
    {
        if unobserved {
            Some(StorageClear::new(self.num))
        } else {
            None
        }
    }
}

impl<'a> StorageBatch<'a> {
    /// Every write of the batch belongs to the namespace of the batch.
    pub closed spec fn well_formed(&self) -> bool {
        all_in_namespace(writes_of(self.ops@), self.storage.num)
    }

    /// The writes of the batch, in the order in which they were added.
    pub closed spec fn view(&self) -> Seq<Write> {
        writes_of(self.ops@)
    }

    /// The namespace that the batch writes to.
    pub closed spec fn num(&self) -> u16 {
        self.storage.num
    }

    /// The size hint that the batch was made with.
    pub closed spec fn reserve_hint(&self) -> usize {
        self.reserve
    }

    /// The size hint that the batch was made with.
    pub fn reserve(&self) -> (reserve: usize)
        ensures
            reserve == self.reserve_hint(),
    {
        self.reserve
    }

    /// How many writes the batch holds.
    pub fn len(&self) -> (len: usize)
        ensures
            len == self@.len(),
    {
        self.ops.len()
    }

    /// Adds the write that stores `value` under the user key `key`.
    pub fn set(&mut self, key: &[u8], value: &[u8])
        requires
            old(self).well_formed(),
        ensures
            final(self).well_formed(),
            final(self)@ == old(self)@.push(set_write(old(self).num(), key@, value@)),
            final(self).num() == old(self).num(),
            final(self).reserve_hint() == old(self).reserve_hint(),
    {
        let op = WriteOp::Put {
            cf: ColumnFamily::Main,
            key: build_key(self.storage.num, key),
            value: slice_to_vec(value),
        };
        proof {
            lemma_writes_in_namespace(self.storage.num, key@, value@, (0, 0));
        }
        self.add(op);
    }

    /// Adds the write that stores `value` at the log position `key`.
    pub fn log_set(&mut self, key: (u64, u64), value: &[u8])
        requires
            old(self).well_formed(),
        ensures
            final(self).well_formed(),
            final(self)@ == old(self)@.push(log_set_write(old(self).num(), key, value@)),
            final(self).num() == old(self).num(),
            final(self).reserve_hint() == old(self).reserve_hint(),
    {
        let op = WriteOp::Put {
            cf: ColumnFamily::Log,
            key: build_log_key(self.storage.num, key),
            value: slice_to_vec(value),
        };
        proof {
            lemma_writes_in_namespace(self.storage.num, Seq::empty(), value@, key);
        }
        self.add(op);
    }

    /// Adds the write that removes the user key `key`.
    pub fn del(&mut self, key: &[u8])
        requires
            old(self).well_formed(),
        ensures
            final(self).well_formed(),
            final(self)@ == old(self)@.push(del_write(old(self).num(), key@)),
            final(self).num() == old(self).num(),
            final(self).reserve_hint() == old(self).reserve_hint(),
    {
        let op = WriteOp::Delete { cf: ColumnFamily::Main, key: build_key(self.storage.num, key) };
        proof {
            lemma_writes_in_namespace(self.storage.num, key@, Seq::empty(), (0, 0));
        }
        self.add(op);
    }

    fn add(&mut self, op: WriteOp)
        requires
            old(self).well_formed(),
            in_namespace(op@, old(self).num()),
        ensures
            final(self).well_formed(),
            final(self)@ == old(self)@.push(op@),
            final(self).num() == old(self).num(),
            final(self).reserve_hint() == old(self).reserve_hint(),
    {
        self.ops.push(op);
        assert(writes_of(self.ops@) =~= writes_of(old(self).ops@).push(op@));
    }
}

} // verus!
