//! The removal of everything that a namespace holds.
//!
//! For each of the two families in turn, the engine is first asked to drop the
//! files that lie wholly within the namespace's range of keys, which is
//! cheap, and then every key that is left in the range is deleted one by one
//! under a cursor. The run below says what to ask of the engine at each step.

use vstd::prelude::*;
use vstd::slice::slice_to_vec;

use crate::codec::{
    be16, build_key, lemma_be_bytes_len, lemma_be_bytes_order, lemma_be_limits,
    lemma_log_key_shape, lemma_main_key_of_any, lemma_main_key_prefix, log_key, main_key,
    namespace_of,
};
use crate::engine::{is_scan_of, lemma_apply_push, ColumnFamily, Scan, ScanPlan, Store, Write};
use crate::iterators::{lemma_log_scan_covers, lemma_main_scan_covers, log_scan, main_scan};
use crate::lex::{has_prefix, lemma_lex_leading, lemma_lex_total, lex_le, lex_lt};
use crate::namespace::lemma_one_namespace;

verus! {

/// The first key after those of namespace `num`: the id of the next
/// namespace, and nothing after the last namespace, whose range has no end.
pub open spec fn clear_upper(num: u16) -> Option<Seq<u8>> {
    if num < u16::MAX {
        Some(be16((num + 1) as u16))
    } else {
        None
    }
}

/// The key lies in the range of namespace `num`: at or after its id, and
/// before the id of the next namespace.
pub open spec fn in_clear_range(num: u16, key: Seq<u8>) -> bool {
    &&& lex_le(be16(num), key)
    &&& clear_upper(num) matches Some(bound) ==> lex_lt(key, bound)
}

/// The scan over what is left of namespace `num` in `cf`.
pub open spec fn clear_scan(num: u16, cf: ColumnFamily) -> Scan {
    Scan {
        cf,
        start: be16(num),
        upper_bound: clear_upper(num),
        prefix_same_as_start: true,
        total_order_seek: false,
    }
}

/// One request of a run to the engine.
#[derive(Clone, Debug, PartialEq, Eq)]
pub enum ClearAction {
    /// Drop the files of `cf` that lie wholly within the range from `from` to
    /// before `to`, or to the end where `to` is `None`.
    DeleteFilesInRange { cf: ColumnFamily, from: Vec<u8>, to: Option<Vec<u8>> },
    /// Open a cursor for the scan and go to its first entry.
    Seek { plan: ScanPlan },
    /// Delete `key` from `cf`.
    Delete { cf: ColumnFamily, key: Vec<u8> },
    /// Go to the entry after the current one.
    Next { cf: ColumnFamily },
}

/// A request of a run, as contracts speak of it.
pub enum ClearRequest {
    DeleteFilesInRange { cf: ColumnFamily, from: Seq<u8>, to: Option<Seq<u8>> },
    Seek { scan: Scan },
    Delete { cf: ColumnFamily, key: Seq<u8> },
    Next { cf: ColumnFamily },
}

impl View for ClearAction {
    type V = ClearRequest;

    open spec fn view(&self) -> ClearRequest {
        match *self {
            ClearAction::DeleteFilesInRange { cf, from, to } => ClearRequest::DeleteFilesInRange {
                cf,
                from: from@,
                to: match to {
                    Some(bound) => Some(bound@),
                    None => None,
                },
            },
            ClearAction::Seek { plan } => ClearRequest::Seek { scan: plan@ },
            ClearAction::Delete { cf, key } => ClearRequest::Delete { cf, key: key@ },
            ClearAction::Next { cf } => ClearRequest::Next { cf },
        }
    }
}

/// Where a run stands: what it asks of the engine next.
pub enum ClearState {
    /// The files within the range are to be dropped.
    Trim { cf: ColumnFamily },
    /// The cursor is to be opened.
    Seek { cf: ColumnFamily },
    /// The key under the cursor is to be deleted.
    Delete { cf: ColumnFamily, key: Seq<u8> },
    /// The cursor is to step forward.
    Next { cf: ColumnFamily },
    /// Nothing is left to do.
    Done,
}

/// What the run asks of the engine in `state`, for namespace `num`.
pub open spec fn clear_request(num: u16, state: ClearState) -> Option<ClearRequest> {
    match state {
        ClearState::Trim { cf } => Some(
            ClearRequest::DeleteFilesInRange { cf, from: be16(num), to: clear_upper(num) },
        ),
        ClearState::Seek { cf } => Some(ClearRequest::Seek { scan: clear_scan(num, cf) }),
        ClearState::Delete { cf, key } => Some(ClearRequest::Delete { cf, key }),
        ClearState::Next { cf } => Some(ClearRequest::Next { cf }),
        ClearState::Done => None,
    }
}

/// Where the run goes from `state` once the engine has done what was asked.
/// `position` is the key that the cursor stands on after a seek or a step,
/// `None` at its end; it counts for nothing after the other requests. The
/// main family comes first, the log family second.
pub open spec fn clear_step(state: ClearState, position: Option<Seq<u8>>) -> ClearState {
    match state {
        ClearState::Trim { cf } => ClearState::Seek { cf },
        ClearState::Delete { cf, key } => ClearState::Next { cf },
        ClearState::Seek { cf } => clear_visit(cf, position),
        ClearState::Next { cf } => clear_visit(cf, position),
        ClearState::Done => ClearState::Done,
    }
}

/// Where the run goes when the cursor over `cf` reports `position`.
pub open spec fn clear_visit(cf: ColumnFamily, position: Option<Seq<u8>>) -> ClearState {
    match position {
        Some(key) => ClearState::Delete { cf, key },
        None => match cf {
            ColumnFamily::Main => ClearState::Trim { cf: ColumnFamily::Log },
            ColumnFamily::Log => ClearState::Done,
        },
    }
}

#[derive(Clone, Debug, PartialEq, Eq)]
enum ClearPhase {
    Trim(ColumnFamily),
    Seek(ColumnFamily),
    Delete(ColumnFamily, Vec<u8>),
    Next(ColumnFamily),
    Done,
}

/// A run of the removal of everything that one namespace holds.
#[derive(Clone, Debug, PartialEq, Eq)]
pub struct StorageClear {
    num: u16,
    phase: ClearPhase,
}

impl StorageClear {
    /// The namespace that the run clears.
    pub closed spec fn num(&self) -> u16 {
        self.num
    }

    /// Where the run stands.
    pub closed spec fn state(&self) -> ClearState {
        match self.phase {
            ClearPhase::Trim(cf) => ClearState::Trim { cf },
            ClearPhase::Seek(cf) => ClearState::Seek { cf },
            ClearPhase::Delete(cf, key) => ClearState::Delete { cf, key: key@ },
            ClearPhase::Next(cf) => ClearState::Next { cf },
            ClearPhase::Done => ClearState::Done,
        }
    }

    /// The run has not begun: its first request is for the files of the main
    /// family.
    pub open spec fn at_start(&self) -> bool {
        self.state() == (ClearState::Trim { cf: ColumnFamily::Main })
    }

    pub(crate) fn new(num: u16) -> (run: StorageClear)
        ensures
            run.num() == num,
            run.at_start(),
    {
        StorageClear { num, phase: ClearPhase::Trim(ColumnFamily::Main) }
    }

    fn upper_bound(&self) -> (bound: Option<Vec<u8>>)
        ensures
            (match bound {
                Some(key) => Some(key@),
                None => None,
            }) == clear_upper(self.num()),
    {
        if self.num < u16::MAX {
            Some(build_key(self.num + 1, &[]))
        } else {
            None
        }
    }

    /// Whether the run has ended.
    pub fn is_done(&self) -> (done: bool)
        ensures
            done == (self.state() == ClearState::Done),
    {
        match self.phase {
            ClearPhase::Done => true,
            _ => false,
        }
    }

    /// What to ask of the engine now; `None` when the run has ended.
    pub fn next_action(&self) -> (action: Option<ClearAction>)
        ensures
            (match action {
                Some(request) => Some(request@),
                None => None,
            }) == clear_request(self.num(), self.state()),
    {
        match &self.phase {
            ClearPhase::Trim(cf) => Some(
                ClearAction::DeleteFilesInRange {
                    cf: *cf,
                    from: build_key(self.num, &[]),
                    to: self.upper_bound(),
                },
            ),
            ClearPhase::Seek(cf) => Some(
                ClearAction::Seek {
                    plan: ScanPlan {
                        cf: *cf,
                        start: build_key(self.num, &[]),
                        upper_bound: self.upper_bound(),
                        prefix_same_as_start: true,
                        total_order_seek: false,
                    },
                },
            ),
            ClearPhase::Delete(cf, key) => Some(
                ClearAction::Delete { cf: *cf, key: slice_to_vec(key.as_slice()) },
            ),
            ClearPhase::Next(cf) => Some(ClearAction::Next { cf: *cf }),
            ClearPhase::Done => None,
        }
    }

    /// Moves the run on, once the engine has done what was asked. `position`
    /// is the key that the cursor stands on after a seek or a step, `None` at
    /// its end.
    pub fn advance(&mut self, position: Option<&[u8]>)
        ensures
            final(self).num() == old(self).num(),
            final(self).state() == clear_step(
                old(self).state(),
                match position {
                    Some(key) => Some(key@),
                    None => None,
                },
            ),
    {
        let next = match &self.phase {
            ClearPhase::Trim(cf) => ClearPhase::Seek(*cf),
            ClearPhase::Delete(cf, _) => ClearPhase::Next(*cf),
            ClearPhase::Seek(cf) => Self::visit(*cf, position),
            ClearPhase::Next(cf) => Self::visit(*cf, position),
            ClearPhase::Done => ClearPhase::Done,
        };
        self.phase = next;
    }

    fn visit(cf: ColumnFamily, position: Option<&[u8]>) -> (phase: ClearPhase)
        ensures
            (StorageClear { num: 0, phase }).state() == clear_visit(
                cf,
                match position {
                    Some(key) => Some(key@),
                    None => None,
                },
            ),
    {
        match position {
            Some(key) => ClearPhase::Delete(cf, slice_to_vec(key)),
            None => match cf {
                ColumnFamily::Main => ClearPhase::Trim(ColumnFamily::Log),
                ColumnFamily::Log => ClearPhase::Done,
            },
        }
    }
}

/// The deletions that a run asks for when its cursor over `cf` yields
/// `items`: one for the key of each, in order.
pub open spec fn deletes_of(cf: ColumnFamily, items: Seq<(Seq<u8>, Seq<u8>)>) -> Seq<Write> {
    items.map_values(|entry: (Seq<u8>, Seq<u8>)| Write::Delete { cf, key: entry.0 })
}

/// The deletion that the run asks for in `state`, if it asks for one.
pub open spec fn asked_delete(state: ClearState) -> Seq<Write> {
    match state {
        ClearState::Delete { cf, key } => seq![Write::Delete { cf, key }],
        _ => Seq::empty(),
    }
}

/// The deletions that a run asks for from `state` on, while the engine
/// answers its requests with `events` in turn.
pub open spec fn run_deletes(state: ClearState, events: Seq<Option<Seq<u8>>>) -> Seq<Write>
    decreases events.len(),
{
    if events.len() == 0 {
        Seq::empty()
    } else {
        asked_delete(state) + run_deletes(clear_step(state, events[0]), events.drop_first())
    }
}

/// Where a run stands after the engine has answered its requests from
/// `state` on with `events` in turn.
pub open spec fn run_end(state: ClearState, events: Seq<Option<Seq<u8>>>) -> ClearState
    decreases events.len(),
{
    if events.len() == 0 {
        state
    } else {
        run_end(clear_step(state, events[0]), events.drop_first())
    }
}

/// The answers of the engine while a cursor walks over `items`: each key
/// under the cursor, then the answer to its deletion, and the end of the
/// cursor at last.
pub open spec fn walk_events(items: Seq<(Seq<u8>, Seq<u8>)>) -> Seq<Option<Seq<u8>>>
    decreases items.len(),
{
    if items.len() == 0 {
        seq![None]
    } else {
        seq![Some(items[0].0), None] + walk_events(items.drop_first())
    }
}

/// The answers of the engine over a whole run: its answer to the dropping of
/// files and the walk of the cursor, for the main family and then for the
/// log family.
pub open spec fn clear_events(
    main_items: Seq<(Seq<u8>, Seq<u8>)>,
    log_items: Seq<(Seq<u8>, Seq<u8>)>,
) -> Seq<Option<Seq<u8>>> {
    seq![None] + walk_events(main_items) + (seq![None] + walk_events(log_items))
}

/// While its cursor walks over `items`, a run asks for the deletion of the
/// key of each item, in order, and then goes on as after the end of the
/// cursor.
pub proof fn lemma_walk_deletes(
    cf: ColumnFamily,
    state: ClearState,
    items: Seq<(Seq<u8>, Seq<u8>)>,
    rest: Seq<Option<Seq<u8>>>,
)
    requires
        state == (ClearState::Seek { cf }) || state == (ClearState::Next { cf }),
    ensures
        run_deletes(state, walk_events(items) + rest) == deletes_of(cf, items) + run_deletes(
            clear_visit(cf, None),
            rest,
        ),
        run_end(state, walk_events(items) + rest) == run_end(clear_visit(cf, None), rest),
    decreases items.len(),
{
    let events = walk_events(items) + rest;
    if items.len() == 0 {
        assert(events.drop_first() =~= rest);
        assert(deletes_of(cf, items) =~= Seq::<Write>::empty());
        assert(run_deletes(state, events) =~= run_deletes(clear_visit(cf, None), rest));
    } else {
        let tail = walk_events(items.drop_first()) + rest;
        let deleting = ClearState::Delete { cf, key: items[0].0 };
        assert(events[0] == Some(items[0].0));
        assert(events.drop_first()[0] == None::<Seq<u8>>);
        assert(events.drop_first().drop_first() =~= tail);
        assert(clear_step(state, events[0]) == deleting);
        assert(clear_step(deleting, None) == (ClearState::Next { cf }));
        lemma_walk_deletes(cf, ClearState::Next { cf }, items.drop_first(), rest);
        assert(run_deletes(deleting, events.drop_first()) == asked_delete(deleting) + run_deletes(
            ClearState::Next { cf },
            tail,
        ));
        assert(deletes_of(cf, items) =~= asked_delete(deleting) + deletes_of(cf, items.drop_first()));
        assert(run_deletes(state, events) =~= deletes_of(cf, items) + run_deletes(
            clear_visit(cf, None),
            rest,
        ));
        assert(run_end(deleting, events.drop_first()) == run_end(ClearState::Next { cf }, tail));
    }
}

/// Over a whole run, from its start, exactly the keys that the two cursors
/// yield are deleted, those of the main family first, and the run ends when
/// the cursor over the log family does.
pub proof fn lemma_clear_run(main_items: Seq<(Seq<u8>, Seq<u8>)>, log_items: Seq<(Seq<u8>, Seq<u8>)>)
    ensures
        run_deletes(ClearState::Trim { cf: ColumnFamily::Main }, clear_events(main_items, log_items))
            == deletes_of(ColumnFamily::Main, main_items) + deletes_of(ColumnFamily::Log, log_items),
        run_end(ClearState::Trim { cf: ColumnFamily::Main }, clear_events(main_items, log_items))
            == ClearState::Done,
{
    let start = ClearState::Trim { cf: ColumnFamily::Main };
    let events = clear_events(main_items, log_items);
    let second = seq![None] + walk_events(log_items);
    let none = Seq::<Option<Seq<u8>>>::empty();
    assert(events.len() > 0 && events[0] == None::<Seq<u8>>);
    assert(events.drop_first() =~= walk_events(main_items) + second);
    lemma_walk_deletes(ColumnFamily::Main, ClearState::Seek { cf: ColumnFamily::Main }, main_items, second);
    assert(second.drop_first() =~= walk_events(log_items));
    assert(walk_events(log_items) =~= walk_events(log_items) + none);
    lemma_walk_deletes(ColumnFamily::Log, ClearState::Seek { cf: ColumnFamily::Log }, log_items, none);
    assert(run_deletes(ClearState::Trim { cf: ColumnFamily::Log }, second) =~= deletes_of(
        ColumnFamily::Log,
        log_items,
    ));
    assert(run_deletes(start, events) =~= deletes_of(ColumnFamily::Main, main_items) + deletes_of(
        ColumnFamily::Log,
        log_items,
    ));
}

/// Of the keys of at least two bytes, the range of a namespace holds exactly
/// those that carry its id.
pub proof fn lemma_clear_range(num: u16, key: Seq<u8>)
    requires
        key.len() >= 2,
    ensures
        in_clear_range(num, key) <==> has_prefix(key, be16(num)),
        forall|cf: ColumnFamily| #[trigger]
            clear_scan(num, cf).covers(key) <==> has_prefix(key, be16(num)),
{
    let owner = namespace_of(key);
    lemma_main_key_of_any(key);
    lemma_be_limits();
    lemma_be_bytes_len(num as nat, 2);
    lemma_be_bytes_len(owner as nat, 2);
    lemma_be_bytes_order(num as nat, owner as nat, 2);
    lemma_be_bytes_order(owner as nat, num as nat, 2);
    lemma_lex_leading(key, be16(num));
    lemma_lex_total(be16(num), be16(owner));
    assert(key.take(2) == be16(owner));
    assert(be16(num).take(2) =~= be16(num));
    if num < u16::MAX {
        let bound = be16((num + 1) as u16);
        lemma_be_bytes_len((num + 1) as nat, 2);
        lemma_be_bytes_order(owner as nat, (num + 1) as nat, 2);
        lemma_lex_leading(key, bound);
    }
    if has_prefix(key, be16(num)) {
        lemma_one_namespace(key, num, owner);
    }
}

/// Deleting the keys of `items` from `cf` removes exactly those keys, and
/// leaves the other family alone.
pub proof fn lemma_apply_deletes(
    store: Store,
    cf: ColumnFamily,
    items: Seq<(Seq<u8>, Seq<u8>)>,
    other: ColumnFamily,
    key: Seq<u8>,
)
    ensures
        store.apply_all(deletes_of(cf, items)).get(other, key) == (if other == cf && exists|i: int|
            0 <= i < items.len() && #[trigger] items[i].0 == key {
            None
        } else {
            store.get(other, key)
        }),
    decreases items.len(),
{
    if items.len() > 0 {
        let rest = items.drop_last();
        let last = Write::Delete { cf, key: items.last().0 };
        assert(deletes_of(cf, items) =~= deletes_of(cf, rest).push(last));
        lemma_apply_push(store, deletes_of(cf, rest), last);
        lemma_apply_deletes(store, cf, rest, other, key);
        if other == cf {
            if exists|i: int| 0 <= i < rest.len() && #[trigger] rest[i].0 == key {
                let i = choose|i: int| 0 <= i < rest.len() && #[trigger] rest[i].0 == key;
                assert(items[i].0 == key);
            }
            if exists|i: int| 0 <= i < items.len() && #[trigger] items[i].0 == key {
                let i = choose|i: int| 0 <= i < items.len() && #[trigger] items[i].0 == key;
                if i < rest.len() {
                    assert(rest[i].0 == key);
                }
            }
        }
    }
}

/// The store after a run over namespace `num`. In each family the engine
/// first dropped some of the keys within the range, `main_gone` and
/// `log_gone`, and the cursor then yielded `main_items` and `log_items`,
/// whose keys were deleted.
pub open spec fn cleared(
    store: Store,
    main_gone: Set<Seq<u8>>,
    main_items: Seq<(Seq<u8>, Seq<u8>)>,
    log_gone: Set<Seq<u8>>,
    log_items: Seq<(Seq<u8>, Seq<u8>)>,
) -> Store {
    store.without(ColumnFamily::Main, main_gone).apply_all(
        deletes_of(ColumnFamily::Main, main_items),
    ).without(ColumnFamily::Log, log_gone).apply_all(deletes_of(ColumnFamily::Log, log_items))
}

/// Clear: after a run over namespace `num`, no key of either family carries
/// the namespace's id, so that its iterator and its log iterators, of any
/// group and from any start, yield nothing; and every key of every other
/// namespace is as it was. This holds whichever keys within the range the
/// engine dropped with its files.
pub proof fn lemma_clear(
    store: Store,
    num: u16,
    main_gone: Set<Seq<u8>>,
    main_items: Seq<(Seq<u8>, Seq<u8>)>,
    log_gone: Set<Seq<u8>>,
    log_items: Seq<(Seq<u8>, Seq<u8>)>,
)
    requires
        store.well_formed(),
        forall|key: Seq<u8>| #[trigger] main_gone.contains(key) ==> in_clear_range(num, key),
        forall|key: Seq<u8>| #[trigger] log_gone.contains(key) ==> in_clear_range(num, key),
        is_scan_of(
            main_items,
            store.without(ColumnFamily::Main, main_gone).main,
            clear_scan(num, ColumnFamily::Main),
        ),
        is_scan_of(
            log_items,
            store.without(ColumnFamily::Log, log_gone).log,
            clear_scan(num, ColumnFamily::Log),
        ),
    ensures
        ({
            let after = cleared(store, main_gone, main_items, log_gone, log_items);
            &&& after.well_formed()
            &&& after.holds_nothing_of(num)
            &&& after.main_of(num) == Map::<Seq<u8>, Seq<u8>>::empty()
            &&& after.log_of(num) == Map::<(u64, u64), Seq<u8>>::empty()
            &&& forall|cf: ColumnFamily, key: Seq<u8>|
                !has_prefix(key, be16(num)) ==> #[trigger] after.get(cf, key) == store.get(cf, key)
            &&& forall|other: u16|
                other != num ==> #[trigger] after.main_of(other) == store.main_of(other)
                    && after.log_of(other) == store.log_of(other)
            &&& forall|items: Seq<(Seq<u8>, Seq<u8>)>| #[trigger]
                is_scan_of(items, after.main, main_scan(num)) ==> items.len() == 0
            &&& forall|items: Seq<(Seq<u8>, Seq<u8>)>, prefix: u64, start: u64| #[trigger]
                is_scan_of(items, after.log, log_scan(num, prefix, start)) ==> items.len() == 0
        }),
{
    let s1 = store.without(ColumnFamily::Main, main_gone);
    let s2 = s1.apply_all(deletes_of(ColumnFamily::Main, main_items));
    let s3 = s2.without(ColumnFamily::Log, log_gone);
    let after = s3.apply_all(deletes_of(ColumnFamily::Log, log_items));
    assert(after == cleared(store, main_gone, main_items, log_gone, log_items));
    assert forall|cf: ColumnFamily, key: Seq<u8>|
        #![trigger after.get(cf, key)]
        #![trigger after.family(cf).dom().contains(key)]
        (after.get(cf, key) is Some ==> store.get(cf, key) is Some && !has_prefix(key, be16(num)))
            && (!has_prefix(key, be16(num)) ==> after.get(cf, key) == store.get(cf, key)) by {
        lemma_apply_deletes(s1, ColumnFamily::Main, main_items, cf, key);
        lemma_apply_deletes(s3, ColumnFamily::Log, log_items, cf, key);
        if store.get(cf, key) is Some {
            assert(store.family(cf).dom().contains(key));
            lemma_clear_range(num, key);
            match cf {
                ColumnFamily::Main => {
                    assert(s3.main == s2.main);
                    assert(s1.log == store.log);
                    if has_prefix(key, be16(num)) && !main_gone.contains(key) {
                        assert(s1.main.dom().contains(key));
                        assert(clear_scan(num, ColumnFamily::Main).covers(key));
                    }
                },
                ColumnFamily::Log => {
                    assert(s1.log == store.log);
                    assert(s2.get(cf, key) == s1.get(cf, key));
                    if has_prefix(key, be16(num)) && !log_gone.contains(key) {
                        assert(store.without(ColumnFamily::Log, log_gone).log.dom().contains(key));
                        assert(clear_scan(num, ColumnFamily::Log).covers(key));
                    }
                },
            }
        }
    }
    assert(after.well_formed()) by {
        assert forall|key: Seq<u8>| #[trigger] after.main.dom().contains(key) implies key.len()
            >= 2 by {
            assert(after.family(ColumnFamily::Main).dom().contains(key));
            assert(after.get(ColumnFamily::Main, key) is Some);
            assert(store.main.dom().contains(key));
        }
        assert forall|key: Seq<u8>| #[trigger] after.log.dom().contains(key) implies key.len()
            == 18 by {
            assert(after.family(ColumnFamily::Log).dom().contains(key));
            assert(after.get(ColumnFamily::Log, key) is Some);
            assert(store.log.dom().contains(key));
        }
    }
    assert(after.holds_nothing_of(num)) by {
        assert forall|cf: ColumnFamily, key: Seq<u8>| #[trigger]
            after.family(cf).dom().contains(key) implies !has_prefix(key, be16(num)) by {
            assert(after.get(cf, key) is Some);
        }
    }
    lemma_holds_nothing(after, num);
    assert forall|other: u16| other != num implies #[trigger] after.main_of(other) == store.main_of(
        other,
    ) && after.log_of(other) == store.log_of(other) by {
        assert forall|key: Seq<u8>|
            after.get(ColumnFamily::Main, #[trigger] main_key(other, key))
                == store.get(ColumnFamily::Main, main_key(other, key)) by {
            let physical = main_key(other, key);
            lemma_main_key_prefix(other, key);
            if has_prefix(physical, be16(num)) {
                lemma_one_namespace(physical, other, num);
            }
        }
        assert forall|position: (u64, u64)|
            after.get(
                ColumnFamily::Log,
                #[trigger] log_key(other, position.0, position.1),
            ) == store.get(ColumnFamily::Log, log_key(other, position.0, position.1)) by {
            let physical = log_key(other, position.0, position.1);
            lemma_log_key_shape(other, position.0, position.1);
            if has_prefix(physical, be16(num)) {
                lemma_one_namespace(physical, other, num);
            }
        }
        assert(after.main_of(other) =~= store.main_of(other));
        assert(after.log_of(other) =~= store.log_of(other));
    }
}

/// A namespace of which the store holds no key has no main entry and no log
/// entry, and its iterators yield nothing: the engine's cursor finds no entry
/// for the scan of its main entries, nor for the scan of any group of its log.
pub proof fn lemma_holds_nothing(store: Store, num: u16)
    requires
        store.holds_nothing_of(num),
    ensures
        store.main_of(num) == Map::<Seq<u8>, Seq<u8>>::empty(),
        store.log_of(num) == Map::<(u64, u64), Seq<u8>>::empty(),
        forall|items: Seq<(Seq<u8>, Seq<u8>)>| #[trigger]
            is_scan_of(items, store.main, main_scan(num)) ==> items.len() == 0,
        forall|items: Seq<(Seq<u8>, Seq<u8>)>, prefix: u64, start: u64|
            store.well_formed() && #[trigger] is_scan_of(
                items,
                store.log,
                log_scan(num, prefix, start),
            ) ==> items.len() == 0,
{
    assert forall|key: Seq<u8>| !store.main.dom().contains(#[trigger] main_key(num, key)) by {
        lemma_main_key_prefix(num, key);
        assert(store.family(ColumnFamily::Main) == store.main);
    }
    assert forall|position: (u64, u64)|
        !store.log.dom().contains(#[trigger] log_key(num, position.0, position.1)) by {
        lemma_log_key_shape(num, position.0, position.1);
        assert(store.family(ColumnFamily::Log) == store.log);
    }
    assert(store.main_of(num) =~= Map::<Seq<u8>, Seq<u8>>::empty());
    assert(store.log_of(num) =~= Map::<(u64, u64), Seq<u8>>::empty());
    assert forall|items: Seq<(Seq<u8>, Seq<u8>)>| #[trigger]
        is_scan_of(items, store.main, main_scan(num)) implies items.len() == 0 by {
        if items.len() > 0 {
            lemma_main_scan_covers(num, items[0].0);
            assert(store.family(ColumnFamily::Main).dom().contains(items[0].0));
        }
    }
    assert forall|items: Seq<(Seq<u8>, Seq<u8>)>, prefix: u64, start: u64|
        store.well_formed() && #[trigger] is_scan_of(
            items,
            store.log,
            log_scan(num, prefix, start),
        ) implies items.len() == 0 by {
        if items.len() > 0 {
            let key = items[0].0;
            assert(store.log.dom().contains(key));
            lemma_log_scan_covers(num, prefix, start, key);
            lemma_main_key_of_any(key);
            assert(store.family(ColumnFamily::Log).dom().contains(key));
        }
    }
}

} // verus!
