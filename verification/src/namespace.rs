//! What one namespace sees of the shared store, and why no other namespace
//! can disturb it.

use vstd::prelude::*;

use crate::codec::{
    be16, lemma_be_bytes_len, lemma_be_bytes_order, lemma_be_limits, lemma_log_key_order,
    lemma_log_key_shape, lemma_main_key_order, lemma_main_key_prefix, log_key, main_key,
};
use crate::engine::{
    lemma_apply_all_frame, lemma_apply_all_well_formed, lemma_apply_one, lemma_apply_push,
    ColumnFamily, Store, Write,
};
use crate::lex::has_prefix;

verus! {

/// The write belongs to namespace `num`: its key carries the namespace id in
/// front, and is as long as a log key if it goes to the log.
pub open spec fn in_namespace(write: Write, num: u16) -> bool {
    &&& has_prefix(write.key(), be16(num))
    &&& write.cf() == ColumnFamily::Log ==> write.key().len() == 18
}

/// Every write of the batch belongs to namespace `num`.
pub open spec fn all_in_namespace(writes: Seq<Write>, num: u16) -> bool {
    forall|i: int| 0 <= i < writes.len() ==> in_namespace(#[trigger] writes[i], num)
}

/// The write that stores `value` under the user key `key` of namespace `num`.
pub open spec fn set_write(num: u16, key: Seq<u8>, value: Seq<u8>) -> Write {
    Write::Put { cf: ColumnFamily::Main, key: main_key(num, key), value }
}

/// The write that removes the user key `key` of namespace `num`.
pub open spec fn del_write(num: u16, key: Seq<u8>) -> Write {
    Write::Delete { cf: ColumnFamily::Main, key: main_key(num, key) }
}

/// The write that stores `value` at the log position `position` of namespace `num`.
pub open spec fn log_set_write(num: u16, position: (u64, u64), value: Seq<u8>) -> Write {
    Write::Put { cf: ColumnFamily::Log, key: log_key(num, position.0, position.1), value }
}

impl Store {
    /// The main entries of namespace `num`, by user key.
    pub open spec fn main_of(self, num: u16) -> Map<Seq<u8>, Seq<u8>> {
        Map::new(
            |key: Seq<u8>| self.main.dom().contains(main_key(num, key)),
            |key: Seq<u8>| self.main[main_key(num, key)],
        )
    }

    /// The log entries of namespace `num`, by log position.
    pub open spec fn log_of(self, num: u16) -> Map<(u64, u64), Seq<u8>> {
        Map::new(
            |position: (u64, u64)| self.log.dom().contains(log_key(num, position.0, position.1)),
            |position: (u64, u64)| self.log[log_key(num, position.0, position.1)],
        )
    }

    /// Namespace `num` holds nothing: no key of either family carries its id.
    pub open spec fn holds_nothing_of(self, num: u16) -> bool {
        forall|cf: ColumnFamily, key: Seq<u8>| #[trigger]
            self.family(cf).dom().contains(key) ==> !has_prefix(key, be16(num))
    }
}

/// The writes that a namespace builds belong to it.
pub proof fn lemma_writes_in_namespace(num: u16, key: Seq<u8>, value: Seq<u8>, position: (u64, u64))
    ensures
        in_namespace(set_write(num, key, value), num),
        in_namespace(del_write(num, key), num),
        in_namespace(log_set_write(num, position, value), num),
{
    lemma_main_key_prefix(num, key);
    lemma_log_key_shape(num, position.0, position.1);
}

/// A key carries the id of one namespace only.
pub proof fn lemma_one_namespace(key: Seq<u8>, m: u16, n: u16)
    requires
        has_prefix(key, be16(m)),
        has_prefix(key, be16(n)),
    ensures
        m == n,
{
    lemma_be_limits();
    lemma_be_bytes_len(m as nat, 2);
    lemma_be_bytes_len(n as nat, 2);
    lemma_be_bytes_order(m as nat, n as nat, 2);
}

/// What a read of a namespace finds is what the namespace holds: under a
/// user key its main entry, at a log position its log entry.
pub proof fn lemma_reads_of_namespace(store: Store, num: u16, key: Seq<u8>, position: (u64, u64))
    ensures
        store.get(ColumnFamily::Main, main_key(num, key)) == (if store.main_of(num).dom().contains(
            key,
        ) {
            Some(store.main_of(num)[key])
        } else {
            None
        }),
        store.get(ColumnFamily::Log, log_key(num, position.0, position.1)) == (if store.log_of(
            num,
        ).dom().contains(position) {
            Some(store.log_of(num)[position])
        } else {
            None
        }),
{
}

/// A store that is written through namespaces only stays well formed: the
/// empty store is, and every batch of a namespace keeps it so.
pub proof fn lemma_batch_well_formed(store: Store, writes: Seq<Write>, num: u16)
    requires
        store.well_formed(),
        all_in_namespace(writes, num),
    ensures
        Store::empty().well_formed(),
        store.apply_all(writes).well_formed(),
{
    lemma_be_bytes_len(num as nat, 2);
    lemma_apply_all_well_formed(store, writes);
}

/// To the namespace, a `set` is an insertion into its own map.
pub proof fn lemma_set_main_of(store: Store, num: u16, key: Seq<u8>, value: Seq<u8>)
    ensures
        store.apply(set_write(num, key, value)).main_of(num) == store.main_of(num).insert(key, value),
        store.apply(set_write(num, key, value)).log_of(num) == store.log_of(num),
{
    let after = store.apply(set_write(num, key, value));
    assert forall|other: Seq<u8>| other != key implies main_key(num, other) != main_key(num, key) by {
        lemma_main_key_order(num, other, key);
    }
    assert(after.main_of(num) =~= store.main_of(num).insert(key, value));
    assert(after.log_of(num) =~= store.log_of(num));
}

/// To the namespace, a `del` is a removal from its own map.
pub proof fn lemma_del_main_of(store: Store, num: u16, key: Seq<u8>)
    ensures
        store.apply(del_write(num, key)).main_of(num) == store.main_of(num).remove(key),
        store.apply(del_write(num, key)).log_of(num) == store.log_of(num),
{
    let after = store.apply(del_write(num, key));
    assert forall|other: Seq<u8>| other != key implies main_key(num, other) != main_key(num, key) by {
        lemma_main_key_order(num, other, key);
    }
    assert(after.main_of(num) =~= store.main_of(num).remove(key));
    assert(after.log_of(num) =~= store.log_of(num));
}

/// To the namespace, a `log_set` is an insertion into its own log.
pub proof fn lemma_log_set_log_of(store: Store, num: u16, position: (u64, u64), value: Seq<u8>)
    ensures
        store.apply(log_set_write(num, position, value)).log_of(num) == store.log_of(num).insert(
            position,
            value,
        ),
        store.apply(log_set_write(num, position, value)).main_of(num) == store.main_of(num),
{
    let after = store.apply(log_set_write(num, position, value));
    assert forall|other: (u64, u64)| other != position implies log_key(num, other.0, other.1)
        != log_key(num, position.0, position.1) by {
        lemma_log_key_order(num, other.0, other.1, position.0, position.1);
    }
    assert(after.log_of(num) =~= store.log_of(num).insert(position, value));
    assert(after.main_of(num) =~= store.main_of(num));
}

/// Namespace isolation: a batch of writes of namespace `m` leaves every key
/// of every other namespace as it was, in both families.
pub proof fn lemma_batch_isolated(store: Store, writes: Seq<Write>, m: u16, n: u16)
    requires
        m != n,
        all_in_namespace(writes, m),
    ensures
        forall|cf: ColumnFamily, key: Seq<u8>|
            has_prefix(key, be16(n)) ==> #[trigger] store.apply_all(writes).get(cf, key)
                == store.get(cf, key),
        store.apply_all(writes).main_of(n) == store.main_of(n),
        store.apply_all(writes).log_of(n) == store.log_of(n),
{
    let after = store.apply_all(writes);
    assert forall|cf: ColumnFamily, key: Seq<u8>| has_prefix(key, be16(n)) implies #[trigger]
        after.get(cf, key) == store.get(cf, key) by {
        assert forall|i: int| 0 <= i < writes.len() implies cf != (#[trigger] writes[i]).cf() || key
            != writes[i].key() by {
            if key == writes[i].key() {
                lemma_one_namespace(key, m, n);
            }
        }
        lemma_apply_all_frame(store, writes, cf, key);
    }
    assert forall|key: Seq<u8>|
        after.get(ColumnFamily::Main, #[trigger] main_key(n, key)) == store.get(
            ColumnFamily::Main,
            main_key(n, key),
        ) by {
        lemma_main_key_prefix(n, key);
    }
    assert forall|position: (u64, u64)|
        after.get(ColumnFamily::Log, #[trigger] log_key(n, position.0, position.1)) == store.get(
            ColumnFamily::Log,
            log_key(n, position.0, position.1),
        ) by {
        lemma_log_key_shape(n, position.0, position.1);
    }
    assert(after.main_of(n) =~= store.main_of(n));
    assert(after.log_of(n) =~= store.log_of(n));
}

/// Namespace isolation for one `set`: writing `key` and `value` to namespace
/// `m` leaves what a read of any user key finds in another namespace `n`
/// unchanged.
pub proof fn lemma_set_isolated(
    store: Store,
    m: u16,
    n: u16,
    key: Seq<u8>,
    value: Seq<u8>,
    read_key: Seq<u8>,
)
    requires
        m != n,
    ensures
        store.apply_all(seq![set_write(m, key, value)]).get(
            ColumnFamily::Main,
            main_key(n, read_key),
        ) == store.get(ColumnFamily::Main, main_key(n, read_key)),
{
    lemma_writes_in_namespace(m, key, value, (0, 0));
    lemma_batch_isolated(store, seq![set_write(m, key, value)], m, n);
    lemma_main_key_prefix(n, read_key);
}

/// Round trip: after a `set` of `key` to `value`, a read of `key` finds
/// `value`, and goes on finding it through any later writes that are not
/// about `key`.
pub proof fn lemma_set_then_get(
    store: Store,
    num: u16,
    key: Seq<u8>,
    value: Seq<u8>,
    later: Seq<Write>,
)
    requires
        forall|i: int|
            0 <= i < later.len() ==> (#[trigger] later[i]).cf() != ColumnFamily::Main || later[i].key()
                != main_key(num, key),
    ensures
        store.apply_all(seq![set_write(num, key, value)]).apply_all(later).get(
            ColumnFamily::Main,
            main_key(num, key),
        ) == Some(value),
{
    lemma_apply_one(store, set_write(num, key, value));
    lemma_apply_all_frame(
        store.apply(set_write(num, key, value)),
        later,
        ColumnFamily::Main,
        main_key(num, key),
    );
}

/// After a `del` of `key`, a read of `key` finds nothing.
pub proof fn lemma_del_then_get(store: Store, num: u16, key: Seq<u8>)
    ensures
        store.apply_all(seq![del_write(num, key)]).get(ColumnFamily::Main, main_key(num, key))
            == None::<Seq<u8>>,
{
    lemma_apply_one(store, del_write(num, key));
}

/// Idempotent delete: deleting a key twice leaves the store as deleting it
/// once does.
pub proof fn lemma_del_idempotent(store: Store, num: u16, key: Seq<u8>)
    ensures
        store.apply_all(seq![del_write(num, key)]).apply_all(seq![del_write(num, key)])
            == store.apply_all(seq![del_write(num, key)]),
{
    let once = store.apply(del_write(num, key));
    lemma_apply_one(store, del_write(num, key));
    lemma_apply_one(once, del_write(num, key));
    assert(once.main.remove(main_key(num, key)) =~= once.main);
    assert(once.apply(del_write(num, key)) =~= once);
}

/// A batch of a `set` and a `log_set` shows both: the value under the key
/// and the entry at the log position.
pub proof fn lemma_set_and_log_set(
    store: Store,
    num: u16,
    key: Seq<u8>,
    value: Seq<u8>,
    position: (u64, u64),
    entry: Seq<u8>,
)
    ensures
        ({
            let after = store.apply_all(
                seq![set_write(num, key, value), log_set_write(num, position, entry)],
            );
            &&& after.get(ColumnFamily::Main, main_key(num, key)) == Some(value)
            &&& after.get(ColumnFamily::Log, log_key(num, position.0, position.1)) == Some(entry)
        }),
{
    let first = seq![set_write(num, key, value)];
    assert(first.push(log_set_write(num, position, entry)) =~= seq![
        set_write(num, key, value),
        log_set_write(num, position, entry),
    ]);
    lemma_apply_push(store, first, log_set_write(num, position, entry));
    lemma_apply_one(store, set_write(num, key, value));
}

} // verus!
