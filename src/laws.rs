//! What holds across the operations of one attempt, stated over the
//! contracts of `Transaction`.
use vstd::prelude::*;

use crate::codec::{CodecError, Key, Value};
use crate::engine::{apply_writes, is_engine_error, lookup, ConflictableTransactionResult};
use crate::transaction::{read_outcome, replace_outcome, Transaction};

verus! {

/// Get after set: once `set(key, value)` has taken effect on contents `m`, a
/// `get(key)` returns a value with `value`'s encoding, unless the engine
/// fails. `r` stands for any result that `get` may return there.
pub proof fn law_get_after_set<K: Key, V: Value>(
    m: Map<Seq<u8>, Seq<u8>>,
    key: K,
    value: V,
    r: ConflictableTransactionResult<Option<V>>,
)
    requires
        key.raw_key() is Ok,
        value.raw_value() is Ok,
        read_outcome(r, lookup(m.insert(key.raw_key()->Ok_0, value.raw_value()->Ok_0), key.raw_key()->Ok_0)),
    ensures
        match r {
            Ok(o) => o matches Some(w) && w.raw_value() == value.raw_value(),
            Err(e) => is_engine_error(e),
        },
{
    assert(m.insert(key.raw_key()->Ok_0, value.raw_value()->Ok_0).contains_key(key.raw_key()->Ok_0));
    assert(value.raw_value() == Ok::<Seq<u8>, CodecError>(value.raw_value()->Ok_0));
}

/// Set returns the prior value: once `set(key, v1)` has taken effect on
/// contents `m`, a second `set(key, v2)` returns a value with `v1`'s
/// encoding, unless the engine fails. `r` stands for any result that the
/// second `set` may return, and `written` whether its write took effect.
pub proof fn law_set_returns_prior<K: Key, V: Value>(
    m: Map<Seq<u8>, Seq<u8>>,
    key: K,
    v1: V,
    v2: V,
    r: ConflictableTransactionResult<Option<V>>,
    written: bool,
)
    requires
        key.raw_key() is Ok,
        v1.raw_value() is Ok,
        v2.raw_value() is Ok,
        replace_outcome(
            r,
            lookup(m.insert(key.raw_key()->Ok_0, v1.raw_value()->Ok_0), key.raw_key()->Ok_0),
            written,
        ),
    ensures
        match r {
            Ok(o) => o matches Some(w) && w.raw_value() == v1.raw_value(),
            Err(e) => is_engine_error(e),
        },
{
    assert(m.insert(key.raw_key()->Ok_0, v1.raw_value()->Ok_0).contains_key(key.raw_key()->Ok_0));
    assert(v1.raw_value() == Ok::<Seq<u8>, CodecError>(v1.raw_value()->Ok_0));
}

/// Remove returns the prior value and clears it: once `set(key, value)` has
/// taken effect on contents `m`, `remove(key)` returns a value with
/// `value`'s encoding, and a following `get(key)` returns `None`, unless the
/// engine fails. `removed` and `after` stand for any results that `remove`
/// and `get` may return there.
pub proof fn law_remove_returns_prior_and_clears<K: Key, V: Value>(
    m: Map<Seq<u8>, Seq<u8>>,
    key: K,
    value: V,
    removed: ConflictableTransactionResult<Option<V>>,
    after: ConflictableTransactionResult<Option<V>>,
)
    requires
        key.raw_key() is Ok,
        value.raw_value() is Ok,
        replace_outcome(
            removed,
            lookup(m.insert(key.raw_key()->Ok_0, value.raw_value()->Ok_0), key.raw_key()->Ok_0),
            true,
        ),
        read_outcome(
            after,
            lookup(
                m.insert(key.raw_key()->Ok_0, value.raw_value()->Ok_0).remove(key.raw_key()->Ok_0),
                key.raw_key()->Ok_0,
            ),
        ),
    ensures
        match removed {
            Ok(o) => o matches Some(w) && w.raw_value() == value.raw_value(),
            Err(e) => is_engine_error(e),
        },
        match after {
            Ok(o) => o is None,
            Err(e) => is_engine_error(e),
        },
{
    assert(m.insert(key.raw_key()->Ok_0, value.raw_value()->Ok_0).contains_key(key.raw_key()->Ok_0));
    assert(value.raw_value() == Ok::<Seq<u8>, CodecError>(value.raw_value()->Ok_0));
}

/// Contains mirrors get: on the same contents `m`, a `contains` that returns
/// `c` and a `get` that succeeds with `r` agree on whether the key is there.
pub proof fn law_contains_mirrors_get<V: Value>(
    m: Map<Seq<u8>, Seq<u8>>,
    kb: Seq<u8>,
    r: ConflictableTransactionResult<Option<V>>,
    c: bool,
)
    requires
        read_outcome(r, lookup(m, kb)),
        c == lookup(m, kb) is Some,
        r is Ok,
    ensures
        c == r->Ok_0 is Some,
{
}

/// Identifiers are unique within an attempt: of two `generate_id` calls made
/// in turn, with any operations between them (`t0` to `t3` are the handle's
/// states around the calls), the later returns a larger identifier.
pub proof fn law_generated_ids_increase<'b, K: Key, V: Value>(
    t0: Transaction<'b, K, V>,
    t1: Transaction<'b, K, V>,
    t2: Transaction<'b, K, V>,
    t3: Transaction<'b, K, V>,
    id1: u64,
    id2: u64,
)
    requires
        t0.id_floor() <= id1 < t1.id_floor(),
        t1.id_floor() <= t2.id_floor(),
        t2.id_floor() <= id2 < t3.id_floor(),
    ensures
        id1 < id2,
{
}

/// Batch atomicity, at the batch: a write whose key or value failed to
/// encode (`r` is the error `set` returned, `before` and `after` the batch's
/// writes around that call) never entered the batch, so applying the batch
/// to any contents `m` gives what it gave before that call.
pub proof fn law_failed_batch_write_not_applied(
    m: Map<Seq<u8>, Seq<u8>>,
    before: Map<Seq<u8>, Option<Seq<u8>>>,
    after: Map<Seq<u8>, Option<Seq<u8>>>,
    r: Result<(), CodecError>,
)
    requires
        r is Err,
        r is Err ==> after == before,
    ensures
        apply_writes(m, after) == apply_writes(m, before),
{
}

/// Batch atomicity, in the tree: once a batch with writes `w` is applied to
/// contents `m`, every one of its writes is visible, and no other key changed.
pub proof fn law_batch_applies_whole(m: Map<Seq<u8>, Seq<u8>>, w: Map<Seq<u8>, Option<Seq<u8>>>)
    ensures
        forall|k: Seq<u8>| #[trigger]
            w.contains_key(k) ==> lookup(apply_writes(m, w), k) == w[k],
        forall|k: Seq<u8>| #[trigger]
            lookup(apply_writes(m, w), k) != lookup(m, k) ==> w.contains_key(k),
{
}

} // verus!
