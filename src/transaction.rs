//! The typed transaction handle and the batch it applies.
use std::marker::PhantomData;
use vstd::prelude::*;

use crate::codec::{decodable, CodecError, Key, Value};
use crate::engine::{
    apply_writes, batch_empty, batch_insert, batch_remove, batch_writes, is_engine_error, lookup,
    no_writes, opt_bytes, tree_apply_batch, tree_contents, tree_generate_id, tree_get,
    tree_id_floor, tree_insert, tree_remove, ConflictableTransactionError,
    ConflictableTransactionResult,
};

verus! {

/// A decoded value stands for the stored bytes: `None` where nothing is
/// stored, a value with exactly those bytes where something is.
pub open spec fn holds<V: Value>(o: Option<V>, found: Option<Seq<u8>>) -> bool {
    match (o, found) {
        (None, None) => true,
        (Some(v), Some(b)) => v.raw_value() == Ok::<Seq<u8>, CodecError>(b),
        _ => false,
    }
}

/// What a read that found `found` may return: the decoded value, an abort
/// where the stored bytes decode to no value, or an engine error.
pub open spec fn read_outcome<V: Value>(
    r: ConflictableTransactionResult<Option<V>>,
    found: Option<Seq<u8>>,
) -> bool {
    match r {
        Ok(o) => holds(o, found),
        Err(ConflictableTransactionError::Abort(e)) => found matches Some(b) && !decodable::<V>(b)
            && e == V::decode_error(b),
        Err(_) => true,
    }
}

/// What a write that replaced `prior` may return: the decoded prior value,
/// an abort with the decoder's error where the prior bytes decode to no
/// value, or an engine error.
/// Where it does not fail in the engine, `written` holds: the write took effect.
pub open spec fn replace_outcome<V: Value>(
    r: ConflictableTransactionResult<Option<V>>,
    prior: Option<Seq<u8>>,
    written: bool,
) -> bool {
    match r {
        Ok(o) => holds(o, prior) && written,
        Err(ConflictableTransactionError::Abort(e)) => prior matches Some(b) && !decodable::<V>(b)
            && e == V::decode_error(b) && written,
        Err(_) => true,
    }
}

/// Decodes what a raw read returned: absence stays `None`, stored bytes
/// become a value or an abort, and an engine error is passed on.
pub fn decode_found<V: Value>(found: ConflictableTransactionResult<Option<Vec<u8>>>) -> (r:
    ConflictableTransactionResult<Option<V>>)
    ensures
        match found {
            Ok(None) => r matches Ok(None),
            Ok(Some(b)) => if decodable::<V>(b@) {
                r matches Ok(Some(v)) && v.raw_value() == Ok::<Seq<u8>, CodecError>(b@)
            } else {
                r matches Err(ConflictableTransactionError::Abort(e)) && e == V::decode_error(b@)
            },
            Err(e) => r matches Err(e2) && e2 == e,
        },
{
    match found {
        Ok(None) => Ok(None),
        Ok(Some(b)) => match V::from_raw_value(b) {
            Ok(v) => Ok(Some(v)),
            Err(e) => Err(ConflictableTransactionError::Abort(e)),
        },
        Err(e) => Err(e),
    }
}

/// Whether a raw read found something; an engine error is passed on.
pub fn presence(found: ConflictableTransactionResult<Option<Vec<u8>>>) -> (r:
    ConflictableTransactionResult<bool>)
    ensures
        match found {
            Ok(o) => r matches Ok(b) && b == o is Some,
            Err(e) => r matches Err(e2) && e2 == e,
        },
{
    match found {
        Ok(o) => Ok(o.is_some()),
        Err(e) => Err(e),
    }
}

/// A set of writes, encoded when they are added, so that a key or value that
/// does not encode fails there and never reaches a transaction. A later
/// write of a key replaces an earlier one.
pub struct WriteBatch<K, V> {
    raw: sled::Batch,
    keys: PhantomData<K>,
    values: PhantomData<V>,
}

impl<K: Key, V: Value> WriteBatch<K, V> {
    /// The encoded writes: `Some(bytes)` to set a key, `None` to remove it.
    pub closed spec fn writes(&self) -> Map<Seq<u8>, Option<Seq<u8>>> {
        batch_writes(self.raw)
    }

    /// An empty batch.
    pub fn new() -> (r: Self)
        ensures
            r.writes() == no_writes(),
    {
        WriteBatch { raw: batch_empty(), keys: PhantomData, values: PhantomData }
    }

    /// Adds a write of `value` under `key`. The key is encoded first, then
    /// the value; where either fails, that error is returned and the batch
    /// is left as it was.
    pub fn set(&mut self, key: &K, value: &V) -> (r: Result<(), CodecError>)
        ensures
            key.raw_key() is Err ==> r == Err::<(), CodecError>(key.raw_key()->Err_0)
                && final(self).writes() == old(self).writes(),
            key.raw_key() is Ok && value.raw_value() is Err ==> r == Err::<(), CodecError>(
                value.raw_value()->Err_0,
            ) && final(self).writes() == old(self).writes(),
            key.raw_key() is Ok && value.raw_value() is Ok ==> r is Ok && final(self).writes()
                == old(self).writes().insert(key.raw_key()->Ok_0, Some(value.raw_value()->Ok_0)),
    {
        let kb = key.to_raw_key()?;
        let vb = value.to_raw_value()?;
        batch_insert(&mut self.raw, kb, vb);
        Ok(())
    }

    /// Adds a removal of `key`; where the key does not encode, that error is
    /// returned and the batch is left as it was.
    pub fn remove(&mut self, key: &K) -> (r: Result<(), CodecError>)
        ensures
            key.raw_key() is Err ==> r == Err::<(), CodecError>(key.raw_key()->Err_0)
                && final(self).writes() == old(self).writes(),
            key.raw_key() is Ok ==> r is Ok && final(self).writes() == old(self).writes().insert(
                key.raw_key()->Ok_0,
                None,
            ),
    {
        let kb = key.to_raw_key()?;
        batch_remove(&mut self.raw, kb);
        Ok(())
    }
}

/// A handle on one attempt of a transaction over a tree, with typed keys and
/// values. It holds the attempt's tree by `&mut`, so while it lives the tree
/// is reached through it alone.
pub struct Transaction<'b, K, V> {
    tree: &'b mut sled::transaction::TransactionalTree,
    keys: PhantomData<K>,
    values: PhantomData<V>,
}

impl<'b, K: Key, V: Value> Transaction<'b, K, V> {
    /// What the attempt's tree holds, by encoded key.
    pub closed spec fn contents(&self) -> Map<Seq<u8>, Seq<u8>> {
        tree_contents(*self.tree)
    }

    /// A bound below every identifier that this attempt is handed from now on.
    pub closed spec fn id_floor(&self) -> int {
        tree_id_floor(*self.tree)
    }

    /// Wraps the tree of the current attempt.
    pub fn new(t: &'b mut sled::transaction::TransactionalTree) -> (r: Self)
        ensures
            r.contents() == tree_contents(*old(t)),
            r.id_floor() == tree_id_floor(*old(t)),
    {
        Transaction { tree: t, keys: PhantomData, values: PhantomData }
    }

    /// The value stored under `key`, or `None`. Where the key does not
    /// encode, the attempt aborts with the key's error.
    pub fn get(&self, key: &K) -> (r: ConflictableTransactionResult<Option<V>>)
        ensures
            key.raw_key() is Err ==> (r matches Err(ConflictableTransactionError::Abort(e)) && e
                == key.raw_key()->Err_0),
            key.raw_key() is Ok ==> read_outcome(r, lookup(self.contents(), key.raw_key()->Ok_0)),
    {
        let kb = match key.to_raw_key() {
            Ok(b) => b,
            Err(e) => return Err(ConflictableTransactionError::Abort(e)),
        };
        let found = tree_get(self.tree, kb.as_slice());
        decode_found(found)
    }

    /// Whether something is stored under `key`, without decoding it. Where
    /// the key does not encode, the attempt aborts with the key's error.
    pub fn contains(&self, key: &K) -> (r: ConflictableTransactionResult<bool>)
        ensures
            key.raw_key() is Err ==> (r matches Err(ConflictableTransactionError::Abort(e)) && e
                == key.raw_key()->Err_0),
            key.raw_key() is Ok ==> match r {
                Ok(b) => b == lookup(self.contents(), key.raw_key()->Ok_0) is Some,
                Err(e) => is_engine_error(e),
            },
    {
        let kb = match key.to_raw_key() {
            Ok(b) => b,
            Err(e) => return Err(ConflictableTransactionError::Abort(e)),
        };
        let found = tree_get(self.tree, kb.as_slice());
        presence(found)
    }

    /// Stores `value` under `key` and returns the value it replaced. The key
    /// is encoded first, then the value; where either fails, the attempt
    /// aborts with that error before the tree is touched.
    pub fn set(&mut self, key: &K, value: &V) -> (r: ConflictableTransactionResult<Option<V>>)
        ensures
            final(self).id_floor() == old(self).id_floor(),
            key.raw_key() is Err ==> {
                &&& r matches Err(ConflictableTransactionError::Abort(e)) && e == key.raw_key()->Err_0
                &&& final(self).contents() == old(self).contents()
            },
            key.raw_key() is Ok && value.raw_value() is Err ==> {
                &&& r matches Err(ConflictableTransactionError::Abort(e)) && e
                    == value.raw_value()->Err_0
                &&& final(self).contents() == old(self).contents()
            },
            key.raw_key() is Ok && value.raw_value() is Ok ==> replace_outcome(
                r,
                lookup(old(self).contents(), key.raw_key()->Ok_0),
                final(self).contents() == old(self).contents().insert(
                    key.raw_key()->Ok_0,
                    value.raw_value()->Ok_0,
                ),
            ),
    {
        let kb = match key.to_raw_key() {
            Ok(b) => b,
            Err(e) => return Err(ConflictableTransactionError::Abort(e)),
        };
        let vb = match value.to_raw_value() {
            Ok(b) => b,
            Err(e) => return Err(ConflictableTransactionError::Abort(e)),
        };
        let found = tree_insert(self.tree, kb, vb);
        decode_found(found)
    }

    /// Removes what is stored under `key` and returns it. Where the key does
    /// not encode, the attempt aborts with the key's error before the tree
    /// is touched.
    pub fn remove(&mut self, key: &K) -> (r: ConflictableTransactionResult<Option<V>>)
        ensures
            final(self).id_floor() == old(self).id_floor(),
            key.raw_key() is Err ==> {
                &&& r matches Err(ConflictableTransactionError::Abort(e)) && e == key.raw_key()->Err_0
                &&& final(self).contents() == old(self).contents()
            },
            key.raw_key() is Ok ==> {
                &&& final(self).contents() == old(self).contents().remove(key.raw_key()->Ok_0)
                &&& replace_outcome(r, lookup(old(self).contents(), key.raw_key()->Ok_0), true)
            },
    {
        let kb = match key.to_raw_key() {
            Ok(b) => b,
            Err(e) => return Err(ConflictableTransactionError::Abort(e)),
        };
        let found = tree_remove(self.tree, kb);
        decode_found(found)
    }

    /// Applies every write of `batch` as part of this attempt.
    pub fn batch(&mut self, batch: &WriteBatch<K, V>) -> (r: ConflictableTransactionResult<()>)
        ensures
            final(self).id_floor() == old(self).id_floor(),
            match r {
                Ok(_) => final(self).contents() == apply_writes(old(self).contents(), batch.writes()),
                Err(e) => is_engine_error(e),
            },
    {
        tree_apply_batch(self.tree, &batch.raw)
    }

    /// A fresh identifier from the engine's counter: above every identifier
    /// this attempt was handed before, though not always the next number.
    pub fn generate_id(&mut self) -> (r: ConflictableTransactionResult<u64>)
        ensures
            final(self).contents() == old(self).contents(),
            final(self).id_floor() >= old(self).id_floor(),
            match r {
                Ok(id) => old(self).id_floor() <= id < final(self).id_floor(),
                Err(e) => is_engine_error(e),
            },
    {
        tree_generate_id(self.tree)
    }
}

} // verus!
