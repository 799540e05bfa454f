//! The raw engine: sled's transactional tree and batch, as seen by the library.
use vstd::prelude::*;

verus! {

#[verifier::external_type_specification]
#[verifier::external_body]
pub struct ExTransactionalTree(sled::transaction::TransactionalTree);

#[verifier::external_type_specification]
#[verifier::external_body]
pub struct ExBatch(sled::Batch);

#[verifier::external_type_specification]
#[verifier::external_body]
pub struct ExSledError(sled::Error);

/// What one attempt's tree holds: the committed contents overlaid with the
/// attempt's own writes. Clones of a transactional tree share that state;
/// verified code reaches it through a single `&mut` and makes no clones.
pub uninterp spec fn tree_contents(t: sled::transaction::TransactionalTree) -> Map<Seq<u8>, Seq<u8>>;

/// A bound below every identifier that the tree's counter hands out from now on.
pub uninterp spec fn tree_id_floor(t: sled::transaction::TransactionalTree) -> int;

/// The writes a batch holds: `Some(v)` to set a key, `None` to remove it.
pub uninterp spec fn batch_writes(b: sled::Batch) -> Map<Seq<u8>, Option<Seq<u8>>>;

/// Why an operation of an attempt did not succeed. `E` is the application's
/// own reason for aborting; the library's operations abort with a
/// `CodecError`.
#[derive(Debug)]
pub enum ConflictableTransactionError<E> {
    /// The application asked to abort the attempt, with its own reason.
    Abort(E),
    /// The engine saw a conflict: the whole attempt is run again.
    Conflict,
    /// The storage failed: the transaction ends with this error.
    Storage(sled::Error),
}

pub type ConflictableTransactionResult<T, E = crate::codec::CodecError> = Result<
    T,
    ConflictableTransactionError<E>,
>;

/// A byte vector seen as an optional sequence.
pub open spec fn opt_bytes(o: Option<Vec<u8>>) -> Option<Seq<u8>> {
    match o {
        Some(v) => Some(v@),
        None => None,
    }
}

/// What a map holds at a key, as an option.
pub open spec fn lookup(m: Map<Seq<u8>, Seq<u8>>, k: Seq<u8>) -> Option<Seq<u8>> {
    if m.contains_key(k) {
        Some(m[k])
    } else {
        None
    }
}

/// The contents after a set of writes: each written key takes its new value,
/// or leaves the map where the write is a removal.
pub open spec fn apply_writes(
    m: Map<Seq<u8>, Seq<u8>>,
    w: Map<Seq<u8>, Option<Seq<u8>>>,
) -> Map<Seq<u8>, Seq<u8>> {
    Map::new(
        |k: Seq<u8>|
            if w.contains_key(k) {
                w[k] is Some
            } else {
                m.contains_key(k)
            },
        |k: Seq<u8>|
            if w.contains_key(k) {
                w[k]->0
            } else {
                m[k]
            },
    )
}

/// The writes of an empty batch.
pub open spec fn no_writes() -> Map<Seq<u8>, Option<Seq<u8>>> {
    Map::empty()
}

/// An error that came from the engine rather than from the application.
pub open spec fn is_engine_error<E>(e: ConflictableTransactionError<E>) -> bool {
    !(e is Abort)
}

/// Relies on sled's `TransactionalTree::get`: it answers from the attempt's
/// writes, then from its read cache, then from the tree, which no other
/// writer changes while the attempt holds sled's transaction lock.
#[verifier::external_body]
pub(crate) fn tree_get(t: &sled::transaction::TransactionalTree, key: &[u8]) -> (r: ConflictableTransactionResult<Option<Vec<u8>>>)
    ensures
        match r {
            Ok(o) => opt_bytes(o) == lookup(tree_contents(*t), key@),
            Err(e) => is_engine_error(e),
        },
{
    match t.get(key) {
        Ok(o) => Ok(o.map(|v| v.to_vec())),
        Err(sled::transaction::UnabortableTransactionError::Conflict) => Err(ConflictableTransactionError::Conflict),
        Err(sled::transaction::UnabortableTransactionError::Storage(e)) => Err(ConflictableTransactionError::Storage(e)),
    }
}

/// Relies on sled's `TransactionalTree::insert`: it reads the previous value
/// as `get` does and, when that read succeeds, records the new value among
/// the attempt's writes; it does not touch the identifier counter.
#[verifier::external_body]
pub(crate) fn tree_insert(t: &mut sled::transaction::TransactionalTree, key: Vec<u8>, value: Vec<u8>) -> (r: ConflictableTransactionResult<Option<Vec<u8>>>)
    ensures
        tree_id_floor(*final(t)) == tree_id_floor(*old(t)),
        match r {
            Ok(o) => {
                &&& opt_bytes(o) == lookup(tree_contents(*old(t)), key@)
                &&& tree_contents(*final(t)) == tree_contents(*old(t)).insert(key@, value@)
            },
            Err(e) => is_engine_error(e),
        },
{
    match t.insert(key, value) {
        Ok(o) => Ok(o.map(|v| v.to_vec())),
        Err(sled::transaction::UnabortableTransactionError::Conflict) => Err(ConflictableTransactionError::Conflict),
        Err(sled::transaction::UnabortableTransactionError::Storage(e)) => Err(ConflictableTransactionError::Storage(e)),
    }
}

/// Relies on sled's `TransactionalTree::remove`: it reads the previous value
/// as `get` does and records the removal among the attempt's writes whether
/// or not that read succeeded; it does not touch the identifier counter.
#[verifier::external_body]
pub(crate) fn tree_remove(t: &mut sled::transaction::TransactionalTree, key: Vec<u8>) -> (r: ConflictableTransactionResult<Option<Vec<u8>>>)
    ensures
        tree_id_floor(*final(t)) == tree_id_floor(*old(t)),
        tree_contents(*final(t)) == tree_contents(*old(t)).remove(key@),
        match r {
            Ok(o) => opt_bytes(o) == lookup(tree_contents(*old(t)), key@),
            Err(e) => is_engine_error(e),
        },
{
    match t.remove(key) {
        Ok(o) => Ok(o.map(|v| v.to_vec())),
        Err(sled::transaction::UnabortableTransactionError::Conflict) => Err(ConflictableTransactionError::Conflict),
        Err(sled::transaction::UnabortableTransactionError::Storage(e)) => Err(ConflictableTransactionError::Storage(e)),
    }
}

/// Relies on sled's `TransactionalTree::apply_batch`: it inserts or removes
/// each of the batch's writes in turn, so that when every step succeeds the
/// contents hold the batch's writes over what was there.
#[verifier::external_body]
pub(crate) fn tree_apply_batch(t: &mut sled::transaction::TransactionalTree, batch: &sled::Batch) -> (r: ConflictableTransactionResult<()>)
    ensures
        tree_id_floor(*final(t)) == tree_id_floor(*old(t)),
        match r {
            Ok(_) => tree_contents(*final(t)) == apply_writes(tree_contents(*old(t)), batch_writes(*batch)),
            Err(e) => is_engine_error(e),
        },
{
    match t.apply_batch(batch) {
        Ok(()) => Ok(()),
        Err(sled::transaction::UnabortableTransactionError::Conflict) => Err(ConflictableTransactionError::Conflict),
        Err(sled::transaction::UnabortableTransactionError::Storage(e)) => Err(ConflictableTransactionError::Storage(e)),
    }
}

/// Relies on sled's `TransactionalTree::generate_id`: the shared counter is
/// advanced by one with `fetch_add` before anything can fail, so each
/// identifier handed out is above every earlier one (the counter would have
/// to pass `u64::MAX` first); the contents do not change.
#[verifier::external_body]
pub(crate) fn tree_generate_id(t: &mut sled::transaction::TransactionalTree) -> (r: ConflictableTransactionResult<u64>)
    ensures
        tree_contents(*final(t)) == tree_contents(*old(t)),
        tree_id_floor(*final(t)) >= tree_id_floor(*old(t)),
        match r {
            Ok(id) => tree_id_floor(*old(t)) <= id < tree_id_floor(*final(t)),
            Err(e) => is_engine_error(e),
        },
{
    match t.generate_id() {
        Ok(id) => Ok(id),
        Err(e) => Err(ConflictableTransactionError::Storage(e)),
    }
}

/// Relies on `sled::Batch::default`: a new batch holds no writes.
#[verifier::external_body]
pub(crate) fn batch_empty() -> (r: sled::Batch)
    ensures
        batch_writes(r) == no_writes(),
{
    sled::Batch::default()
}

/// Relies on `sled::Batch::insert`: the key's write becomes the new value,
/// replacing any earlier write of the same key.
#[verifier::external_body]
pub(crate) fn batch_insert(b: &mut sled::Batch, key: Vec<u8>, value: Vec<u8>)
    ensures
        batch_writes(*final(b)) == batch_writes(*old(b)).insert(key@, Some(value@)),
{
    b.insert(key, value)
}

/// Relies on `sled::Batch::remove`: the key's write becomes a removal,
/// replacing any earlier write of the same key.
#[verifier::external_body]
pub(crate) fn batch_remove(b: &mut sled::Batch, key: Vec<u8>)
    ensures
        batch_writes(*final(b)) == batch_writes(*old(b)).insert(key@, None),
{
    b.remove(key)
}

} // verus!
