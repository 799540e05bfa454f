use kv::{decode_found, presence, CodecError, ConflictableTransactionError, ConflictableTransactionResult};
use kv::{Transaction, WriteBatch};
use sled::transaction::TransactionError;

type SledResult<T> = sled::transaction::ConflictableTransactionResult<T, CodecError>;

fn to_sled<T>(r: ConflictableTransactionResult<T>) -> SledResult<T> {
    match r {
        Ok(v) => Ok(v),
        Err(ConflictableTransactionError::Abort(e)) => {
            Err(sled::transaction::ConflictableTransactionError::Abort(e))
        }
        Err(ConflictableTransactionError::Conflict) => {
            Err(sled::transaction::ConflictableTransactionError::Conflict)
        }
        Err(ConflictableTransactionError::Storage(e)) => {
            Err(sled::transaction::ConflictableTransactionError::Storage(e))
        }
    }
}

fn temp_db() -> sled::Db {
    sled::Config::new().temporary(true).open().unwrap()
}

#[test]
fn example_scenario() {
    let db = temp_db();
    let r: Result<(), TransactionError<CodecError>> = db.transaction(|t| {
        let mut tree = t.clone();
        let mut tx = Transaction::<u32, String>::new(&mut tree);
        to_sled(tx.set(&42, &"hello".to_string()))?;
        Ok(())
    });
    r.unwrap();
    let got: Result<Option<String>, TransactionError<CodecError>> = db.transaction(|t| {
        let mut tree = t.clone();
        let tx = Transaction::<u32, String>::new(&mut tree);
        to_sled(tx.get(&42))
    });
    assert_eq!(got.unwrap(), Some("hello".to_string()));
    let removed: Result<Option<String>, TransactionError<CodecError>> = db.transaction(|t| {
        let mut tree = t.clone();
        let mut tx = Transaction::<u32, String>::new(&mut tree);
        to_sled(tx.remove(&42))
    });
    assert_eq!(removed.unwrap(), Some("hello".to_string()));
    let after: Result<Option<String>, TransactionError<CodecError>> = db.transaction(|t| {
        let mut tree = t.clone();
        let tx = Transaction::<u32, String>::new(&mut tree);
        to_sled(tx.get(&42))
    });
    assert_eq!(after.unwrap(), None);
}

#[test]
fn get_after_set_within_attempt() {
    let db = temp_db();
    let r: Result<Option<String>, TransactionError<CodecError>> = db.transaction(|t| {
        let mut tree = t.clone();
        let mut tx = Transaction::<u32, String>::new(&mut tree);
        to_sled(tx.set(&7, &"seven".to_string()))?;
        to_sled(tx.get(&7))
    });
    assert_eq!(r.unwrap(), Some("seven".to_string()));
}

#[test]
fn set_returns_prior_value() {
    let db = temp_db();
    let r: Result<(Option<u32>, Option<u32>), TransactionError<CodecError>> = db.transaction(|t| {
        let mut tree = t.clone();
        let mut tx = Transaction::<String, u32>::new(&mut tree);
        let first = to_sled(tx.set(&"k".to_string(), &1))?;
        let second = to_sled(tx.set(&"k".to_string(), &2))?;
        Ok((first, second))
    });
    assert_eq!(r.unwrap(), (None, Some(1)));
}

#[test]
fn remove_returns_prior_and_clears() {
    let db = temp_db();
    let r: Result<(Option<Vec<u8>>, Option<Vec<u8>>, Option<Vec<u8>>), TransactionError<CodecError>> =
        db.transaction(|t| {
            let mut tree = t.clone();
            let mut tx = Transaction::<u64, Vec<u8>>::new(&mut tree);
            to_sled(tx.set(&5, &vec![1, 2, 3]))?;
            let removed = to_sled(tx.remove(&5))?;
            let after = to_sled(tx.get(&5))?;
            let again = to_sled(tx.remove(&5))?;
            Ok((removed, after, again))
        });
    assert_eq!(r.unwrap(), (Some(vec![1, 2, 3]), None, None));
}

#[test]
fn contains_mirrors_get() {
    let db = temp_db();
    let r: Result<(bool, bool, bool, bool), TransactionError<CodecError>> = db.transaction(|t| {
        let mut tree = t.clone();
        let mut tx = Transaction::<u32, u32>::new(&mut tree);
        let before = to_sled(tx.contains(&1))?;
        let before_get = to_sled(tx.get(&1))?.is_some();
        to_sled(tx.set(&1, &10))?;
        let after = to_sled(tx.contains(&1))?;
        let after_get = to_sled(tx.get(&1))?.is_some();
        Ok((before, before_get, after, after_get))
    });
    assert_eq!(r.unwrap(), (false, false, true, true));
}

#[test]
fn batch_applies_every_write() {
    let db = temp_db();
    let mut batch = WriteBatch::<u32, String>::new();
    batch.set(&1, &"one".to_string()).unwrap();
    batch.set(&2, &"two".to_string()).unwrap();
    batch.remove(&3).unwrap();
    batch.set(&2, &"deux".to_string()).unwrap();
    let r: Result<Vec<Option<String>>, TransactionError<CodecError>> = db.transaction(|t| {
        let mut tree = t.clone();
        let mut tx = Transaction::<u32, String>::new(&mut tree);
        to_sled(tx.set(&3, &"three".to_string()))?;
        to_sled(tx.batch(&batch))?;
        Ok(vec![to_sled(tx.get(&1))?, to_sled(tx.get(&2))?, to_sled(tx.get(&3))?])
    });
    assert_eq!(r.unwrap(), vec![Some("one".to_string()), Some("deux".to_string()), None]);
}

fn store_raw(db: &sled::Db, key: u32, bytes: Vec<u8>) {
    let r: Result<(), TransactionError<CodecError>> = db.transaction(|t| {
        let mut tree = t.clone();
        let mut raw = Transaction::<u32, Vec<u8>>::new(&mut tree);
        to_sled(raw.set(&key, &bytes))?;
        Ok(())
    });
    r.unwrap();
}

#[test]
fn aborted_attempt_leaves_no_writes() {
    let db = temp_db();
    store_raw(&db, 9, vec![1, 2, 3]);
    let r: Result<(), TransactionError<CodecError>> = db.transaction(|t| {
        let mut tree = t.clone();
        let mut typed = Transaction::<u32, u32>::new(&mut tree);
        to_sled(typed.set(&8, &80))?;
        to_sled(typed.get(&9))?;
        Ok(())
    });
    match r {
        Err(TransactionError::Abort(e)) => assert_eq!(e, CodecError::Decode),
        other => panic!("expected an abort, got {:?}", other),
    }
    let after: Result<(bool, bool), TransactionError<CodecError>> = db.transaction(|t| {
        let mut tree = t.clone();
        let tx = Transaction::<u32, u32>::new(&mut tree);
        Ok((to_sled(tx.contains(&8))?, to_sled(tx.contains(&9))?))
    });
    assert_eq!(after.unwrap(), (false, true));
}

#[test]
fn undecodable_prior_value_aborts_set() {
    let db = temp_db();
    store_raw(&db, 1, vec![0xff]);
    let r: Result<Option<String>, TransactionError<CodecError>> = db.transaction(|t| {
        let mut tree = t.clone();
        let mut typed = Transaction::<u32, String>::new(&mut tree);
        to_sled(typed.set(&1, &"x".to_string()))
    });
    assert!(matches!(r, Err(TransactionError::Abort(CodecError::Decode))));
}

#[test]
fn undecodable_prior_value_aborts_remove() {
    let db = temp_db();
    store_raw(&db, 2, vec![0xff]);
    let r: Result<Option<String>, TransactionError<CodecError>> = db.transaction(|t| {
        let mut tree = t.clone();
        let mut typed = Transaction::<u32, String>::new(&mut tree);
        to_sled(typed.remove(&2))
    });
    assert!(matches!(r, Err(TransactionError::Abort(CodecError::Decode))));
    let after: Result<bool, TransactionError<CodecError>> = db.transaction(|t| {
        let mut tree = t.clone();
        let tx = Transaction::<u32, String>::new(&mut tree);
        to_sled(tx.contains(&2))
    });
    assert_eq!(after.unwrap(), true);
}

#[test]
fn generated_ids_are_distinct() {
    let db = temp_db();
    let r: Result<(u64, u64, u64), TransactionError<CodecError>> = db.transaction(|t| {
        let mut tree = t.clone();
        let mut tx = Transaction::<u32, u32>::new(&mut tree);
        let a = to_sled(tx.generate_id())?;
        to_sled(tx.set(&1, &1))?;
        let b = to_sled(tx.generate_id())?;
        let c = to_sled(tx.generate_id())?;
        Ok((a, b, c))
    });
    let (a, b, c) = r.unwrap();
    assert!(a < b);
    assert!(b < c);
}

#[test]
fn presence_reports_found_and_absent() {
    assert!(matches!(presence(Ok(Some(vec![1]))), Ok(true)));
    assert!(matches!(presence(Ok(Some(vec![]))), Ok(true)));
    assert!(matches!(presence(Ok(None)), Ok(false)));
    assert!(matches!(presence(Err(ConflictableTransactionError::Conflict)), Err(ConflictableTransactionError::Conflict)));
}

#[test]
fn decode_found_absent() {
    let r: ConflictableTransactionResult<Option<u32>> = decode_found(Ok(None));
    assert!(matches!(r, Ok(None)));
}

#[test]
fn decode_found_decodes_stored_bytes() {
    let r: ConflictableTransactionResult<Option<u32>> = decode_found(Ok(Some(vec![0, 0, 1, 2])));
    assert!(matches!(r, Ok(Some(258))));
}

#[test]
fn decode_found_aborts_on_bad_bytes() {
    let r: ConflictableTransactionResult<Option<u32>> = decode_found(Ok(Some(vec![1, 2])));
    assert!(matches!(r, Err(ConflictableTransactionError::Abort(CodecError::Decode))));
}

#[test]
fn decode_found_passes_conflict_on() {
    let r: ConflictableTransactionResult<Option<u32>> =
        decode_found(Err(ConflictableTransactionError::Conflict));
    assert!(matches!(r, Err(ConflictableTransactionError::Conflict)));
}
