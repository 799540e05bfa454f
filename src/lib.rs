//! Typed transactions over a sled tree: keys and values are encoded to bytes
//! through the `Key` and `Value` capabilities, and every operation of one
//! attempt is stated over the attempt's byte-level contents.

pub mod codec;
pub mod engine;
pub mod laws;
pub mod transaction;

pub use codec::{CodecError, Key, Value};
pub use engine::{ConflictableTransactionError, ConflictableTransactionResult};
pub use transaction::{decode_found, presence, Transaction, WriteBatch};
