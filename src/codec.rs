//! The codec capabilities: how keys and values become bytes and back.
use vstd::prelude::*;
use vstd::slice::slice_to_vec;
use vstd::utf8::{decode_utf8, encode_utf8, valid_utf8};

verus! {

/// Why a key or a value could not be turned into bytes or back.
#[derive(Debug, Clone, Copy, PartialEq, Eq, Structural)]
pub enum CodecError {
    /// The value has no encoding.
    Encode,
    /// The bytes hold no value of the expected type.
    Decode,
}

/// A type whose values can name an entry of the tree.
///
/// The encoding is a function of the key alone, so encoding the same key
/// twice gives the same bytes, or the same error; the engine orders and
/// compares keys by those bytes.
pub trait Key: Sized {
    /// The bytes of this key, or the error its encoding fails with.
    spec fn raw_key(&self) -> Result<Seq<u8>, CodecError>;

    fn to_raw_key(&self) -> (r: Result<Vec<u8>, CodecError>)
        ensures
            match r {
                Ok(b) => self.raw_key() == Ok::<Seq<u8>, CodecError>(b@),
                Err(e) => self.raw_key() == Err::<Seq<u8>, CodecError>(e),
            },
    ;
}

/// A type whose values can be stored in the tree.
///
/// Two values with the same encoding are the same stored value: decoding
/// gives back a value equivalent to the one encoded, one with exactly the
/// same bytes. Decoding succeeds exactly on the bytes that some value
/// encodes to, and otherwise fails with `decode_error` of those bytes.
pub trait Value: Sized {
    /// The bytes of this value, or the error its encoding fails with.
    spec fn raw_value(&self) -> Result<Seq<u8>, CodecError>;

    /// The error that decoding `b` fails with, where no value encodes to `b`.
    spec fn decode_error(b: Seq<u8>) -> CodecError;

    fn to_raw_value(&self) -> (r: Result<Vec<u8>, CodecError>)
        ensures
            match r {
                Ok(b) => self.raw_value() == Ok::<Seq<u8>, CodecError>(b@),
                Err(e) => self.raw_value() == Err::<Seq<u8>, CodecError>(e),
            },
    ;

    fn from_raw_value(r: Vec<u8>) -> (v: Result<Self, CodecError>)
        ensures
            match v {
                Ok(x) => x.raw_value() == Ok::<Seq<u8>, CodecError>(r@),
                Err(e) => {
                    &&& e == Self::decode_error(r@)
                    &&& forall|y: Self| #[trigger] y.raw_value() != Ok::<Seq<u8>, CodecError>(r@)
                },
            },
    ;
}

/// Some value of type `V` encodes to exactly these bytes.
pub open spec fn decodable<V: Value>(b: Seq<u8>) -> bool {
    exists|v: V| #[trigger] v.raw_value() == Ok::<Seq<u8>, CodecError>(b)
}

/// Round trip: decoding the bytes of an encodable value succeeds and gives a
/// value equivalent to it, with the same encoding. `r` stands for any result
/// that `from_raw_value` may return on those bytes.
pub proof fn law_round_trip<V: Value>(v: V, r: Result<V, CodecError>)
    requires
        v.raw_value() is Ok,
        match r {
            Ok(x) => x.raw_value() == Ok::<Seq<u8>, CodecError>(v.raw_value()->Ok_0),
            Err(e) => forall|y: V| #[trigger] y.raw_value() != Ok::<Seq<u8>, CodecError>(v.raw_value()->Ok_0),
        },
    ensures
        r matches Ok(x) && x.raw_value() == v.raw_value(),
{
}

/// Determinism: two encodings of the same key, `r1` and `r2` standing for
/// any results that `to_raw_key` may return on it, agree: the same bytes, or
/// the same error.
pub proof fn law_key_encoding_deterministic<K: Key>(
    k: K,
    r1: Result<Vec<u8>, CodecError>,
    r2: Result<Vec<u8>, CodecError>,
)
    requires
        match r1 {
            Ok(b) => k.raw_key() == Ok::<Seq<u8>, CodecError>(b@),
            Err(e) => k.raw_key() == Err::<Seq<u8>, CodecError>(e),
        },
        match r2 {
            Ok(b) => k.raw_key() == Ok::<Seq<u8>, CodecError>(b@),
            Err(e) => k.raw_key() == Err::<Seq<u8>, CodecError>(e),
        },
    ensures
        r1 is Ok <==> r2 is Ok,
        r1 is Ok ==> r1->Ok_0@ == r2->Ok_0@,
        r1 is Err ==> r1->Err_0 == r2->Err_0,
{
}

/// The four big-endian bytes of `x`.
pub open spec fn be32(x: u32) -> Seq<u8> {
    seq![(x >> 24u32) as u8, (x >> 16u32) as u8, (x >> 8u32) as u8, x as u8]
}

/// The number that four big-endian bytes hold.
pub open spec fn be32_value(b0: u8, b1: u8, b2: u8, b3: u8) -> u32 {
    ((b0 as u32) << 24u32) | ((b1 as u32) << 16u32) | ((b2 as u32) << 8u32) | (b3 as u32)
}

/// The eight big-endian bytes of `x`.
pub open spec fn be64(x: u64) -> Seq<u8> {
    seq![
        (x >> 56u64) as u8, (x >> 48u64) as u8, (x >> 40u64) as u8, (x >> 32u64) as u8,
        (x >> 24u64) as u8, (x >> 16u64) as u8, (x >> 8u64) as u8, x as u8,
    ]
}

proof fn lemma_be32_value_of_bytes(x: u32)
    ensures
        be32_value((x >> 24u32) as u8, (x >> 16u32) as u8, (x >> 8u32) as u8, x as u8) == x,
{
    assert(((((x >> 24u32) as u8) as u32) << 24u32) | ((((x >> 16u32) as u8) as u32) << 16u32)
        | ((((x >> 8u32) as u8) as u32) << 8u32) | ((x as u8) as u32) == x) by (bit_vector);
}

proof fn lemma_bytes_of_be32_value(b0: u8, b1: u8, b2: u8, b3: u8)
    ensures
        be32(be32_value(b0, b1, b2, b3)) == seq![b0, b1, b2, b3],
{
    let x = be32_value(b0, b1, b2, b3);
    assert(x == ((b0 as u32) << 24u32) | ((b1 as u32) << 16u32) | ((b2 as u32) << 8u32) | (b3 as u32));
    assert((x >> 24u32) as u8 == b0 && (x >> 16u32) as u8 == b1 && (x >> 8u32) as u8 == b2
        && x as u8 == b3) by (bit_vector)
        requires
            x == ((b0 as u32) << 24u32) | ((b1 as u32) << 16u32) | ((b2 as u32) << 8u32) | (b3 as u32),
    ;
    assert(be32(x) =~= seq![b0, b1, b2, b3]);
}

fn be32_bytes(x: u32) -> (r: Vec<u8>)
    ensures
        r@ == be32(x),
{
    let r = vec![(x >> 24u32) as u8, (x >> 16u32) as u8, (x >> 8u32) as u8, x as u8];
    assert(r@ =~= be32(x));
    r
}

/// Reads the big-endian number in the first four bytes of `b`.
fn read_be32(b: &Vec<u8>) -> (r: u32)
    requires
        b@.len() >= 4,
    ensures
        r == be32_value(b@[0], b@[1], b@[2], b@[3]),
{
    ((b[0] as u32) << 24u32) | ((b[1] as u32) << 16u32) | ((b[2] as u32) << 8u32) | (b[3] as u32)
}

impl Key for u32 {
    open spec fn raw_key(&self) -> Result<Seq<u8>, CodecError> {
        Ok(be32(*self))
    }

    fn to_raw_key(&self) -> (r: Result<Vec<u8>, CodecError>) {
        Ok(be32_bytes(*self))
    }
}

impl Value for u32 {
    open spec fn decode_error(b: Seq<u8>) -> CodecError {
        CodecError::Decode
    }

    open spec fn raw_value(&self) -> Result<Seq<u8>, CodecError> {
        Ok(be32(*self))
    }

    fn to_raw_value(&self) -> (r: Result<Vec<u8>, CodecError>) {
        Ok(be32_bytes(*self))
    }

    fn from_raw_value(r: Vec<u8>) -> (v: Result<u32, CodecError>) {
        if r.len() != 4 {
            assert forall|x: u32| #[trigger] x.raw_value() != Ok::<Seq<u8>, CodecError>(r@) by {
                assert(be32(x).len() == 4);
            }
            return Err(CodecError::Decode);
        }
        let x = read_be32(&r);
        proof {
            lemma_bytes_of_be32_value(r@[0], r@[1], r@[2], r@[3]);
            assert(r@ =~= seq![r@[0], r@[1], r@[2], r@[3]]);
        }
        Ok(x)
    }
}

fn be64_bytes(x: u64) -> (r: Vec<u8>)
    ensures
        r@ == be64(x),
{
    let r = vec![
        (x >> 56u64) as u8, (x >> 48u64) as u8, (x >> 40u64) as u8, (x >> 32u64) as u8,
        (x >> 24u64) as u8, (x >> 16u64) as u8, (x >> 8u64) as u8, x as u8,
    ];
    assert(r@ =~= be64(x));
    r
}

impl Key for u64 {
    open spec fn raw_key(&self) -> Result<Seq<u8>, CodecError> {
        Ok(be64(*self))
    }

    fn to_raw_key(&self) -> (r: Result<Vec<u8>, CodecError>) {
        Ok(be64_bytes(*self))
    }
}

/// The number that eight big-endian bytes hold.
pub open spec fn be64_value(b: Seq<u8>) -> u64 {
    ((b[0] as u64) << 56u64) | ((b[1] as u64) << 48u64) | ((b[2] as u64) << 40u64) | ((b[3] as u64)
        << 32u64) | ((b[4] as u64) << 24u64) | ((b[5] as u64) << 16u64) | ((b[6] as u64) << 8u64)
        | (b[7] as u64)
}

proof fn lemma_bytes_of_be64_value(b: Seq<u8>)
    requires
        b.len() == 8,
    ensures
        be64(be64_value(b)) == b,
{
    let x = be64_value(b);
    let (b0, b1, b2, b3, b4, b5, b6, b7) = (b[0], b[1], b[2], b[3], b[4], b[5], b[6], b[7]);
    assert((x >> 56u64) as u8 == b0 && (x >> 48u64) as u8 == b1 && (x >> 40u64) as u8 == b2 && (x
        >> 32u64) as u8 == b3 && (x >> 24u64) as u8 == b4 && (x >> 16u64) as u8 == b5 && (x
        >> 8u64) as u8 == b6 && x as u8 == b7) by (bit_vector)
        requires
            x == ((b0 as u64) << 56u64) | ((b1 as u64) << 48u64) | ((b2 as u64) << 40u64) | ((
            b3 as u64) << 32u64) | ((b4 as u64) << 24u64) | ((b5 as u64) << 16u64) | ((b6 as u64)
                << 8u64) | (b7 as u64),
    ;
    assert(be64(x) =~= b);
}

impl Value for u64 {
    open spec fn decode_error(b: Seq<u8>) -> CodecError {
        CodecError::Decode
    }

    open spec fn raw_value(&self) -> Result<Seq<u8>, CodecError> {
        Ok(be64(*self))
    }

    fn to_raw_value(&self) -> (r: Result<Vec<u8>, CodecError>) {
        Ok(be64_bytes(*self))
    }

    fn from_raw_value(r: Vec<u8>) -> (v: Result<u64, CodecError>) {
        if r.len() != 8 {
            assert forall|x: u64| #[trigger] x.raw_value() != Ok::<Seq<u8>, CodecError>(r@) by {
                assert(be64(x).len() == 8);
            }
            return Err(CodecError::Decode);
        }
        let x = ((r[0] as u64) << 56u64) | ((r[1] as u64) << 48u64) | ((r[2] as u64) << 40u64) | ((
        r[3] as u64) << 32u64) | ((r[4] as u64) << 24u64) | ((r[5] as u64) << 16u64) | ((r[6] as u64)
            << 8u64) | (r[7] as u64);
        proof {
            assert(x == be64_value(r@));
            lemma_bytes_of_be64_value(r@);
        }
        Ok(x)
    }
}

impl Key for Vec<u8> {
    open spec fn raw_key(&self) -> Result<Seq<u8>, CodecError> {
        Ok(self@)
    }

    fn to_raw_key(&self) -> (r: Result<Vec<u8>, CodecError>) {
        Ok(slice_to_vec(self.as_slice()))
    }
}

impl Value for Vec<u8> {
    open spec fn decode_error(b: Seq<u8>) -> CodecError {
        CodecError::Decode
    }

    open spec fn raw_value(&self) -> Result<Seq<u8>, CodecError> {
        Ok(self@)
    }

    fn to_raw_value(&self) -> (r: Result<Vec<u8>, CodecError>) {
        Ok(slice_to_vec(self.as_slice()))
    }

    fn from_raw_value(r: Vec<u8>) -> (v: Result<Vec<u8>, CodecError>) {
        Ok(r)
    }
}

impl Key for String {
    open spec fn raw_key(&self) -> Result<Seq<u8>, CodecError> {
        Ok(encode_utf8(self@))
    }

    fn to_raw_key(&self) -> (r: Result<Vec<u8>, CodecError>) {
        Ok(slice_to_vec(self.as_str().as_bytes()))
    }
}

/// The UTF-8 bytes of a string behind their length as four big-endian
/// bytes; `Encode` where the length does not fit in four bytes.
pub open spec fn framed(b: Seq<u8>) -> Result<Seq<u8>, CodecError> {
    if b.len() <= u32::MAX {
        Ok(be32(b.len() as u32) + b)
    } else {
        Err(CodecError::Encode)
    }
}

/// Relies on `String::from_utf8`: it succeeds exactly on valid UTF-8, and the
/// string then holds the characters that the bytes encode.
#[verifier::external_body]
fn string_from_utf8(b: Vec<u8>) -> (r: Option<String>)
    ensures
        match r {
            Some(s) => valid_utf8(b@) && s@ == decode_utf8(b@),
            None => !valid_utf8(b@),
        },
{
    String::from_utf8(b).ok()
}

impl Value for String {
    open spec fn decode_error(b: Seq<u8>) -> CodecError {
        CodecError::Decode
    }

    open spec fn raw_value(&self) -> Result<Seq<u8>, CodecError> {
        framed(encode_utf8(self@))
    }

    fn to_raw_value(&self) -> (r: Result<Vec<u8>, CodecError>) {
        let bytes = self.as_str().as_bytes();
        if bytes.len() > 0xffff_ffffusize {
            return Err(CodecError::Encode);
        }
        let mut out = be32_bytes(bytes.len() as u32);
        let mut i: usize = 0;
        while i < bytes.len()
            invariant
                i <= bytes@.len(),
                bytes@.len() <= u32::MAX,
                out@ == be32(bytes@.len() as u32) + bytes@.subrange(0, i as int),
            decreases bytes@.len() - i,
        {
            out.push(bytes[i]);
            i = i + 1;
            assert(out@ =~= be32(bytes@.len() as u32) + bytes@.subrange(0, i as int));
        }
        assert(bytes@.subrange(0, bytes@.len() as int) =~= bytes@);
        Ok(out)
    }

    fn from_raw_value(r: Vec<u8>) -> (v: Result<String, CodecError>) {
        if r.len() < 4 {
            assert forall|y: String| #[trigger] y.raw_value() != Ok::<Seq<u8>, CodecError>(r@) by {
                let e = encode_utf8(y@);
                if e.len() <= u32::MAX {
                    assert((be32(e.len() as u32) + e).len() >= 4);
                }
            }
            return Err(CodecError::Decode);
        }
        let n = read_be32(&r);
        proof {
            lemma_bytes_of_be32_value(r@[0], r@[1], r@[2], r@[3]);
        }
        if r.len() - 4 != n as usize {
            assert forall|y: String| #[trigger] y.raw_value() != Ok::<Seq<u8>, CodecError>(r@) by {
                let e = encode_utf8(y@);
                if e.len() <= u32::MAX && be32(e.len() as u32) + e == r@ {
                    let m = e.len() as u32;
                    lemma_be32_value_of_bytes(m);
                    assert(r@[0] == (be32(m) + e)[0]);
                    assert(r@[1] == (be32(m) + e)[1]);
                    assert(r@[2] == (be32(m) + e)[2]);
                    assert(r@[3] == (be32(m) + e)[3]);
                }
            }
            return Err(CodecError::Decode);
        }
        let mut payload: Vec<u8> = Vec::new();
        let mut i: usize = 4;
        while i < r.len()
            invariant
                4 <= i <= r@.len(),
                payload@ == r@.subrange(4, i as int),
            decreases r@.len() - i,
        {
            payload.push(r[i]);
            i = i + 1;
            assert(payload@ =~= r@.subrange(4, i as int));
        }
        let ghost p = payload@;
        assert(r@ =~= seq![r@[0], r@[1], r@[2], r@[3]] + p);
        match string_from_utf8(payload) {
            Some(s) => {
                proof {
                    vstd::utf8::decode_utf8_encode_utf8(p);
                }
                Ok(s)
            },
            None => {
                assert forall|y: String| #[trigger] y.raw_value() != Ok::<Seq<u8>, CodecError>(r@) by {
                    let e = encode_utf8(y@);
                    vstd::utf8::encode_utf8_valid_utf8(y@);
                    if e.len() <= u32::MAX && be32(e.len() as u32) + e == r@ {
                        assert(e =~= (be32(e.len() as u32) + e).subrange(4, r@.len() as int));
                        assert(p =~= r@.subrange(4, r@.len() as int));
                    }
                }
                Err(CodecError::Decode)
            },
        }
    }
}

} // verus!
