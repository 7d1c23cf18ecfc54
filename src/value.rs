use vstd::prelude::*;
use crate::sql_type::VectorKind;

verus! {

/// A primitive value as SQLite stores it.  A real number is held as the bit
/// pattern of its 64-bit IEEE representation.
#[derive(Debug, Clone, PartialEq)]
pub enum SqlValue {
    Null,
    Integer(i64),
    Real(u64),
    Text(String),
    Blob(Vec<u8>),
}

/// The mathematical content of a [`SqlValue`].
pub enum SqlModel {
    Null,
    Integer(i64),
    Real(u64),
    Text(Seq<char>),
    Blob(Seq<u8>),
}

impl View for SqlValue {
    type V = SqlModel;

    open spec fn view(&self) -> SqlModel {
        match self {
            SqlValue::Null => SqlModel::Null,
            SqlValue::Integer(i) => SqlModel::Integer(*i),
            SqlValue::Real(b) => SqlModel::Real(*b),
            SqlValue::Text(s) => SqlModel::Text(s@),
            SqlValue::Blob(b) => SqlModel::Blob(b@),
        }
    }
}

/// The current value of one record field, by its declared type.  A
/// floating-point field is held as the bit pattern of its value widened to
/// 64 bits; a vector as the bit patterns of its 32-bit components.
#[derive(Debug, Clone, PartialEq)]
pub enum FieldValue {
    I8(i8),
    I16(i16),
    I32(i32),
    I64(i64),
    U8(u8),
    U16(u16),
    U32(u32),
    U64(u64),
    Bool(bool),
    Real(u64),
    Text(String),
    Vector(VectorKind, Vec<u32>),
    /// A value of a type outside the supported set.
    Unsupported,
}

/// The mathematical content of a [`FieldValue`].
pub enum FieldModel {
    I8(i8),
    I16(i16),
    I32(i32),
    I64(i64),
    U8(u8),
    U16(u16),
    U32(u32),
    U64(u64),
    Bool(bool),
    Real(u64),
    Text(Seq<char>),
    Vector(VectorKind, Seq<u32>),
    Unsupported,
}

impl View for FieldValue {
    type V = FieldModel;

    open spec fn view(&self) -> FieldModel {
        match self {
            FieldValue::I8(x) => FieldModel::I8(*x),
            FieldValue::I16(x) => FieldModel::I16(*x),
            FieldValue::I32(x) => FieldModel::I32(*x),
            FieldValue::I64(x) => FieldModel::I64(*x),
            FieldValue::U8(x) => FieldModel::U8(*x),
            FieldValue::U16(x) => FieldModel::U16(*x),
            FieldValue::U32(x) => FieldModel::U32(*x),
            FieldValue::U64(x) => FieldModel::U64(*x),
            FieldValue::Bool(x) => FieldModel::Bool(*x),
            FieldValue::Real(x) => FieldModel::Real(*x),
            FieldValue::Text(s) => FieldModel::Text(s@),
            FieldValue::Vector(k, ws) => FieldModel::Vector(*k, ws@),
            FieldValue::Unsupported => FieldModel::Unsupported,
        }
    }
}

/// The four bytes of a 32-bit word, least significant first.
pub open spec fn word_bytes(w: u32) -> Seq<u8> {
    seq![(w & 0xff) as u8, ((w >> 8u32) & 0xff) as u8, ((w >> 16u32) & 0xff) as u8, (w >> 24u32) as u8]
}

/// The blob layout of a vector: its components' bytes, one after another.
pub open spec fn blob_of(ws: Seq<u32>) -> Seq<u8>
    decreases ws.len(),
{
    if ws.len() == 0 {
        Seq::empty()
    } else {
        blob_of(ws.drop_last()) + word_bytes(ws.last())
    }
}

pub open spec fn bytes_word(b0: u8, b1: u8, b2: u8, b3: u8) -> u32 {
    (b0 as u32) | ((b1 as u32) << 8u32) | ((b2 as u32) << 16u32) | ((b3 as u32) << 24u32)
}

/// The `i`-th 32-bit word of a blob.
pub open spec fn word_at(b: Seq<u8>, i: int) -> u32 {
    bytes_word(b[4 * i], b[4 * i + 1], b[4 * i + 2], b[4 * i + 3])
}

/// The first `n` words of a blob.
pub open spec fn words_of(b: Seq<u8>, n: nat) -> Seq<u32> {
    Seq::new(n, |i: int| word_at(b, i))
}

pub proof fn lemma_word_round_trip(w: u32)
    ensures
        bytes_word(word_bytes(w)[0], word_bytes(w)[1], word_bytes(w)[2], word_bytes(w)[3]) == w,
{
    let b0 = (w & 0xff) as u8;
    let b1 = ((w >> 8u32) & 0xff) as u8;
    let b2 = ((w >> 16u32) & 0xff) as u8;
    let b3 = (w >> 24u32) as u8;
    assert((b0 as u32) | ((b1 as u32) << 8u32) | ((b2 as u32) << 16u32) | ((b3 as u32) << 24u32) == w)
        by (bit_vector)
        requires
            b0 == (w & 0xff) as u8,
            b1 == ((w >> 8u32) & 0xff) as u8,
            b2 == ((w >> 16u32) & 0xff) as u8,
            b3 == (w >> 24u32) as u8,
    ;
}

pub proof fn lemma_blob_of(ws: Seq<u32>)
    ensures
        blob_of(ws).len() == 4 * ws.len(),
        forall|i: int, j: int|
            0 <= i < ws.len() && 0 <= j < 4 ==> #[trigger] blob_of(ws)[4 * i + j] == word_bytes(ws[i])[j],
    decreases ws.len(),
{
    if ws.len() > 0 {
        let d = ws.drop_last();
        lemma_blob_of(d);
        assert forall|i: int, j: int| 0 <= i < ws.len() && 0 <= j < 4 implies #[trigger] blob_of(ws)[4 * i + j]
            == word_bytes(ws[i])[j] by {
            if i < ws.len() - 1 {
                assert(d[i] == ws[i]);
                assert(blob_of(d)[4 * i + j] == word_bytes(d[i])[j]);
            }
        }
    }
}

/// Decoding a vector's blob gives back its components.
pub proof fn lemma_blob_round_trip(ws: Seq<u32>)
    ensures
        words_of(blob_of(ws), ws.len()) == ws,
{
    lemma_blob_of(ws);
    assert forall|i: int| 0 <= i < ws.len() implies #[trigger] words_of(blob_of(ws), ws.len())[i] == ws[i] by {
        lemma_word_round_trip(ws[i]);
        assert(blob_of(ws)[4 * i + 0] == word_bytes(ws[i])[0]);
        assert(blob_of(ws)[4 * i + 1] == word_bytes(ws[i])[1]);
        assert(blob_of(ws)[4 * i + 2] == word_bytes(ws[i])[2]);
        assert(blob_of(ws)[4 * i + 3] == word_bytes(ws[i])[3]);
    }
    assert(words_of(blob_of(ws), ws.len()) =~= ws);
}

/// Lays out the components of a vector as a blob.
pub fn encode_blob(ws: &Vec<u32>) -> (r: Vec<u8>)
    ensures
        r@ == blob_of(ws@),
{
    let mut out: Vec<u8> = Vec::new();
    let mut i: usize = 0;
    while i < ws.len()
        invariant
            i <= ws@.len(),
            out@ == blob_of(ws@.take(i as int)),
        decreases ws@.len() - i,
    {
        let w = ws[i];
        out.push((w & 0xff) as u8);
        out.push(((w >> 8u32) & 0xff) as u8);
        out.push(((w >> 16u32) & 0xff) as u8);
        out.push((w >> 24u32) as u8);
        assert(ws@.take(i as int + 1).drop_last() =~= ws@.take(i as int));
        assert(out@ =~= blob_of(ws@.take(i as int + 1)));
        i = i + 1;
    }
    assert(ws@.take(i as int) =~= ws@);
    out
}

/// Reads `n` 32-bit words from a blob of exactly `4 * n` bytes.
pub fn decode_blob(b: &Vec<u8>, n: usize) -> (r: Vec<u32>)
    requires
        b@.len() == 4 * n,
    ensures
        r@ == words_of(b@, n as nat),
{
    let mut out: Vec<u32> = Vec::new();
    let len = b.len();
    let mut i: usize = 0;
    while i < n
        invariant
            i <= n,
            len == b@.len(),
            b@.len() == 4 * n,
            out@ =~= words_of(b@, i as nat),
        decreases n - i,
    {
        assert(4 * i + 3 < b@.len());
        let base: usize = 4 * i;
        let w = (b[base] as u32) | ((b[base + 1] as u32) << 8u32) | ((b[base + 2] as u32) << 16u32) | ((b[base + 3] as u32) << 24u32);
        out.push(w);
        i = i + 1;
    }
    out
}

} // verus!
