//! A forward-only byte cursor with little-endian primitive readers.

use vstd::prelude::*;

verus! {

/// Why a binary decode stopped.
#[derive(Debug, Clone, Copy, PartialEq, Eq, Structural)]
pub enum DecodeError {
    /// A read would run past the end of the buffer.
    UnexpectedEof,
    /// String bytes are not well-formed UTF-8.
    InvalidUtf8,
    /// An index names a slot beyond the current size of a table.
    InvalidReference { index: u32, table: TableKind },
    /// An entry carries a tag that selects no record shape.
    UnknownEntryKind { tag: u32 },
}

/// The tables of a scene package that object records refer to.
#[derive(Debug, Clone, Copy, PartialEq, Eq, Structural)]
pub enum TableKind {
    Strings,
    Colors,
}

/// Four 8-bit channels, in the byte order in which they are stored.
pub type Color = (u8, u8, u8, u8);

/// A byte buffer and the position of the next byte to read.
pub struct Cursor {
    pub data: Vec<u8>,
    pub pos: usize,
}

/// What the UTF-8 decoding of a byte string gives: its text, or nothing when
/// the bytes are not well-formed UTF-8.
pub uninterp spec fn utf8_text(bytes: Seq<u8>) -> Option<Seq<char>>;

/// Relies on `String::from_utf8`: it succeeds exactly on well-formed UTF-8,
/// its text depends on the bytes alone, and the empty byte string gives the
/// empty text.
#[verifier::external_body]
fn decode_utf8(bytes: Vec<u8>) -> (r: Option<String>)
    ensures
        r.is_some() == utf8_text(bytes@).is_some(),
        r.is_some() ==> utf8_text(bytes@) == Some(r.unwrap()@),
        bytes@.len() == 0 ==> r.is_some() && r.unwrap()@.len() == 0,
{
    String::from_utf8(bytes).ok()
}

/// The unsigned value of four bytes in little-endian order.
pub open spec fn le_u32(b: Seq<u8>) -> int {
    b[0] + 256 * b[1] + 65536 * b[2] + 16777216 * b[3]
}

/// The two's-complement value of four bytes in little-endian order.
pub open spec fn le_i32(b: Seq<u8>) -> int {
    if le_u32(b) < 0x8000_0000 {
        le_u32(b)
    } else {
        le_u32(b) - 0x1_0000_0000
    }
}

/// The channels of a packed color: the bytes of `n` in little-endian order.
pub open spec fn color_of(n: u32) -> Color {
    (
        (n % 256) as u8,
        (n / 256 % 256) as u8,
        (n / 65536 % 256) as u8,
        (n / 16777216) as u8,
    )
}

/// The bytes that encode a color, channel by channel.
pub open spec fn color_bytes(c: Color) -> Seq<u8> {
    seq![c.0, c.1, c.2, c.3]
}

/// The four bytes of `d` that start at `p`.
pub open spec fn word_at(d: Seq<u8>, p: int) -> Seq<u8> {
    d.subrange(p, p + 4)
}

/// Reading an unsigned 32-bit integer at `p`: its value and the next position.
pub open spec fn spec_read_u32(d: Seq<u8>, p: int) -> Result<(u32, int), DecodeError> {
    if 0 <= p && p + 4 <= d.len() {
        Ok((le_u32(word_at(d, p)) as u32, p + 4))
    } else {
        Err(DecodeError::UnexpectedEof)
    }
}

/// Reading a signed 32-bit integer at `p`.
pub open spec fn spec_read_i32(d: Seq<u8>, p: int) -> Result<(i32, int), DecodeError> {
    if 0 <= p && p + 4 <= d.len() {
        Ok((le_i32(word_at(d, p)) as i32, p + 4))
    } else {
        Err(DecodeError::UnexpectedEof)
    }
}

/// Reading a packed color at `p`.
pub open spec fn spec_read_color(d: Seq<u8>, p: int) -> Result<(Color, int), DecodeError> {
    match spec_read_u32(d, p) {
        Ok((n, q)) => Ok((color_of(n), q)),
        Err(e) => Err(e),
    }
}

/// Reading `n` bytes of text at `p`.
pub open spec fn spec_read_sized_str(d: Seq<u8>, p: int, n: int) -> Result<(Seq<char>, int), DecodeError> {
    if 0 <= p && p + n <= d.len() {
        match utf8_text(d.subrange(p, p + n)) {
            Some(t) => Ok((t, p + n)),
            None => Err(DecodeError::InvalidUtf8),
        }
    } else {
        Err(DecodeError::UnexpectedEof)
    }
}

/// Reading a string prefixed by its length in bytes at `p`.
pub open spec fn spec_read_str(d: Seq<u8>, p: int) -> Result<(Seq<char>, int), DecodeError> {
    match spec_read_u32(d, p) {
        Ok((n, q)) => spec_read_sized_str(d, q, n as int),
        Err(e) => Err(e),
    }
}

/// The index of the first zero byte of `d` at or after `p`, or the length of
/// `d` where there is none.
pub open spec fn zero_index(d: Seq<u8>, p: int) -> int
    decreases d.len() - p,
{
    if p >= d.len() {
        d.len() as int
    } else if d[p] == 0 {
        p
    } else {
        zero_index(d, p + 1)
    }
}

/// Reading a string terminated by a zero byte at `p`: the text before the
/// terminator, and the position after it.
pub open spec fn spec_read_null_terminated_str(d: Seq<u8>, p: int) -> Result<(Seq<char>, int), DecodeError> {
    let z = zero_index(d, p);
    if 0 <= p && z < d.len() {
        match utf8_text(d.subrange(p, z)) {
            Some(t) => Ok((t, z + 1)),
            None => Err(DecodeError::InvalidUtf8),
        }
    } else {
        Err(DecodeError::UnexpectedEof)
    }
}

impl Cursor {
    /// A cursor at the start of `data`.
    pub fn new(data: Vec<u8>) -> (r: Cursor)
        ensures
            r.data@ == data@,
            r.pos == 0,
    {
        Cursor { data, pos: 0 }
    }

    /// The number of bytes not yet read.
    pub fn remaining(&self) -> (r: usize)
        ensures
            r == (if self.pos <= self.data@.len() { self.data@.len() - self.pos } else { 0 }),
    {
        if self.pos <= self.data.len() {
            self.data.len() - self.pos
        } else {
            0
        }
    }
}

/// A fixed-width read gave what `s` says, and moved the cursor to the
/// position `s` gives, or left it in place on failure.
pub open spec fn int_result_matches<T>(
    r: Result<T, DecodeError>,
    s: Result<(T, int), DecodeError>,
    before: Cursor,
    after: Cursor,
) -> bool {
    &&& after.data@ == before.data@
    &&& match s {
        Ok((v, q)) => r == Ok::<T, DecodeError>(v) && after.pos == q,
        Err(e) => r == Err::<T, DecodeError>(e) && after.pos == before.pos,
    }
}

/// A string read gave the text that `s` says, and moved the cursor to the
/// position `s` gives, or left it in place on failure.
pub open spec fn text_result_matches(
    r: Result<String, DecodeError>,
    s: Result<(Seq<char>, int), DecodeError>,
    before: Cursor,
    after: Cursor,
) -> bool {
    &&& after.data@ == before.data@
    &&& match s {
        Ok((t, q)) => (r matches Ok(v) && v@ == t) && after.pos == q,
        Err(e) => r == Err::<String, DecodeError>(e) && after.pos == before.pos,
    }
}

/// Reads four bytes at the cursor as a little-endian unsigned integer.
pub fn read_u32(cursor: &mut Cursor) -> (r: Result<u32, DecodeError>)
    ensures
        int_result_matches(r, spec_read_u32(old(cursor).data@, old(cursor).pos as int), *old(cursor), *final(cursor)),
{
    let p = cursor.pos;
    if p > cursor.data.len() || cursor.data.len() - p < 4 {
        return Err(DecodeError::UnexpectedEof);
    }
    let b0 = cursor.data[p] as u32;
    let b1 = cursor.data[p + 1] as u32;
    let b2 = cursor.data[p + 2] as u32;
    let b3 = cursor.data[p + 3] as u32;
    let v = b0 + b1 * 256 + b2 * 65536 + b3 * 16777216;
    cursor.pos = p + 4;
    Ok(v)
}

/// Reads four bytes at the cursor as a little-endian two's-complement integer.
pub fn read_i32(cursor: &mut Cursor) -> (r: Result<i32, DecodeError>)
    ensures
        int_result_matches(r, spec_read_i32(old(cursor).data@, old(cursor).pos as int), *old(cursor), *final(cursor)),
{
    match read_u32(cursor) {
        Ok(u) => {
            if u < 0x8000_0000 {
                Ok(u as i32)
            } else {
                Ok(i32::MIN + ((u - 0x8000_0000) as i32))
            }
        },
        Err(e) => Err(e),
    }
}

/// Reads a packed color: a little-endian unsigned integer whose bytes are
/// the four channels.
pub fn read_color(cursor: &mut Cursor) -> (r: Result<Color, DecodeError>)
    ensures
        int_result_matches(r, spec_read_color(old(cursor).data@, old(cursor).pos as int), *old(cursor), *final(cursor)),
{
    match read_u32(cursor) {
        Ok(n) => Ok(((n % 256) as u8, (n / 256 % 256) as u8, (n / 65536 % 256) as u8, (n / 16777216) as u8)),
        Err(e) => Err(e),
    }
}

/// Copies the `n` bytes of `d` that start at `p`.
fn copy_bytes(d: &Vec<u8>, p: usize, n: usize) -> (r: Vec<u8>)
    requires
        p + n <= d@.len(),
    ensures
        r@ == d@.subrange(p as int, p + n),
{
    let len = d.len();
    let mut out: Vec<u8> = Vec::with_capacity(n);
    let mut i: usize = 0;
    while i < n
        invariant
            i <= n,
            p + n <= d@.len(),
            len == d@.len(),
            out@ == d@.subrange(p as int, p + i),
        decreases n - i,
    {
        out.push(d[p + i]);
        i = i + 1;
        assert(out@ =~= d@.subrange(p as int, p + i));
    }
    out
}

/// Reads exactly `size` bytes at the cursor as UTF-8 text.
pub fn read_sized_str(cursor: &mut Cursor, size: u32) -> (r: Result<String, DecodeError>)
    ensures
        text_result_matches(r, spec_read_sized_str(old(cursor).data@, old(cursor).pos as int, size as int), *old(cursor), *final(cursor)),
{
    let p = cursor.pos;
    let n = size as usize;
    if p > cursor.data.len() || cursor.data.len() - p < n {
        return Err(DecodeError::UnexpectedEof);
    }
    let bytes = copy_bytes(&cursor.data, p, n);
    match decode_utf8(bytes) {
        Some(text) => {
            cursor.pos = p + n;
            Ok(text)
        },
        None => Err(DecodeError::InvalidUtf8),
    }
}

/// Reads a string prefixed by its length in bytes, as a little-endian
/// unsigned integer.
pub fn read_str(cursor: &mut Cursor) -> (r: Result<String, DecodeError>)
    ensures
        text_result_matches(r, spec_read_str(old(cursor).data@, old(cursor).pos as int), *old(cursor), *final(cursor)),
{
    let start = cursor.pos;
    let size = match read_u32(cursor) {
        Ok(n) => n,
        Err(e) => return Err(e),
    };
    let r = read_sized_str(cursor, size);
    if r.is_err() {
        cursor.pos = start;
    }
    r
}

/// Reads the bytes up to the next zero byte as UTF-8 text and moves past
/// the zero byte.
pub fn read_null_terminated_str(cursor: &mut Cursor) -> (r: Result<String, DecodeError>)
    ensures
        text_result_matches(r, spec_read_null_terminated_str(old(cursor).data@, old(cursor).pos as int), *old(cursor), *final(cursor)),
{
    let p = cursor.pos;
    let len = cursor.data.len();
    if p >= len {
        return Err(DecodeError::UnexpectedEof);
    }
    let mut z: usize = p;
    while z < len && cursor.data[z] != 0
        invariant
            len == cursor.data@.len(),
            p <= z <= len,
            zero_index(cursor.data@, p as int) == zero_index(cursor.data@, z as int),
        decreases len - z,
    {
        z = z + 1;
    }
    if z >= len {
        return Err(DecodeError::UnexpectedEof);
    }
    let bytes = copy_bytes(&cursor.data, p, z - p);
    match decode_utf8(bytes) {
        Some(text) => {
            cursor.pos = z + 1;
            Ok(text)
        },
        None => Err(DecodeError::InvalidUtf8),
    }
}

/// Reading `n` raw bytes at `p`.
pub open spec fn spec_read_bytes(d: Seq<u8>, p: int, n: int) -> Result<(Seq<u8>, int), DecodeError> {
    if 0 <= p && 0 <= n && p + n <= d.len() {
        Ok((d.subrange(p, p + n), p + n))
    } else {
        Err(DecodeError::UnexpectedEof)
    }
}

/// Reads exactly `size` raw bytes at the cursor.
pub fn read_bytes(cursor: &mut Cursor, size: u32) -> (r: Result<Vec<u8>, DecodeError>)
    ensures
        final(cursor).data@ == old(cursor).data@,
        match spec_read_bytes(old(cursor).data@, old(cursor).pos as int, size as int) {
            Ok((b, q)) => (r matches Ok(v) && v@ == b) && final(cursor).pos == q,
            Err(e) => r == Err::<Vec<u8>, DecodeError>(e) && final(cursor).pos == old(cursor).pos,
        },
{
    let p = cursor.pos;
    let n = size as usize;
    if p > cursor.data.len() || cursor.data.len() - p < n {
        return Err(DecodeError::UnexpectedEof);
    }
    let bytes = copy_bytes(&cursor.data, p, n);
    cursor.pos = p + n;
    Ok(bytes)
}

/// A fixed-width field that does not fit in the bytes left fails with
/// `UnexpectedEof`; so does a length-prefixed string whose declared length
/// exceeds the bytes after its prefix. (The readers leave the cursor where it
/// was on every failure.)
pub proof fn law_short_buffer_fails(d: Seq<u8>, p: int)
    requires
        0 <= p <= d.len(),
    ensures
        d.len() - p < 4 ==> spec_read_u32(d, p) == Err::<(u32, int), DecodeError>(DecodeError::UnexpectedEof),
        d.len() - p < 4 ==> spec_read_i32(d, p) == Err::<(i32, int), DecodeError>(DecodeError::UnexpectedEof),
        d.len() - p < 4 ==> spec_read_color(d, p) == Err::<(Color, int), DecodeError>(DecodeError::UnexpectedEof),
        d.len() - p < 4 ==> spec_read_str(d, p) == Err::<(Seq<char>, int), DecodeError>(DecodeError::UnexpectedEof),
        d.len() - p >= 4 && le_u32(word_at(d, p)) > d.len() - p - 4
            ==> spec_read_str(d, p) == Err::<(Seq<char>, int), DecodeError>(DecodeError::UnexpectedEof),
{
    if d.len() - p >= 4 {
        lemma_le_u32_bounded(word_at(d, p));
    }
}

/// The value of four bytes fits in 32 bits.
pub proof fn lemma_le_u32_bounded(b: Seq<u8>)
    requires
        b.len() == 4,
    ensures
        0 <= le_u32(b) < 0x1_0000_0000,
{
}

/// Where `d[z]` is the first zero byte at or after `p`, the scan stops at `z`.
proof fn lemma_zero_index_at(d: Seq<u8>, p: int, z: int)
    requires
        0 <= p <= z < d.len(),
        d[z] == 0,
        forall|k: int| p <= k < z ==> d[k] != 0,
    ensures
        zero_index(d, p) == z,
    decreases z - p,
{
    if p < z {
        lemma_zero_index_at(d, p + 1, z);
    }
}

/// On well-formed UTF-8 without a zero byte, followed by a zero byte, the
/// null-terminated read gives exactly that text and stops after the zero byte.
pub proof fn law_null_terminated_text(prefix: Seq<u8>, body: Seq<u8>, rest: Seq<u8>)
    requires
        forall|k: int| 0 <= k < body.len() ==> body[k] != 0,
        utf8_text(body) is Some,
    ensures
        spec_read_null_terminated_str(prefix + body + seq![0u8] + rest, prefix.len() as int)
            == Ok::<(Seq<char>, int), DecodeError>((utf8_text(body).unwrap(), (prefix.len() + body.len() + 1) as int)),
{
    let d = prefix + body + seq![0u8] + rest;
    let p = prefix.len() as int;
    let z = p + body.len();
    assert(d[z] == 0);
    assert forall|k: int| p <= k < z implies d[k] != 0 by {
        assert(d[k] == body[k - p]);
    }
    lemma_zero_index_at(d, p, z);
    assert(d.subrange(p, z) =~= body);
}

/// Decoding a packed color and writing its channels back in order gives the
/// four bytes that were read.
pub proof fn law_color_round_trip(d: Seq<u8>, p: int)
    requires
        0 <= p,
        p + 4 <= d.len(),
    ensures
        spec_read_color(d, p) matches Ok((c, q)) && q == p + 4 && color_bytes(c) == word_at(d, p),
{
    let b = word_at(d, p);
    lemma_le_u32_bounded(b);
    let n = le_u32(b) as u32;
    let (b0, b1, b2, b3) = (b[0] as int, b[1] as int, b[2] as int, b[3] as int);
    assert(n == b0 + 256 * (b1 + 256 * (b2 + 256 * b3)));
    vstd::arithmetic::div_mod::lemma_fundamental_div_mod_converse(n as int, 256, b1 + 256 * (b2 + 256 * b3), b0);
    let n1 = n / 256;
    assert(n1 == b1 + 256 * (b2 + 256 * b3));
    vstd::arithmetic::div_mod::lemma_fundamental_div_mod_converse(n1 as int, 256, b2 + 256 * b3, b1);
    vstd::arithmetic::div_mod::lemma_fundamental_div_mod_converse(n as int, 65536, b2 + 256 * b3, b0 + 256 * b1);
    let n2 = n / 65536;
    vstd::arithmetic::div_mod::lemma_fundamental_div_mod_converse(n2 as int, 256, b3, b2);
    vstd::arithmetic::div_mod::lemma_fundamental_div_mod_converse(n as int, 16777216, b3, b0 + 256 * b1 + 65536 * b2);
    assert(color_bytes(color_of(n)) =~= b);
}

} // verus!
