use vstd::prelude::*;
use vstd::utf8::{decode_utf8, encode_utf8, valid_utf8};

verus! {

broadcast use {vstd::utf8::encode_utf8_valid_utf8, vstd::utf8::encode_utf8_decode_utf8};

/// A value that can be stored in the cache as bytes and read back.
///
/// `encoding` and `decoding` describe the byte format over the value's view;
/// `lemma_round_trip` is the promise that every encodable value reads back as itself.
pub trait Codec: Sized + View {
    /// The views whose encoding can be read back (for instance: every length fits its prefix).
    spec fn encodable(v: Self::V) -> bool;

    spec fn encoding(v: Self::V) -> Seq<u8>;

    spec fn decoding(b: Seq<u8>) -> Option<Self::V>;

    proof fn lemma_round_trip(v: Self::V)
        requires
            Self::encodable(v),
        ensures
            Self::decoding(Self::encoding(v)) == Some(v),
    ;

    fn encode(&self) -> (r: Vec<u8>)
        ensures
            Self::encodable(self@),
            r@ == Self::encoding(self@),
    ;

    fn decode(b: &[u8]) -> (r: Option<Self>)
        ensures
            r is None <==> Self::decoding(b@) is None,
            r matches Some(x) ==> Self::decoding(b@) == Some(x@),
    ;
}

/// The eight little-endian bytes of `v`.
pub open spec fn le_bytes(v: u64) -> Seq<u8> {
    seq![
        (v & 0xff) as u8,
        ((v >> 8u64) & 0xff) as u8,
        ((v >> 16u64) & 0xff) as u8,
        ((v >> 24u64) & 0xff) as u8,
        ((v >> 32u64) & 0xff) as u8,
        ((v >> 40u64) & 0xff) as u8,
        ((v >> 48u64) & 0xff) as u8,
        ((v >> 56u64) & 0xff) as u8,
    ]
}

/// The number whose little-endian bytes are `b[0..8]`.
pub open spec fn le_value(b: Seq<u8>) -> u64
    recommends
        b.len() >= 8,
{
    (b[0] as u64) | ((b[1] as u64) << 8u64) | ((b[2] as u64) << 16u64) | ((b[3] as u64) << 24u64)
        | ((b[4] as u64) << 32u64) | ((b[5] as u64) << 40u64) | ((b[6] as u64) << 48u64) | ((
    b[7] as u64) << 56u64)
}

/// The number stored at `pos` as eight little-endian bytes, if `b` holds them.
#[verifier::opaque]
pub open spec fn u64_at(b: Seq<u8>, pos: int) -> Option<u64> {
    if 0 <= pos && pos + 8 <= b.len() {
        Some(le_value(b.subrange(pos, pos + 8)))
    } else {
        None
    }
}

/// A text field: its UTF-8 length as eight little-endian bytes, then the UTF-8 bytes.
#[verifier::opaque]
pub open spec fn text_bytes(s: Seq<char>) -> Seq<u8> {
    le_bytes(encode_utf8(s).len() as u64) + encode_utf8(s)
}

/// The text field that starts at `pos`, with the position just after it.
#[verifier::opaque]
pub open spec fn text_at(b: Seq<u8>, pos: int) -> Option<(Seq<char>, int)> {
    match u64_at(b, pos) {
        Some(n) => {
            let start = pos + 8;
            if n <= b.len() - start && valid_utf8(b.subrange(start, start + n)) {
                Some((decode_utf8(b.subrange(start, start + n)), start + n))
            } else {
                None
            }
        },
        None => None,
    }
}

/// The flag byte at `pos`: 0 is false, 1 is true, any other byte is no flag.
pub open spec fn flag_at(b: Seq<u8>, pos: int) -> Option<bool> {
    if 0 <= pos < b.len() && b[pos] <= 1 {
        Some(b[pos] == 1)
    } else {
        None
    }
}

pub open spec fn flag_byte(f: bool) -> u8 {
    if f {
        1
    } else {
        0
    }
}

pub proof fn lemma_le_round_trip(v: u64)
    ensures
        le_value(le_bytes(v)) == v,
{
    let b = le_bytes(v);
    assert(le_value(b) == (((v & 0xff) as u8) as u64) | ((((v >> 8u64) & 0xff) as u8) as u64)
        << 8u64 | ((((v >> 16u64) & 0xff) as u8) as u64) << 16u64 | ((((v >> 24u64) & 0xff) as u8)
        as u64) << 24u64 | ((((v >> 32u64) & 0xff) as u8) as u64) << 32u64 | ((((v >> 40u64)
        & 0xff) as u8) as u64) << 40u64 | ((((v >> 48u64) & 0xff) as u8) as u64) << 48u64 | ((((v
        >> 56u64) & 0xff) as u8) as u64) << 56u64);
    assert((((v & 0xff) as u8) as u64) | ((((v >> 8u64) & 0xff) as u8) as u64) << 8u64 | ((((v
        >> 16u64) & 0xff) as u8) as u64) << 16u64 | ((((v >> 24u64) & 0xff) as u8) as u64)
        << 24u64 | ((((v >> 32u64) & 0xff) as u8) as u64) << 32u64 | ((((v >> 40u64) & 0xff)
        as u8) as u64) << 40u64 | ((((v >> 48u64) & 0xff) as u8) as u64) << 48u64 | ((((v
        >> 56u64) & 0xff) as u8) as u64) << 56u64 == v) by (bit_vector);
}

/// Eight bytes written at `p.len()` read back as the number they encode.
pub proof fn lemma_u64_at(p: Seq<u8>, v: u64, s: Seq<u8>)
    ensures
        u64_at(p + le_bytes(v) + s, p.len() as int) == Some(v),
{
    reveal(u64_at);
    let b = p + le_bytes(v) + s;
    assert(b.subrange(p.len() as int, p.len() + 8int) =~= le_bytes(v));
    lemma_le_round_trip(v);
}

/// A text field written at `p.len()` reads back as the same text, ending where it was written.
pub proof fn lemma_text_at(p: Seq<u8>, t: Seq<char>, s: Seq<u8>)
    requires
        encode_utf8(t).len() <= u64::MAX,
    ensures
        text_at(p + text_bytes(t) + s, p.len() as int) == Some(
            (t, p.len() + text_bytes(t).len() as int),
        ),
{
    reveal(text_at);
    reveal(text_bytes);
    let e = encode_utf8(t);
    let n = e.len() as u64;
    let b = p + text_bytes(t) + s;
    assert(b =~= p + le_bytes(n) + (e + s));
    lemma_u64_at(p, n, e + s);
    let start = p.len() + 8int;
    assert(b.subrange(start, start + n as int) =~= e);
}

/// Appends the bytes of `src` to `out`.
pub fn append_bytes(out: &mut Vec<u8>, src: &[u8])
    ensures
        final(out)@ == old(out)@ + src@,
{
    let mut i: usize = 0;
    while i < src.len()
        invariant
            i <= src@.len(),
            out@ == old(out)@ + src@.subrange(0, i as int),
        decreases src@.len() - i,
    {
        out.push(src[i]);
        i = i + 1;
        assert(out@ =~= old(out)@ + src@.subrange(0, i as int));
    }
    assert(src@.subrange(0, src@.len() as int) =~= src@);
}

/// Appends the eight little-endian bytes of `v` to `out`.
pub fn append_u64(out: &mut Vec<u8>, v: u64)
    ensures
        final(out)@ == old(out)@ + le_bytes(v),
{
    out.push((v & 0xff) as u8);
    out.push(((v >> 8u64) & 0xff) as u8);
    out.push(((v >> 16u64) & 0xff) as u8);
    out.push(((v >> 24u64) & 0xff) as u8);
    out.push(((v >> 32u64) & 0xff) as u8);
    out.push(((v >> 40u64) & 0xff) as u8);
    out.push(((v >> 48u64) & 0xff) as u8);
    out.push(((v >> 56u64) & 0xff) as u8);
    assert(out@ =~= old(out)@ + le_bytes(v));
}

/// Appends a text field (length, then UTF-8 bytes) to `out`.
pub fn append_text(out: &mut Vec<u8>, s: &String)
    ensures
        encode_utf8(s@).len() <= u64::MAX,
        final(out)@ == old(out)@ + text_bytes(s@),
{
    reveal(text_bytes);
    let bytes = s.as_str().as_bytes();
    let n = bytes.len() as u64;
    append_u64(out, n);
    append_bytes(out, bytes);
    assert(final(out)@ =~= old(out)@ + text_bytes(s@));
}

/// Reads the number stored at `pos` as eight little-endian bytes.
pub fn read_u64(b: &[u8], pos: usize) -> (r: Option<u64>)
    ensures
        r == u64_at(b@, pos as int),
{
    reveal(u64_at);
    if pos > b.len() || b.len() - pos < 8 {
        return None;
    }
    let v = (b[pos] as u64) | ((b[pos + 1] as u64) << 8u64) | ((b[pos + 2] as u64) << 16u64) | ((
    b[pos + 3] as u64) << 24u64) | ((b[pos + 4] as u64) << 32u64) | ((b[pos + 5] as u64) << 40u64)
        | ((b[pos + 6] as u64) << 48u64) | ((b[pos + 7] as u64) << 56u64);
    let ghost w = b@.subrange(pos as int, pos + 8);
    assert(w[0] == b@[pos as int] && w[1] == b@[pos + 1] && w[2] == b@[pos + 2] && w[3] == b@[pos
        + 3] && w[4] == b@[pos + 4] && w[5] == b@[pos + 5] && w[6] == b@[pos + 6] && w[7] == b@[pos
        + 7]);
    Some(v)
}

/// Relies on `String::from_utf8`: it succeeds exactly on valid UTF-8, and the
/// string then holds the characters that those bytes encode.
#[verifier::external_body]
fn string_from_utf8(bytes: Vec<u8>) -> (r: Option<String>)
    ensures
        r is Some <==> valid_utf8(bytes@),
        r matches Some(s) ==> s@ == decode_utf8(bytes@),
{
    String::from_utf8(bytes).ok()
}

/// Reads the text field that starts at `pos`, and the position just after it.
pub fn read_text(b: &[u8], pos: usize) -> (r: Option<(String, usize)>)
    ensures
        r is None <==> text_at(b@, pos as int) is None,
        r matches Some((s, next)) ==> text_at(b@, pos as int) == Some((s@, next as int)),
{
    reveal(text_at);
    reveal(u64_at);
    let n = match read_u64(b, pos) {
        Some(n) => n,
        None => return None,
    };
    let len = b.len();
    assert(pos + 8 <= len);
    let start = pos + 8;
    if n > (b.len() - start) as u64 {
        return None;
    }
    let end = start + n as usize;
    let mut bytes: Vec<u8> = Vec::new();
    append_bytes(&mut bytes, &b[start..end]);
    match string_from_utf8(bytes) {
        Some(s) => Some((s, end)),
        None => None,
    }
}

/// Reads the flag byte at `pos`.
pub fn read_flag(b: &[u8], pos: usize) -> (r: Option<bool>)
    ensures
        r == flag_at(b@, pos as int),
{
    if pos < b.len() && b[pos] <= 1 {
        Some(b[pos] == 1)
    } else {
        None
    }
}

} // verus!
