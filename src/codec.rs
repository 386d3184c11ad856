//! Byte-level helpers shared by the header and record codecs: appending,
//! fixed NUL-padded text fields and UTF-8 decoding.
use vstd::prelude::*;
use vstd::utf8::*;

verus! {

/// Width of a fixed text field (application id, dialect).
pub const NAME_FIELD_SIZE: usize = 32;

/// The NUL-padded 32-byte field that stores `name` (which must fit).
pub open spec fn name_field(name: Seq<u8>) -> Seq<u8> {
    name + Seq::new((32 - name.len()) as nat, |i: int| 0u8)
}

/// Number of leading bytes before the first NUL (the whole length if none).
pub open spec fn text_end(field: Seq<u8>) -> nat
    decreases field.len(),
{
    if field.len() == 0 {
        0
    } else if field[0] == 0 {
        0
    } else {
        1 + text_end(field.drop_first())
    }
}

/// The text that a NUL-padded field holds: the bytes before the first NUL,
/// decoded as UTF-8, or the empty text when they are not valid UTF-8.
pub open spec fn name_of(field: Seq<u8>) -> Seq<char> {
    let b = field.take(text_end(field) as int);
    if valid_utf8(b) {
        decode_utf8(b)
    } else {
        Seq::empty()
    }
}

/// `text_end` is the first NUL position, as a loop finds it.
pub proof fn lemma_text_end(field: Seq<u8>, e: int)
    requires
        0 <= e <= field.len(),
        forall|j: int| 0 <= j < e ==> field[j] != 0,
        e < field.len() ==> field[e] == 0,
    ensures
        text_end(field) == e,
    decreases e,
{
    if e > 0 {
        lemma_text_end(field.drop_first(), e - 1);
    }
}

/// A field as the writer lays it out: valid UTF-8 up to the first NUL, and
/// only NUL bytes after it.
pub open spec fn canonical_name_field(field: Seq<u8>) -> bool {
    &&& field.len() == 32
    &&& valid_utf8(field.take(text_end(field) as int))
    &&& forall|j: int| text_end(field) <= j < 32 ==> field[j] == 0
}

pub proof fn lemma_text_end_bound(field: Seq<u8>)
    ensures
        text_end(field) <= field.len(),
    decreases field.len(),
{
    if field.len() > 0 && field[0] != 0 {
        lemma_text_end_bound(field.drop_first());
    }
}

/// A field laid out by the writer is rebuilt exactly from the text it holds.
pub proof fn lemma_canonical_name_field(field: Seq<u8>)
    requires
        canonical_name_field(field),
    ensures
        encode_utf8(name_of(field)).len() <= 32,
        name_field(encode_utf8(name_of(field))) == field,
{
    lemma_text_end_bound(field);
    let p = field.take(text_end(field) as int);
    decode_utf8_encode_utf8(p);
    assert(name_field(p) =~= field);
}

/// A name without NUL bytes is read back whole from its padded field.
pub proof fn lemma_name_field_round_trip(name: Seq<char>)
    requires
        encode_utf8(name).len() <= 32,
        !encode_utf8(name).contains(0u8),
    ensures
        name_of(name_field(encode_utf8(name))) == name,
{
    let b = encode_utf8(name);
    let f = name_field(b);
    assert forall|j: int| 0 <= j < b.len() implies f[j] != 0 by {
        assert(f[j] == b[j]);
        if b[j] == 0 {
            assert(b.contains(0u8));
        }
    }
    lemma_text_end(f, b.len() as int);
    assert(f.take(b.len() as int) =~= b);
    encode_utf8_valid_utf8(name);
    encode_utf8_decode_utf8(name);
}

/// Appends every byte of `src` to `out`.
pub fn append_bytes(out: &mut Vec<u8>, src: &[u8])
    ensures
        final(out)@ == old(out)@ + src@,
{
    let mut i: usize = 0;
    while i < src.len()
        invariant
            i <= src@.len(),
            out@ == old(out)@ + src@.take(i as int),
        decreases src@.len() - i,
    {
        out.push(src[i]);
        i = i + 1;
        assert(src@.take(i as int) =~= src@.take(i - 1) + seq![src@[i - 1]]);
    }
    assert(src@.take(i as int) =~= src@);
}

/// Appends `name` padded with NUL bytes to the 32-byte field width.
pub fn append_name_field(out: &mut Vec<u8>, name: &str)
    requires
        encode_utf8(name@).len() <= 32,
    ensures
        final(out)@ == old(out)@ + name_field(encode_utf8(name@)),
{
    let bytes = name.as_bytes();
    append_bytes(out, bytes);
    let mut k: usize = bytes.len();
    while k < NAME_FIELD_SIZE
        invariant
            bytes@ == encode_utf8(name@),
            bytes@.len() <= k <= 32,
            out@ == old(out)@ + bytes@ + Seq::new((k - bytes@.len()) as nat, |i: int| 0u8),
        decreases 32 - k,
    {
        out.push(0u8);
        k = k + 1;
        assert(Seq::new((k - bytes@.len()) as nat, |i: int| 0u8) =~= Seq::new(
            (k - 1 - bytes@.len()) as nat,
            |i: int| 0u8,
        ).push(0u8));
    }
    assert(old(out)@ + bytes@ + Seq::new((32 - bytes@.len()) as nat, |i: int| 0u8) =~= old(out)@
        + name_field(encode_utf8(name@)));
}

/// Relies on `String::from_utf8`: it succeeds exactly on valid UTF-8 and
/// then holds the decoded characters.
#[verifier::external_body]
pub(crate) fn utf8_string(bytes: Vec<u8>) -> (r: Option<String>)
    ensures
        r is Some <==> valid_utf8(bytes@),
        r matches Some(s) ==> s@ == decode_utf8(bytes@),
{
    String::from_utf8(bytes).ok()
}

/// Reads the text of a NUL-padded field: up to the first NUL, and empty
/// when those bytes are not valid UTF-8.
pub fn read_name_field(field: &[u8]) -> (r: String)
    ensures
        r@ == name_of(field@),
{
    let mut e: usize = 0;
    while e < field.len() && field[e] != 0
        invariant
            e <= field@.len(),
            forall|j: int| 0 <= j < e ==> field@[j] != 0,
        decreases field@.len() - e,
    {
        e = e + 1;
    }
    proof {
        lemma_text_end(field@, e as int);
    }
    let mut prefix: Vec<u8> = Vec::new();
    append_bytes(&mut prefix, &field[0..e]);
    assert(prefix@ =~= field@.take(e as int));
    match utf8_string(prefix) {
        Some(s) => s,
        None => String::new(),
    }
}

} // verus!
