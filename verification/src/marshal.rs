//! Strings as the native layer takes and gives them: bytes that end at
//! the first terminator byte.

use crate::error::{GlusterError, NulError};
use vstd::prelude::*;
use vstd::slice::*;
use vstd::string::*;
use vstd::utf8::*;

verus! {

/// Index of the first terminator byte of `bytes`, or the length of `bytes`
/// where it holds none.
pub open spec fn terminator(bytes: Seq<u8>) -> int
    decreases bytes.len(),
{
    if bytes.len() == 0 || bytes[0] == 0u8 {
        0
    } else {
        1 + terminator(bytes.drop_first())
    }
}

/// True where a terminator byte stands somewhere in `bytes`.
pub open spec fn has_nul(bytes: Seq<u8>) -> bool {
    terminator(bytes) < bytes.len()
}

/// The native form of `bytes`: the same bytes, then one terminator.
pub open spec fn marshalled(bytes: Seq<u8>) -> Seq<u8> {
    bytes.push(0u8)
}

/// True of a text that can be marshalled: its UTF-8 bytes hold no
/// terminator.
pub open spec fn accepts(text: Seq<char>) -> bool {
    !has_nul(encode_utf8(text))
}

/// The native form of a text: its UTF-8 bytes, then a terminator.
pub open spec fn native(text: Seq<char>) -> Seq<u8> {
    marshalled(encode_utf8(text))
}

/// True where `error` is the refusal of `bytes`: they hold a terminator
/// byte, and the error gives the position of the first and the bytes.
pub open spec fn refuses_bytes(bytes: Seq<u8>, error: GlusterError) -> bool {
    &&& has_nul(bytes)
    &&& error matches GlusterError::NulError(e)
    &&& e.position == terminator(bytes)
    &&& e.bytes@ == bytes
}

/// True where `error` is the refusal of `text`: the text holds a terminator
/// byte, and the error gives the position of the first and the text's
/// bytes.
pub open spec fn refuses(text: Seq<char>, error: GlusterError) -> bool {
    refuses_bytes(encode_utf8(text), error)
}

/// True where `error` is the refusal of the first of two texts that cannot
/// be marshalled.
pub open spec fn refuses_either(first: Seq<char>, second: Seq<char>, error: GlusterError) -> bool {
    refuses(first, error) || (accepts(first) && refuses(second, error))
}

/// True where `error` is the refusal of the first of two texts and a value
/// that cannot be handed on: the texts come first, in their order, and the
/// value last.
pub open spec fn refuses_any(
    first: Seq<char>,
    second: Seq<char>,
    value: Seq<u8>,
    error: GlusterError,
) -> bool {
    refuses_either(first, second, error) || (accepts(first) && accepts(second) && refuses_bytes(
        value,
        error,
    ))
}

/// True of a byte sequence in native form: its only terminator byte is its
/// last byte.
pub open spec fn is_native(bytes: Seq<u8>) -> bool {
    terminator(bytes) + 1 == bytes.len()
}

/// The part of `buffer` that a reader of native strings sees: everything
/// before the first terminator byte.
pub open spec fn until_terminator(buffer: Seq<u8>) -> Seq<u8> {
    buffer.take(terminator(buffer))
}

/// The first `count` bytes of `buffer`, or all of it where it is shorter.
pub open spec fn leading(buffer: Seq<u8>, count: int) -> Seq<u8>
    recommends
        0 <= count,
{
    buffer.take(if count <= buffer.len() { count } else { buffer.len() as int })
}

/// `terminator` is the least index of a terminator byte.
pub proof fn lemma_terminator(bytes: Seq<u8>)
    ensures
        0 <= terminator(bytes) <= bytes.len(),
        forall|j: int| 0 <= j < terminator(bytes) ==> bytes[j] != 0u8,
        terminator(bytes) < bytes.len() ==> bytes[terminator(bytes)] == 0u8,
    decreases bytes.len(),
{
    if bytes.len() != 0 && bytes[0] != 0u8 {
        let rest = bytes.drop_first();
        lemma_terminator(rest);
        assert forall|j: int| 0 <= j < terminator(bytes) implies bytes[j] != 0u8 by {
            if j > 0 {
                assert(bytes[j] == rest[j - 1]);
            }
        }
        if terminator(bytes) < bytes.len() {
            assert(bytes[terminator(bytes)] == rest[terminator(rest)]);
        }
    }
}

/// An index with no terminator byte before it, and with one at it unless
/// it is the length, is `terminator`.
pub proof fn lemma_terminator_is(bytes: Seq<u8>, k: int)
    requires
        0 <= k <= bytes.len(),
        forall|j: int| 0 <= j < k ==> bytes[j] != 0u8,
        k < bytes.len() ==> bytes[k] == 0u8,
    ensures
        terminator(bytes) == k,
{
    lemma_terminator(bytes);
    let t = terminator(bytes);
    if t < k {
        assert(bytes[t] == 0u8);
    } else if k < t {
        assert(bytes[k] == 0u8);
    }
}

/// Marshalling a sequence without terminator bytes gives a sequence in
/// native form whose visible part is that sequence.
pub proof fn lemma_marshalled_is_native(bytes: Seq<u8>)
    requires
        !has_nul(bytes),
    ensures
        is_native(marshalled(bytes)),
        until_terminator(marshalled(bytes)) == bytes,
{
    lemma_terminator(bytes);
    let terminated = marshalled(bytes);
    assert forall|j: int| 0 <= j < bytes.len() implies terminated[j] != 0u8 by {
        assert(terminated[j] == bytes[j]);
    }
    lemma_terminator_is(terminated, bytes.len() as int);
    assert(terminated.take(bytes.len() as int) =~= bytes);
}

/// A byte sequence holds a terminator exactly where one of its bytes is
/// zero.
pub proof fn lemma_has_nul_iff_zero_byte(bytes: Seq<u8>)
    ensures
        has_nul(bytes) <==> exists|i: int| 0 <= i < bytes.len() && bytes[i] == 0u8,
{
    lemma_terminator(bytes);
    if has_nul(bytes) {
        assert(bytes[terminator(bytes)] == 0u8);
    }
}

/// The UTF-8 encoding of a scalar value holds a zero byte only for the
/// scalar zero, whose encoding is that one byte.
proof fn lemma_scalar_zero_byte(scalar: u32)
    requires
        is_scalar(scalar),
    ensures
        scalar == 0 ==> encode_scalar(scalar) == seq![0u8],
        scalar != 0 ==> forall|i: int|
            0 <= i < encode_scalar(scalar).len() ==> encode_scalar(scalar)[i] != 0u8,
{
    assert(scalar == 0 ==> leading_byte_width_1(scalar) == 0u8) by (bit_vector);
    assert(scalar != 0 && scalar <= 0x7F ==> leading_byte_width_1(scalar) != 0u8) by (bit_vector);
    assert(leading_byte_width_2(scalar) != 0u8) by (bit_vector);
    assert(leading_byte_width_3(scalar) != 0u8) by (bit_vector);
    assert(leading_byte_width_4(scalar) != 0u8) by (bit_vector);
    assert(last_continuation_byte(scalar) != 0u8) by (bit_vector);
    assert(second_last_continuation_byte(scalar) != 0u8) by (bit_vector);
    assert(third_last_continuation_byte(scalar) != 0u8) by (bit_vector);
}

/// A text can be marshalled exactly where none of its characters is the
/// NUL character.
pub proof fn lemma_accepts_iff_no_nul_char(text: Seq<char>)
    ensures
        accepts(text) <==> forall|i: int| 0 <= i < text.len() ==> text[i] != '\0',
    decreases text.len(),
{
    let bytes = encode_utf8(text);
    lemma_has_nul_iff_zero_byte(bytes);
    if text.len() > 0 {
        let rest = text.drop_first();
        let head = encode_scalar(text[0] as u32);
        let tail = encode_utf8(rest);
        char_is_scalar(text[0]);
        lemma_scalar_zero_byte(text[0] as u32);
        lemma_accepts_iff_no_nul_char(rest);
        lemma_has_nul_iff_zero_byte(tail);
        assert(bytes == head + tail);
        if text[0] == '\0' {
            assert(bytes[0] == 0u8);
        } else if exists|i: int| 0 <= i < rest.len() && rest[i] == '\0' {
            let i = choose|i: int| 0 <= i < rest.len() && rest[i] == '\0';
            assert(text[i + 1] == '\0');
            let j = choose|j: int| 0 <= j < tail.len() && tail[j] == 0u8;
            assert(bytes[head.len() + j] == 0u8);
        } else {
            assert forall|i: int| 0 <= i < text.len() implies text[i] != '\0' by {
                if i > 0 {
                    assert(text[i] == rest[i - 1]);
                }
            }
            assert(text[0] as u32 != 0) by {
                char_u32_cast(text[0], text[0] as u32);
            }
            assert forall|k: int| 0 <= k < bytes.len() implies bytes[k] != 0u8 by {
                if k >= head.len() {
                    assert(bytes[k] == tail[k - head.len()]);
                } else {
                    assert(bytes[k] == head[k]);
                }
            }
        }
    }
}

/// Marshalling loses nothing: the native form of a text that can be
/// marshalled reads back, up to its terminator, as the same text.
pub proof fn lemma_native_reads_back(text: Seq<char>)
    requires
        accepts(text),
    ensures
        until_terminator(native(text)) == encode_utf8(text),
        lossy_text(until_terminator(native(text))) == text,
{
    lemma_marshalled_is_native(encode_utf8(text));
    encode_utf8_valid_utf8(text);
    encode_utf8_decode_utf8(text);
}

/// A string in native form: its bytes followed by one terminator byte,
/// with no terminator byte before the end.
#[derive(Debug, PartialEq, Eq)]
pub struct NativeString {
    bytes: Vec<u8>,
}

impl View for NativeString {
    type V = Seq<u8>;

    /// All bytes of the native string, the terminator included.
    closed spec fn view(&self) -> Seq<u8> {
        self.bytes@
    }
}

impl NativeString {
    #[verifier::type_invariant]
    spec fn well_formed(self) -> bool {
        is_native(self.bytes@)
    }

    /// The bytes as the native layer reads them, the terminator included.
    pub fn as_bytes_with_nul(&self) -> (bytes: &[u8])
        ensures
            bytes@ == self@,
            is_native(self@),
    {
        proof {
            use_type_invariant(self);
        }
        self.bytes.as_slice()
    }

    /// The bytes before the terminator.
    pub fn as_bytes(&self) -> (bytes: &[u8])
        ensures
            bytes@ == self@.drop_last(),
            bytes@ == until_terminator(self@),
            is_native(self@),
    {
        proof {
            use_type_invariant(self);
            lemma_terminator(self.bytes@);
        }
        let all = self.bytes.as_slice();
        slice_subrange(all, 0, all.len() - 1)
    }

    /// A copy of the native string.
    pub fn duplicate(&self) -> (copy: NativeString)
        ensures
            copy@ == self@,
    {
        proof {
            use_type_invariant(self);
        }
        NativeString { bytes: slice_to_vec(self.bytes.as_slice()) }
    }
}

/// Marshals a byte string into native form. A byte string that holds a
/// terminator byte is refused, with the index of its first terminator byte;
/// any other is copied and terminated.
pub fn marshal_bytes(bytes: &[u8]) -> (r: Result<NativeString, NulError>)
    ensures
        match r {
            Ok(string) => !has_nul(bytes@) && string@ == marshalled(bytes@),
            Err(e) => has_nul(bytes@) && e.position == terminator(bytes@) && e.bytes@ == bytes@,
        },
{
    let mut i: usize = 0;
    while i < bytes.len()
        invariant
            0 <= i <= bytes@.len(),
            forall|j: int| 0 <= j < i ==> bytes@[j] != 0u8,
        decreases bytes@.len() - i,
    {
        if bytes[i] == 0u8 {
            proof {
                lemma_terminator_is(bytes@, i as int);
            }
            return Err(NulError { position: i, bytes: slice_to_vec(bytes) });
        }
        i += 1;
    }
    proof {
        lemma_terminator_is(bytes@, bytes@.len() as int);
        lemma_marshalled_is_native(bytes@);
    }
    let mut terminated = slice_to_vec(bytes);
    terminated.push(0u8);
    Ok(NativeString { bytes: terminated })
}

/// Marshals a string into native form: its UTF-8 bytes, then a terminator.
/// A string whose bytes hold a terminator is refused.
pub fn marshal(s: &str) -> (r: Result<NativeString, NulError>)
    ensures
        match r {
            Ok(string) => accepts(s@) && string@ == native(s@),
            Err(e) => !accepts(s@) && e.position == terminator(encode_utf8(s@)) && e.bytes@
                == encode_utf8(s@),
        },
{
    marshal_bytes(s.as_bytes())
}

/// Marshals one argument of an operation, with the refusal as the
/// operation's error.
pub(crate) fn marshal_argument(text: &str) -> (r: Result<NativeString, GlusterError>)
    ensures
        match r {
            Ok(string) => accepts(text@) && string@ == native(text@),
            Err(e) => refuses(text@, e),
        },
{
    match marshal(text) {
        Ok(string) => Ok(string),
        Err(e) => Err(GlusterError::from(e)),
    }
}

/// Checks the value of an extended attribute, which is handed on as it is
/// with its length. A value that holds a terminator byte is refused, with
/// the index of its first terminator byte.
pub(crate) fn check_value(value: &[u8]) -> (r: Result<(), GlusterError>)
    ensures
        match r {
            Ok(_) => !has_nul(value@),
            Err(e) => refuses_bytes(value@, e),
        },
{
    let position: usize = terminator_index(value);
    if position < value.len() {
        return Err(GlusterError::from(NulError { position, bytes: slice_to_vec(value) }));
    }
    Ok(())
}

/// What `String::from_utf8_lossy` makes of a byte sequence that is not
/// valid UTF-8.
pub uninterp spec fn lossy_repair(bytes: Seq<u8>) -> Seq<char>;

/// The text that lossy decoding gives for `bytes`: the text that they
/// encode where they are valid UTF-8, and a repaired text otherwise.
pub open spec fn lossy_text(bytes: Seq<u8>) -> Seq<char> {
    if valid_utf8(bytes) {
        decode_utf8(bytes)
    } else {
        lossy_repair(bytes)
    }
}

/// Decodes bytes as text with `String::from_utf8_lossy`. Valid UTF-8 comes
/// back as the text it encodes; for other bytes the result is a function of
/// the bytes alone.
#[verifier::external_body]
fn decode_lossy(bytes: &[u8]) -> (text: String)
    ensures
        valid_utf8(bytes@) ==> text@ == decode_utf8(bytes@),
        !valid_utf8(bytes@) ==> text@ == lossy_repair(bytes@),
{
    String::from_utf8_lossy(bytes).into_owned()
}

/// The length of the native string at the start of `buffer`.
pub fn terminator_index(buffer: &[u8]) -> (k: usize)
    ensures
        k == terminator(buffer@),
{
    let mut i: usize = 0;
    while i < buffer.len() && buffer[i] != 0u8
        invariant
            0 <= i <= buffer@.len(),
            forall|j: int| 0 <= j < i ==> buffer@[j] != 0u8,
        decreases buffer@.len() - i,
    {
        i += 1;
    }
    proof {
        lemma_terminator_is(buffer@, i as int);
    }
    i
}

/// Text of the first `count` bytes of `buffer`, or of all of it where it
/// is shorter, decoded lossily.
pub fn text_of_prefix(buffer: &[u8], count: usize) -> (text: String)
    ensures
        text@ == lossy_text(leading(buffer@, count as int)),
{
    let end: usize = if count <= buffer.len() { count } else { buffer.len() };
    decode_lossy(slice_subrange(buffer, 0, end))
}

/// Text of the native string at the start of `buffer`: the bytes before the
/// first terminator, decoded lossily.
pub fn text_of_native(buffer: &[u8]) -> (text: String)
    ensures
        text@ == lossy_text(until_terminator(buffer@)),
{
    let end: usize = terminator_index(buffer);
    proof {
        lemma_terminator(buffer@);
    }
    decode_lossy(slice_subrange(buffer, 0, end))
}

} // verus!
