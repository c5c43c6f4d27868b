//! The output surfaces of one render. The engine renders a parsed document
//! into a single byte buffer; text, bytes, and the appending forms of both
//! are all read from that one buffer, so they agree by construction.
use vstd::prelude::*;
use vstd::utf8::*;

verus! {

/// Why a format operation produced no output.
#[derive(Debug, Copy, Clone, PartialEq, Eq, Structural)]
pub enum FormatError {
    /// The engine refused the markup; its status code is kept.
    Engine(i32),
    /// The rendered bytes are not valid UTF-8.
    InvalidUtf8,
}

/// Whether an engine status reports a usable result: `0` for a clean run,
/// `1` for one with warnings. Errors (`2`) and severe failures (negative
/// values) leave no usable output.
pub open spec fn status_ok(status: i32) -> bool {
    status == 0 || status == 1
}

/// Whether an engine status reports a usable result.
pub fn engine_status_ok(status: i32) -> (r: bool)
    ensures
        r == status_ok(status),
{
    status == 0 || status == 1
}

/// The byte output of a render that ended with `status` and wrote `bytes`.
/// It is held to the same UTF-8 check as the text output, so that the two
/// succeed and fail together.
pub open spec fn bytes_output(status: i32, bytes: Seq<u8>) -> Result<Seq<u8>, FormatError> {
    if !status_ok(status) {
        Err(FormatError::Engine(status))
    } else if valid_utf8(bytes) {
        Ok(bytes)
    } else {
        Err(FormatError::InvalidUtf8)
    }
}

/// The text output of a render that ended with `status` and wrote `bytes`.
pub open spec fn text_output(status: i32, bytes: Seq<u8>) -> Result<Seq<char>, FormatError> {
    if !status_ok(status) {
        Err(FormatError::Engine(status))
    } else if valid_utf8(bytes) {
        Ok(decode_utf8(bytes))
    } else {
        Err(FormatError::InvalidUtf8)
    }
}

/// The contents of a text buffer `prefix` after the text output of a render
/// has been appended to it; on failure it is left as it was.
pub open spec fn text_after_append(prefix: Seq<char>, status: i32, bytes: Seq<u8>) -> Seq<char> {
    match text_output(status, bytes) {
        Ok(t) => prefix + t,
        Err(_) => prefix,
    }
}

/// The contents of a byte buffer `prefix` after the byte output of a render
/// has been appended to it; on failure it is left as it was.
pub open spec fn bytes_after_append(prefix: Seq<u8>, status: i32, bytes: Seq<u8>) -> Seq<u8> {
    match bytes_output(status, bytes) {
        Ok(b) => prefix + b,
        Err(_) => prefix,
    }
}

/// Relies on `String::from_utf8`: it succeeds exactly on valid UTF-8 and
/// then holds the characters that the bytes encode.
#[verifier::external_body]
fn decode(bytes: Vec<u8>) -> (r: Option<String>)
    ensures
        r is Some <==> valid_utf8(bytes@),
        r is Some ==> r->Some_0@ == decode_utf8(bytes@),
{
    String::from_utf8(bytes).ok()
}

/// The result of one render: the engine's status and the buffer it wrote.
pub struct Rendered {
    pub status: i32,
    pub bytes: Vec<u8>,
}

impl Rendered {
    /// The rendered document as bytes.
    pub fn to_bytes(&self) -> (r: Result<Vec<u8>, FormatError>)
        ensures
            r is Ok <==> bytes_output(self.status, self.bytes@) is Ok,
            r is Ok ==> bytes_output(self.status, self.bytes@) == Ok::<Seq<u8>, FormatError>(
                r->Ok_0@,
            ),
            r is Err ==> bytes_output(self.status, self.bytes@) == Err::<Seq<u8>, FormatError>(
                r->Err_0,
            ),
    {
        if !engine_status_ok(self.status) {
            return Err(FormatError::Engine(self.status));
        }
        match decode(self.bytes.clone()) {
            Some(_) => Ok(self.bytes.clone()),
            None => Err(FormatError::InvalidUtf8),
        }
    }

    /// The rendered document as text.
    pub fn to_text(&self) -> (r: Result<String, FormatError>)
        ensures
            r is Ok <==> text_output(self.status, self.bytes@) is Ok,
            r is Ok ==> text_output(self.status, self.bytes@) == Ok::<Seq<char>, FormatError>(
                r->Ok_0@,
            ),
            r is Err ==> text_output(self.status, self.bytes@) == Err::<Seq<char>, FormatError>(
                r->Err_0,
            ),
    {
        if !engine_status_ok(self.status) {
            return Err(FormatError::Engine(self.status));
        }
        match decode(self.bytes.clone()) {
            Some(t) => Ok(t),
            None => Err(FormatError::InvalidUtf8),
        }
    }

    /// Appends the rendered bytes to `buf`, after what it already holds.
    pub fn append_bytes(&self, buf: &mut Vec<u8>) -> (r: Result<(), FormatError>)
        ensures
            r is Ok <==> bytes_output(self.status, self.bytes@) is Ok,
            r is Err ==> bytes_output(self.status, self.bytes@) == Err::<Seq<u8>, FormatError>(
                r->Err_0,
            ),
            final(buf)@ == bytes_after_append(old(buf)@, self.status, self.bytes@),
    {
        if !engine_status_ok(self.status) {
            return Err(FormatError::Engine(self.status));
        }
        if decode(self.bytes.clone()).is_none() {
            return Err(FormatError::InvalidUtf8);
        }
        let ghost start = buf@;
        let mut i: usize = 0;
        while i < self.bytes.len()
            invariant
                i <= self.bytes@.len(),
                buf@ == start + self.bytes@.take(i as int),
            decreases self.bytes@.len() - i,
        {
            buf.push(self.bytes[i]);
            i = i + 1;
            assert(buf@ =~= start + self.bytes@.take(i as int));
        }
        assert(self.bytes@.take(i as int) =~= self.bytes@);
        Ok(())
    }

    /// Appends the rendered text to `buf`, after what it already holds.
    pub fn append_text(&self, buf: &mut String) -> (r: Result<(), FormatError>)
        ensures
            r is Ok <==> text_output(self.status, self.bytes@) is Ok,
            r is Err ==> text_output(self.status, self.bytes@) == Err::<Seq<char>, FormatError>(
                r->Err_0,
            ),
            final(buf)@ == text_after_append(old(buf)@, self.status, self.bytes@),
    {
        match self.to_text() {
            Ok(t) => {
                buf.append(t.as_str());
                Ok(())
            },
            Err(e) => Err(e),
        }
    }
}

/// Bytes and text agree: the two surfaces succeed together and fail
/// together with the same error, and on success the bytes are exactly the
/// UTF-8 encoding of the text.
pub proof fn lemma_bytes_encode_text(status: i32, bytes: Seq<u8>)
    ensures
        text_output(status, bytes) is Ok <==> bytes_output(status, bytes) is Ok,
        text_output(status, bytes) is Ok ==> bytes_output(status, bytes) == Ok::<
            Seq<u8>,
            FormatError,
        >(encode_utf8(text_output(status, bytes)->Ok_0)),
        text_output(status, bytes) is Err ==> text_output(status, bytes)->Err_0 == bytes_output(
            status,
            bytes,
        )->Err_0,
{
    if text_output(status, bytes) is Ok {
        decode_utf8_encode_utf8(bytes);
    }
}

/// Appending is concatenation: whatever a buffer held before, appending the
/// output of a render leaves it holding the old contents followed by exactly
/// the output that the standalone surface returns, for text and for bytes.
pub proof fn lemma_append_is_concatenation(
    text_prefix: Seq<char>,
    byte_prefix: Seq<u8>,
    status: i32,
    bytes: Seq<u8>,
)
    ensures
        text_output(status, bytes) is Ok ==> text_after_append(text_prefix, status, bytes)
            == text_prefix + text_output(status, bytes)->Ok_0,
        bytes_output(status, bytes) is Ok ==> bytes_after_append(byte_prefix, status, bytes)
            == byte_prefix + bytes_output(status, bytes)->Ok_0,
        text_after_append(text_prefix, status, bytes).len() >= text_prefix.len(),
        text_after_append(text_prefix, status, bytes).subrange(0, text_prefix.len() as int)
            == text_prefix,
        bytes_after_append(byte_prefix, status, bytes).subrange(0, byte_prefix.len() as int)
            == byte_prefix,
{
    assert(text_after_append(text_prefix, status, bytes).subrange(0, text_prefix.len() as int)
        =~= text_prefix);
    assert(bytes_after_append(byte_prefix, status, bytes).subrange(0, byte_prefix.len() as int)
        =~= byte_prefix);
}

} // verus!
