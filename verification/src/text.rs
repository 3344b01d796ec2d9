//! Fixed-width text buffers: what is stored, what is scrolled and what is
//! sent back is a byte array of known width, filled up with NUL bytes.

use vstd::prelude::*;
use vstd::string::StringSliceAdditionalSpecFns;
use vstd::utf8::{
    char_u32_cast, encode_scalar, encode_utf8, is_ascii_chars, is_ascii_chars_encode_utf8, valid_utf8,
};

verus! {

/// Why a buffer could not be used as text.
#[derive(Debug, Clone, Copy, PartialEq, Eq, Structural)]
pub enum Error {
    /// The bytes are not valid UTF-8.
    Utf8,
}

/// The width of the stored clock text.
pub const CLOCK_WIDTH: usize = 16;

/// The width of the stored weather text.
pub const WEATHER_WIDTH: usize = 16;

/// The width of a padded message.
pub const PAD_WIDTH: usize = 64;

/// The number of spaces that go before a padded message.
pub const PAD_LEADING: usize = 4;

/// The most bytes of a message that padding keeps: the width less the four
/// leading spaces and the one trailing space.
pub const PAD_CONTENT: usize = 59;

/// What the display shows between commands, as it was last stored. Nothing
/// is stored at start.
pub struct Data {
    pub clock: Option<[u8; CLOCK_WIDTH]>,
    pub weather: Option<[u8; WEATHER_WIDTH]>,
}

/// The error type of `core::str::from_utf8`. Nothing is read from it.
#[verifier::external_type_specification]
#[verifier::external_body]
pub struct ExUtf8Error(core::str::Utf8Error);

/// `core::str::from_utf8` accepts a slice exactly when it is valid UTF-8, and
/// the string it then returns consists of the bytes of the slice.
pub assume_specification[ core::str::from_utf8 ](v: &[u8]) -> (r: Result<
    &str,
    core::str::Utf8Error,
>)
    ensures
        r is Ok <==> valid_utf8(v@),
        r matches Ok(s) ==> s.spec_bytes() == v@,
;

/// Whether `s` holds a NUL byte.
pub open spec fn has_nul(s: Seq<u8>) -> bool {
    exists|i: int| 0 <= i < s.len() && s[i] == 0
}

/// Whether `i` is the place of the first NUL byte of `s`.
pub open spec fn is_first_nul(s: Seq<u8>, i: int) -> bool {
    &&& 0 <= i < s.len()
    &&& s[i] == 0
    &&& forall|j: int| 0 <= j < i ==> s[j] != 0
}

/// The place of the first NUL byte of `s`, or the length of `s` when it holds
/// none.
pub open spec fn nul_index(s: Seq<u8>) -> int {
    if has_nul(s) {
        choose|i: int| is_first_nul(s, i)
    } else {
        s.len() as int
    }
}

/// The bytes of `s` that stand before its first NUL byte: all of `s` when it
/// holds none.
pub open spec fn leading_bytes(s: Seq<u8>) -> Seq<u8> {
    s.take(nul_index(s))
}

/// `n` NUL bytes.
pub open spec fn zeros(n: int) -> Seq<u8> {
    Seq::new(n as nat, |i: int| 0u8)
}

/// `n` spaces.
pub open spec fn spaces(n: int) -> Seq<u8> {
    Seq::new(n as nat, |i: int| 0x20u8)
}

/// `s` cut or filled up with NUL bytes to the width `n`.
pub open spec fn fit(s: Seq<u8>, n: int) -> Seq<u8> {
    if s.len() >= n {
        s.take(n)
    } else {
        s + zeros(n - s.len())
    }
}

/// The part of a message that padding keeps: at most [`PAD_CONTENT`] bytes,
/// and none from the first NUL byte on.
pub open spec fn pad_body(s: Seq<u8>) -> Seq<u8> {
    leading_bytes(fit_prefix(s, PAD_CONTENT as int))
}

/// The first `n` bytes of `s`, or all of `s` when it is shorter.
pub open spec fn fit_prefix(s: Seq<u8>, n: int) -> Seq<u8> {
    if s.len() >= n {
        s.take(n)
    } else {
        s
    }
}

/// A message made ready for scrolling: four spaces, the kept part of the
/// message, one space, and NUL bytes up to the width of 64.
pub open spec fn padded(s: Seq<u8>) -> Seq<u8> {
    spaces(PAD_LEADING as int) + pad_body(s) + spaces(1) + zeros(
        PAD_CONTENT as int - pad_body(s).len(),
    )
}

/// The first NUL byte of `s` is found at `i` and nowhere else.
pub proof fn first_nul_is_nul_index(s: Seq<u8>, i: int)
    requires
        is_first_nul(s, i),
    ensures
        has_nul(s),
        nul_index(s) == i,
{
}

/// The place that [`nul_index`] names lies within `s` or at its end, and no
/// byte before it is NUL.
pub proof fn nul_index_bounds(s: Seq<u8>)
    ensures
        0 <= nul_index(s) <= s.len(),
        forall|j: int| 0 <= j < nul_index(s) ==> s[j] != 0,
        has_nul(s) ==> s[nul_index(s)] == 0,
{
    if has_nul(s) {
        let w = choose|i: int| 0 <= i < s.len() && s[i] == 0;
        least_nul(s, w);
    }
}

proof fn least_nul(s: Seq<u8>, w: int)
    requires
        0 <= w < s.len(),
        s[w] == 0,
    ensures
        exists|i: int| is_first_nul(s, i),
    decreases w,
{
    if forall|j: int| 0 <= j < w ==> s[j] != 0 {
        assert(is_first_nul(s, w));
    } else {
        let j = choose|j: int| 0 <= j < w && s[j] == 0;
        least_nul(s, j);
    }
}

/// `n` space characters.
pub open spec fn blanks(n: int) -> Seq<char> {
    Seq::new(n as nat, |i: int| ' ')
}

/// The encoding of two texts in a row is the encoding of the one, then the
/// encoding of the other.
pub proof fn encode_concat(a: Seq<char>, b: Seq<char>)
    ensures
        encode_utf8(a + b) == encode_utf8(a) + encode_utf8(b),
    decreases a.len(),
{
    if a.len() > 0 {
        encode_concat(a.drop_first(), b);
        assert((a + b).drop_first() =~= a.drop_first() + b);
    }
}

/// Spaces are encoded as themselves.
pub proof fn encode_blanks(n: int)
    requires
        0 <= n,
    ensures
        encode_utf8(blanks(n)) == spaces(n),
{
    is_ascii_chars_encode_utf8(blanks(n));
}

/// The first byte of an encoded text tells whether its first character is an
/// ASCII character, and which: such a character is encoded as itself, in one
/// byte, and the encoding of any other character starts with a byte from 128
/// up.
pub proof fn encode_first(text: Seq<char>)
    requires
        text.len() > 0,
    ensures
        encode_utf8(text).len() > 0,
        (text[0] as u32) < 0x80 ==> encode_utf8(text) == seq![(text[0] as u32) as u8] + encode_utf8(
            text.skip(1),
        ),
        (text[0] as u32) >= 0x80 ==> encode_utf8(text)[0] >= 0x80,
{
    let v = text[0] as u32;
    assert(v < 0x80 ==> (v & 0x7F) as u8 == v as u8) by (bit_vector);
    assert((0xC0u8 | ((v >> 6) & 0x1F) as u8) >= 0x80 && (0xE0u8 | ((v >> 12) & 0x0F) as u8) >= 0x80
        && (0xF0u8 | ((v >> 18) & 0x7) as u8) >= 0x80) by (bit_vector);
}

/// Whether a text holds the NUL character.
pub open spec fn has_nul_char(text: Seq<char>) -> bool {
    exists|i: int| 0 <= i < text.len() && text[i] == '\0'
}

/// An encoded text holds a NUL byte exactly where the text holds the NUL
/// character: no other character has a NUL byte in its encoding.
pub proof fn encode_keeps_nul(text: Seq<char>)
    ensures
        has_nul(encode_utf8(text)) <==> has_nul_char(text),
    decreases text.len(),
{
    if text.len() > 0 {
        let v = text[0] as u32;
        let head = encode_scalar(v);
        let tail = encode_utf8(text.drop_first());
        encode_keeps_nul(text.drop_first());
        assert(v < 0x80 ==> (v & 0x7F) as u8 == v as u8) by (bit_vector);
        assert((0xC0u8 | ((v >> 6) & 0x1F) as u8) != 0 && (0xE0u8 | ((v >> 12) & 0x0F) as u8) != 0
            && (0xF0u8 | ((v >> 18) & 0x7) as u8) != 0 && (0x80u8 | (v & 0x3F) as u8) != 0 && (0x80u8
            | ((v >> 6) & 0x3F) as u8) != 0 && (0x80u8 | ((v >> 12) & 0x3F) as u8) != 0)
            by (bit_vector);
        char_u32_cast(text[0], v);
        assert(has_nul(head) <==> text[0] == '\0') by {
            if text[0] == '\0' {
                assert(head[0] == 0);
            }
        }
        if has_nul(tail) {
            let j = choose|j: int| 0 <= j < text.len() - 1 && text.drop_first()[j] == '\0';
            assert(text[j + 1] == '\0');
        }
        if has_nul_char(text) {
            let j = choose|j: int| 0 <= j < text.len() && text[j] == '\0';
            if j == 0 {
                let i = choose|i: int| 0 <= i < head.len() && head[i] == 0;
                assert(encode_utf8(text)[i] == 0);
            } else {
                assert(text.drop_first()[j - 1] == '\0');
                let i = choose|i: int| 0 <= i < tail.len() && tail[i] == 0;
                assert(encode_utf8(text)[head.len() + i] == 0);
            }
        }
    }
}

/// Reads a stored buffer as text, NUL bytes and all. A buffer that was cut
/// within a character is no text.
pub fn stored_text(stored: &[u8]) -> (text: Result<&str, Error>)
    ensures
        valid_utf8(stored@) ==> text is Ok && text->Ok_0.spec_bytes() == stored@,
        !valid_utf8(stored@) ==> text == Err::<&str, Error>(Error::Utf8),
{
    match core::str::from_utf8(stored) {
        Ok(s) => Ok(s),
        Err(_) => Err(Error::Utf8),
    }
}

impl Data {
    /// The store at start: no clock text and no weather text.
    pub fn new() -> (data: Self)
        ensures
            data.clock is None,
            data.weather is None,
    {
        Self { clock: None, weather: None }
    }

    /// The clock text to show, where one is stored.
    pub fn clock_text(&self) -> (text: Option<Result<&str, Error>>)
        ensures
            self.clock is None <==> text is None,
            self.clock matches Some(stored) ==> {
                &&& valid_utf8(stored@) ==> text->Some_0 is Ok && text->Some_0->Ok_0.spec_bytes()
                    == stored@
                &&& !valid_utf8(stored@) ==> text->Some_0 == Err::<&str, Error>(Error::Utf8)
            },
    {
        match &self.clock {
            Some(stored) => Some(stored_text(stored)),
            None => None,
        }
    }

    /// The weather text to show, where one is stored.
    pub fn weather_text(&self) -> (text: Option<Result<&str, Error>>)
        ensures
            self.weather is None <==> text is None,
            self.weather matches Some(stored) ==> {
                &&& valid_utf8(stored@) ==> text->Some_0 is Ok && text->Some_0->Ok_0.spec_bytes()
                    == stored@
                &&& !valid_utf8(stored@) ==> text->Some_0 == Err::<&str, Error>(Error::Utf8)
            },
    {
        match &self.weather {
            Some(stored) => Some(stored_text(stored)),
            None => None,
        }
    }
}

/// Finds the first NUL byte of `data`.
pub fn find_nul(data: &[u8]) -> (found: Option<usize>)
    ensures
        match found {
            Some(i) => is_first_nul(data@, i as int),
            None => !has_nul(data@),
        },
        found.unwrap_or(data.len()) == nul_index(data@),
{
    let mut i: usize = 0;
    while i < data.len()
        invariant
            i <= data.len(),
            forall|j: int| 0 <= j < i ==> data@[j] != 0,
        decreases data.len() - i,
    {
        if data[i] == 0 {
            proof {
                first_nul_is_nul_index(data@, i as int);
            }
            return Some(i);
        }
        i += 1;
    }
    None
}

/// Copies text into a buffer of the width `LEN`: a longer text is cut, a
/// shorter one is followed by NUL bytes. Bytes that are not valid UTF-8 are
/// refused.
pub fn copy_str_bytes<const LEN: usize>(buf: &[u8]) -> (copied: Result<[u8; LEN], Error>)
    ensures
        valid_utf8(buf@) ==> copied is Ok && copied->Ok_0@ == fit(buf@, LEN as int),
        !valid_utf8(buf@) ==> copied == Err::<[u8; LEN], Error>(Error::Utf8),
{
    if core::str::from_utf8(buf).is_err() {
        return Err(Error::Utf8);
    }
    let mut out = [0u8;LEN];
    let copy_len = if buf.len() < LEN {
        buf.len()
    } else {
        LEN
    };
    let mut i: usize = 0;
    while i < copy_len
        invariant
            i <= copy_len,
            copy_len <= buf.len(),
            copy_len <= LEN,
            forall|j: int| 0 <= j < i ==> out@[j] == buf@[j],
            forall|j: int| i <= j < LEN ==> out@[j] == 0,
        decreases copy_len - i,
    {
        out[i] = buf[i];
        i += 1;
    }
    Ok(out)
}

/// Makes a message ready for scrolling: four spaces go before it and one
/// after it, so that it enters and leaves the panels whole. The result is 64
/// bytes wide; of the message the first 59 bytes are kept, and none from its
/// first NUL byte on.
pub fn pad(string: &[u8]) -> (out: [u8; 64])
    ensures
        out@ == padded(string@),
{
    let mut out = [0u8;64];
    let mut cursor: usize = 0;
    while cursor < PAD_LEADING
        invariant
            cursor <= PAD_LEADING,
            forall|j: int| 0 <= j < cursor ==> out@[j] == 0x20,
            forall|j: int| cursor <= j < 64 ==> out@[j] == 0,
        decreases PAD_LEADING - cursor,
    {
        out[cursor] = 0x20;
        cursor += 1;
    }
    let limit = if string.len() < PAD_CONTENT {
        string.len()
    } else {
        PAD_CONTENT
    };
    let ghost kept = fit_prefix(string@, PAD_CONTENT as int);
    let mut i: usize = 0;
    while i < limit && string[i] != 0
        invariant
            i <= limit,
            limit <= string.len(),
            limit <= PAD_CONTENT,
            limit == kept.len(),
            kept == fit_prefix(string@, PAD_CONTENT as int),
            cursor == PAD_LEADING + i,
            forall|j: int| 0 <= j < i ==> string@[j] != 0,
            forall|j: int| 0 <= j < PAD_LEADING ==> out@[j] == 0x20,
            forall|j: int| 0 <= j < i ==> out@[PAD_LEADING + j] == string@[j],
            forall|j: int| cursor <= j < 64 ==> out@[j] == 0,
        decreases limit - i,
    {
        out[cursor] = string[i];
        cursor += 1;
        i += 1;
    }
    out[cursor] = 0x20;
    proof {
        if i < limit {
            first_nul_is_nul_index(kept, i as int);
        }
    }
    out
}

/// Reads a NUL-terminated text: the bytes before the first NUL byte of
/// `data`. Where `data` holds no NUL byte its end is the end of the text, and
/// the text is the whole of `data`.
pub fn null_term_string(data: &[u8]) -> (text: Result<&str, Error>)
    ensures
        valid_utf8(leading_bytes(data@)) ==> text is Ok && text->Ok_0.spec_bytes() == leading_bytes(
            data@,
        ),
        !valid_utf8(leading_bytes(data@)) ==> text == Err::<&str, Error>(Error::Utf8),
{
    let null_index = match find_nul(data) {
        Some(i) => i,
        None => data.len(),
    };
    match core::str::from_utf8(vstd::slice::slice_subrange(data, 0, null_index)) {
        Ok(s) => Ok(s),
        Err(_) => Err(Error::Utf8),
    }
}

} // verus!
