use vstd::bytes::{spec_u32_from_le_bytes, spec_u32_to_le_bytes, u32_from_le_bytes, u32_to_le_bytes};
use vstd::prelude::*;
use vstd::string::StringExecFns;
use vstd::slice::slice_subrange;

use crate::text::{debug_quoted, debug_text, decimal, usize_to_decimal};
use crate::shared_bytes::{bytes_as_slice, bytes_content, bytes_from_vec, bytes_split_off};

verus! {

/// Length of a frame header: magic, width and height.
pub const HEADER_LEN: usize = 16;

/// Length of the magic sequence that opens a header.
pub const MAGIC_START_LEN: usize = 8;

/// Length of each little-endian dimension field.
pub const VALUE_LEN: usize = 4;

/// The magic sequence, ASCII `FACEFACE`.
pub const MAGIC_START: [u8; 8] = [70, 65, 67, 69, 70, 65, 67, 69];

/// The magic sequence as a spec value.
pub open spec fn magic_start() -> Seq<u8> {
    seq![70u8, 65u8, 67u8, 69u8, 70u8, 65u8, 67u8, 69u8]
}

/// Whether the eight bytes at `offset` are the magic sequence.
pub open spec fn has_magic_at(s: Seq<u8>, offset: int) -> bool {
    s.subrange(offset, offset + MAGIC_START_LEN as int) == magic_start()
}

/// The 16 bytes of a header for a frame of `width` x `height`.
pub open spec fn header_bytes(width: u32, height: u32) -> Seq<u8> {
    magic_start() + spec_u32_to_le_bytes(width) + spec_u32_to_le_bytes(height)
}

/// Whether `s` opens with a complete, well-marked header.
pub open spec fn is_valid_header(s: Seq<u8>) -> bool {
    s.len() >= HEADER_LEN && has_magic_at(s, 0)
}

/// The width stored in a valid header.
pub open spec fn header_width(s: Seq<u8>) -> u32 {
    spec_u32_from_le_bytes(s.subrange(8, 12))
}

/// The height stored in a valid header.
pub open spec fn header_height(s: Seq<u8>) -> u32 {
    spec_u32_from_le_bytes(s.subrange(12, 16))
}

/// Errors of the frame codec.
pub enum EncDecResErr {
    FailedToReadFrameDimensionsInStream(String),
    BlobTooShort(usize),
    WrongPrefix(String),
}

impl EncDecResErr {
    /// The text of the error, naming its kind and its detail.
    pub open spec fn spec_text(&self) -> Seq<char> {
        match self {
            EncDecResErr::FailedToReadFrameDimensionsInStream(e) => "EncDecResErr FailedToReadFrameDimensionsInStream ["@
                + debug_quoted(e@) + "]"@,
            EncDecResErr::WrongPrefix(e) => "EncDecResErr WrongPrefix : ["@ + debug_quoted(e@) + "]"@,
            EncDecResErr::BlobTooShort(n) => "EncDecResErr BlobTooShort ["@ + decimal(*n as nat) + "] bytes"@,
        }
    }

    pub fn to_string(&self) -> (r: String)
        ensures
            r@ == self.spec_text(),
    {
        match self {
            EncDecResErr::FailedToReadFrameDimensionsInStream(e) => {
                let detail = debug_text(e.as_str());
                String::from_str("EncDecResErr FailedToReadFrameDimensionsInStream [").concat(
                    detail.as_str(),
                ).concat("]")
            },
            EncDecResErr::WrongPrefix(e) => {
                let detail = debug_text(e.as_str());
                String::from_str("EncDecResErr WrongPrefix : [").concat(detail.as_str()).concat("]")
            },
            EncDecResErr::BlobTooShort(n) => {
                let detail = usize_to_decimal(*n);
                String::from_str("EncDecResErr BlobTooShort [").concat(detail.as_str()).concat(
                    "] bytes",
                )
            },
        }
    }
}

/// The outcome of checking for a header at `offset` inside `s`: too short
/// unless more than a header's length follows the offset, else a wrong
/// prefix unless the magic sits at the offset.
pub open spec fn header_check_outcome(s: Seq<u8>, offset: int) -> HeaderCheck {
    if s.len() <= HEADER_LEN + offset {
        HeaderCheck::TooShort
    } else if !has_magic_at(s, offset) {
        HeaderCheck::WrongPrefix
    } else {
        HeaderCheck::Valid
    }
}

/// The three outcomes of a header check, without the error messages.
pub enum HeaderCheck {
    Valid,
    TooShort,
    WrongPrefix,
}

/// Whether `r` is the result that a header check with outcome `c` on a
/// buffer of `len` bytes returns.
pub open spec fn header_check_result(r: Result<(), EncDecResErr>, c: HeaderCheck, len: usize) -> bool {
    match c {
        HeaderCheck::Valid => r is Ok,
        HeaderCheck::TooShort => r == Err::<(), EncDecResErr>(EncDecResErr::BlobTooShort(len)),
        HeaderCheck::WrongPrefix => r matches Err(EncDecResErr::WrongPrefix(_)),
    }
}

pub trait VerifyEncodedAnimationData {
    /// The bytes being checked.
    spec fn encoded_bytes(&self) -> Seq<u8>;

    /// Checks that a header stands at `offset`, for a blob wrapped inside a
    /// larger serialized record.
    fn verify_header_at_offset(&self, offset: usize) -> (r: Result<(), EncDecResErr>)
        ensures
            header_check_result(
                r,
                header_check_outcome(self.encoded_bytes(), offset as int),
                self.encoded_bytes().len() as usize,
            ),
    ;

    /// Accepts any announced payload length.
    fn compare_payload_len(&self, given_bytes_len: usize) -> (r: bool)
        ensures
            r,
    ;
}

impl<'a> VerifyEncodedAnimationData for &'a [u8] {
    open spec fn encoded_bytes(&self) -> Seq<u8> {
        (*self)@
    }

    fn compare_payload_len(&self, given_bytes_len: usize) -> (r: bool) {
        true
    }

    fn verify_header_at_offset(&self, offset: usize) -> (r: Result<(), EncDecResErr>) {
        let len = self.len();
        if offset >= len || len - offset <= HEADER_LEN {
            return Err(EncDecResErr::BlobTooShort(len));
        }
        let mut i: usize = 0;
        while i < MAGIC_START_LEN
            invariant
                i <= MAGIC_START_LEN,
                offset + HEADER_LEN < len,
                len == self@.len(),
                forall|j: int| 0 <= j < i ==> self@[offset + j] == magic_start()[j],
            decreases MAGIC_START_LEN - i,
        {
            if self[offset + i] != MAGIC_START[i] {
                assert(self@.subrange(offset as int, offset + 8)[i as int] != magic_start()[i as int]);
                return Err(EncDecResErr::WrongPrefix("Should be FACEFACE".to_owned()));
            }
            i += 1;
        }
        assert(self@.subrange(offset as int, offset + 8) =~= magic_start());
        Ok(())
    }
}

/// A header written for a frame size is a valid header that reads back as
/// that size, whatever payload follows it.
pub proof fn lemma_header_round_trip(width: u32, height: u32, payload: Seq<u8>)
    ensures
        (header_bytes(width, height) + payload).take(HEADER_LEN as int) == header_bytes(width, height),
        is_valid_header(header_bytes(width, height)),
        header_width(header_bytes(width, height)) == width,
        header_height(header_bytes(width, height)) == height,
{
    vstd::bytes::lemma_auto_spec_u32_to_from_le_bytes();
    let h = header_bytes(width, height);
    assert(h.len() == 16);
    assert((h + payload).take(16) =~= h);
    assert(h.subrange(0, 8) =~= magic_start());
    assert(h.subrange(8, 12) =~= spec_u32_to_le_bytes(width));
    assert(h.subrange(12, 16) =~= spec_u32_to_le_bytes(height));
}

/// Changing any byte of the magic of a buffer that passes the header check
/// makes the check report a wrong prefix; a buffer with no more than a
/// header's length after the offset is reported too short.
pub proof fn lemma_header_corruption_detected(s: Seq<u8>, offset: int, i: int, b: u8)
    requires
        0 <= offset,
        0 <= i < MAGIC_START_LEN,
    ensures
        s.len() <= HEADER_LEN + offset ==> header_check_outcome(s, offset) == HeaderCheck::TooShort,
        header_check_outcome(s, offset) == HeaderCheck::Valid && b != s[offset + i]
            ==> header_check_outcome(s.update(offset + i, b), offset) == HeaderCheck::WrongPrefix,
{
    if header_check_outcome(s, offset) == HeaderCheck::Valid && b != s[offset + i] {
        let t = s.update(offset + i, b);
        assert(t.subrange(offset, offset + 8)[i] != magic_start()[i]);
    }
}

pub struct EncodeConfig;

impl EncodeConfig {
    /// A buffer that opens with the header of a `frame_width` x
    /// `frame_height` frame, ready to receive the encoded frames.
    pub fn create_encoder_destination_buffer(frame_width: u32, frame_height: u32) -> (r: Vec<u8>)
        ensures
            r@ == header_bytes(frame_width, frame_height),
    {
        let mut output: Vec<u8> = Vec::new();
        let mut i: usize = 0;
        while i < MAGIC_START_LEN
            invariant
                i <= MAGIC_START_LEN,
                output@ == magic_start().take(i as int),
            decreases MAGIC_START_LEN - i,
        {
            output.push(MAGIC_START[i]);
            i += 1;
            assert(output@ =~= magic_start().take(i as int));
        }
        let mut width = u32_to_le_bytes(frame_width);
        let mut height = u32_to_le_bytes(frame_height);
        output.append(&mut width);
        output.append(&mut height);
        assert(output@ =~= header_bytes(frame_width, frame_height));
        output
    }
}

pub struct DecodeConfig;

impl DecodeConfig {
    /// Splits a framed buffer into its header (the first 16 bytes) and its
    /// payload (the rest), without copying. The header is not checked.
    pub fn split_header_and_data_into_bytes_buffer(bytes: Vec<u8>) -> (r: (Header, Payload))
        requires
            bytes@.len() >= HEADER_LEN,
        ensures
            r.0@ == bytes@.take(HEADER_LEN as int),
            r.1@ == bytes@.skip(HEADER_LEN as int),
    {
        let mut header = bytes_from_vec(bytes);
        let data = bytes_split_off(&mut header, HEADER_LEN);
        (Header(header), Payload(data))
    }
}

/// The payload that follows a frame header.
pub struct Payload(pub bytes::Bytes);

impl View for Payload {
    type V = Seq<u8>;

    open spec fn view(&self) -> Seq<u8> {
        bytes_content(self.0)
    }
}

/// The frame header of an encoded animation.
pub struct Header(bytes::Bytes);

impl View for Header {
    type V = Seq<u8>;

    closed spec fn view(&self) -> Seq<u8> {
        bytes_content(self.0)
    }
}

impl Header {
    /// Width and height of the frames, read from a header whose magic and
    /// length are checked again here.
    pub fn get_frame_size(&self) -> (r: Result<(u32, u32), EncDecResErr>)
        ensures
            is_valid_header(self@) ==> r == Ok::<(u32, u32), EncDecResErr>(
                (header_width(self@), header_height(self@)),
            ),
            !is_valid_header(self@) ==> r matches Err(
                EncDecResErr::FailedToReadFrameDimensionsInStream(_),
            ),
    {
        let s = bytes_as_slice(&self.0);
        if s.len() < HEADER_LEN {
            return Err(
                EncDecResErr::FailedToReadFrameDimensionsInStream(
                    "Failed to read animation payload".to_owned(),
                ),
            );
        }
        let mut i: usize = 0;
        while i < MAGIC_START_LEN
            invariant
                i <= MAGIC_START_LEN,
                s@.len() >= HEADER_LEN,
                s@ == self@,
                forall|j: int| 0 <= j < i ==> s@[j] == magic_start()[j],
            decreases MAGIC_START_LEN - i,
        {
            if s[i] != MAGIC_START[i] {
                assert(s@.subrange(0, 8)[i as int] != magic_start()[i as int]);
                return Err(
                    EncDecResErr::FailedToReadFrameDimensionsInStream(
                        "Failed to read animation payload".to_owned(),
                    ),
                );
            }
            i += 1;
        }
        assert(s@.subrange(0, 8) =~= magic_start());
        let width_bytes = slice_subrange(s, MAGIC_START_LEN, MAGIC_START_LEN + VALUE_LEN);
        let height_bytes = slice_subrange(
            s,
            MAGIC_START_LEN + VALUE_LEN,
            MAGIC_START_LEN + VALUE_LEN + VALUE_LEN,
        );
        Ok((u32_from_le_bytes(width_bytes), u32_from_le_bytes(height_bytes)))
    }
}

} // verus!
