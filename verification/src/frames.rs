//! Frames on the client socket: a four-byte big-endian length, then that many
//! bytes of JSON.

use crate::text::{concat2, decimal, decimal_text};
use vstd::prelude::*;
use vstd::string::*;

verus! {

/// The greatest length of a request frame: 64 MiB.
pub const MAX_FRAME_SIZE: usize = 67_108_864;

/// Why a frame cannot be read or written.
#[derive(Debug)]
pub enum FrameError {
    /// The header announces an empty frame.
    ZeroLength,
    /// The header announces a frame over the limit.
    TooLarge { len: u32 },
    /// The peer went away in the middle of a header.
    TruncatedHeader,
    /// Reading failed.
    Read { text: String },
    /// A response does not fit in a frame.
    ResponseTooLarge,
}

impl FrameError {
    /// The error as text.
    pub open spec fn text(self) -> Seq<char> {
        match self {
            FrameError::ZeroLength => "zero-length frame"@,
            FrameError::TooLarge { len } => "frame too large: "@ + decimal(len as nat)
                + " bytes (max "@ + decimal(MAX_FRAME_SIZE as nat) + ")"@,
            FrameError::TruncatedHeader => "reading frame length: unexpected end of file"@,
            FrameError::Read { text } => "reading frame length: "@ + text@,
            FrameError::ResponseTooLarge => "response too large"@,
        }
    }

    /// The error as text.
    pub fn to_text(&self) -> (r: String)
        ensures
            r@ == self.text(),
    {
        match self {
            FrameError::ZeroLength => "zero-length frame".to_owned(),
            FrameError::TooLarge { len } => {
                let digits = decimal_text(*len as u64);
                let limit = decimal_text(MAX_FRAME_SIZE as u64);
                crate::text::concat5(
                    "frame too large: ",
                    digits.as_str(),
                    " bytes (max ",
                    limit.as_str(),
                    ")",
                )
            },
            FrameError::TruncatedHeader =>
                "reading frame length: unexpected end of file".to_owned(),
            FrameError::Read { text } => concat2("reading frame length: ", text.as_str()),
            FrameError::ResponseTooLarge => "response too large".to_owned(),
        }
    }
}

/// The number that four big-endian bytes stand for.
pub open spec fn be_value(header: Seq<u8>) -> int {
    header[0] * 0x100_0000 + header[1] * 0x1_0000 + header[2] * 0x100 + header[3]
}

/// The four big-endian bytes of a number.
pub open spec fn be_bytes(n: int) -> Seq<u8> {
    seq![
        (n / 0x100_0000 % 0x100) as u8,
        (n / 0x1_0000 % 0x100) as u8,
        (n / 0x100 % 0x100) as u8,
        (n % 0x100) as u8,
    ]
}

/// The length of the body that a header announces.
pub fn frame_length(header: [u8; 4]) -> (r: Result<usize, FrameError>)
    ensures
        match r {
            Ok(n) => 0 < be_value(header@) <= MAX_FRAME_SIZE && n == be_value(header@),
            Err(e) => {
                ||| be_value(header@) == 0 && e is ZeroLength
                ||| be_value(header@) > MAX_FRAME_SIZE && (e matches FrameError::TooLarge { len }
                    && len == be_value(header@))
            },
        },
{
    let len: u32 = (header[0] as u32) * 0x100_0000 + (header[1] as u32) * 0x1_0000 + (
    header[2] as u32) * 0x100 + (header[3] as u32);
    if len == 0 {
        return Err(FrameError::ZeroLength);
    }
    if len > 67_108_864 {
        return Err(FrameError::TooLarge { len });
    }
    Ok(len as usize)
}

/// What came of reading a header.
#[derive(Debug)]
pub enum HeaderRead {
    /// All four bytes.
    Complete([u8; 4]),
    /// The peer closed the connection after so many bytes of the header.
    Closed { after: usize },
    /// Reading failed.
    Failed { text: String },
}

/// What to do after reading a header: read a body of the given length, end the
/// connection because the peer closed it between two frames, or fail.
pub fn next_body(read: HeaderRead) -> (r: Result<Option<usize>, FrameError>)
    ensures
        match read {
            HeaderRead::Complete(header) => match r {
                Ok(Some(n)) => 0 < be_value(header@) <= MAX_FRAME_SIZE && n == be_value(header@),
                Ok(None) => false,
                Err(e) => {
                    ||| be_value(header@) == 0 && e is ZeroLength
                    ||| be_value(header@) > MAX_FRAME_SIZE && (
                    e matches FrameError::TooLarge { len } && len == be_value(header@))
                },
            },
            HeaderRead::Closed { after } => if after == 0 {
                r matches Ok(None)
            } else {
                r matches Err(FrameError::TruncatedHeader)
            },
            HeaderRead::Failed { text } => r matches Err(FrameError::Read { text: why }) && why@
                == text@,
        },
{
    match read {
        HeaderRead::Complete(header) => match frame_length(header) {
            Ok(n) => Ok(Some(n)),
            Err(e) => Err(e),
        },
        HeaderRead::Closed { after } => if after == 0 {
            Ok(None)
        } else {
            Err(FrameError::TruncatedHeader)
        },
        HeaderRead::Failed { text } => Err(FrameError::Read { text }),
    }
}

/// The header of a frame with a body of `len` bytes.
pub fn frame_header(len: usize) -> (r: Result<[u8; 4], FrameError>)
    ensures
        match r {
            Ok(header) => len <= u32::MAX && header@ == be_bytes(len as int),
            Err(e) => len > u32::MAX && e is ResponseTooLarge,
        },
{
    if len > 0xffff_ffff {
        return Err(FrameError::ResponseTooLarge);
    }
    let n: u32 = len as u32;
    let header: [u8; 4] = [
        (n / 0x100_0000 % 0x100) as u8,
        (n / 0x1_0000 % 0x100) as u8,
        (n / 0x100 % 0x100) as u8,
        (n % 0x100) as u8,
    ];
    assert(header@ =~= be_bytes(len as int));
    Ok(header)
}

/// A header announces the length that it was made for.
pub proof fn law_header_round_trip(n: int)
    requires
        0 <= n <= u32::MAX,
    ensures
        be_value(be_bytes(n)) == n,
{
    assert(n == n / 0x100_0000 % 0x100 * 0x100_0000 + n / 0x1_0000 % 0x100 * 0x1_0000 + n / 0x100
        % 0x100 * 0x100 + n % 0x100);
}

}
