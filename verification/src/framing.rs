//! Frames: a payload behind its length as a 32-bit little-endian integer.
//!
//! The sender builds a whole frame in a scratch buffer; the receiver decides
//! from the four length bytes alone whether to accept the frame, and only then
//! takes the payload.

use vstd::prelude::*;
use crate::message::{
    header_bytes, lemma_header_round_trip, lemma_message_round_trip, message_bytes, parse_header,
    parse_message, well_formed, Header, Message, MessageView,
};
use crate::wire::{in_reach, lemma_u32_round_trip, put_raw, put_u32, take_u32, u32_at, u32_le};

verus! {

/// The largest payload a receiver accepts unless told otherwise: 16 MiB.
pub const DEFAULT_CEILING: u32 = 16777216;

/// Why a frame could not be built or taken apart.
#[derive(Debug, Clone, Copy, PartialEq, Eq)]
pub enum FrameError {
    /// The payload is longer than a 32-bit length can say.
    TooLong,
    /// The frame declares a payload longer than the receiver's ceiling.
    Oversize { declared: u32 },
    /// The payload is not the message it should be.
    Malformed,
}

/// The frame that carries `payload`.
pub open spec fn frame_bytes(payload: Seq<u8>) -> Seq<u8> {
    u32_le(payload.len() as u32) + payload
}

/// What the start of a byte stream holds.
pub enum FrameView {
    /// Not yet a whole frame: more bytes are needed.
    Incomplete,
    /// A frame whose declared length is over the ceiling.
    Oversize { declared: u32 },
    /// A whole frame: its payload, and the position behind it.
    Complete { payload: Seq<u8>, consumed: int },
}

/// Reads one frame from the start of `input`.
pub open spec fn parse_frame(input: Seq<u8>, ceiling: u32) -> FrameView {
    if !in_reach(input, 0, 4) {
        FrameView::Incomplete
    } else if u32_at(input, 0) > ceiling {
        FrameView::Oversize { declared: u32_at(input, 0) }
    } else if !in_reach(input, 4, u32_at(input, 0) as int) {
        FrameView::Incomplete
    } else {
        FrameView::Complete {
            payload: input.subrange(4, 4 + u32_at(input, 0)),
            consumed: 4 + u32_at(input, 0),
        }
    }
}

/// What a receiver makes of the start of a byte stream that carries messages:
/// nothing yet, a message and the position behind its frame, or an error.
pub open spec fn received_message(input: Seq<u8>, ceiling: u32) -> Result<
    Option<(MessageView, int)>,
    FrameError,
> {
    match parse_frame(input, ceiling) {
        FrameView::Incomplete => Ok(None),
        FrameView::Oversize { declared } => Err(FrameError::Oversize { declared }),
        FrameView::Complete { payload, consumed } => match parse_message(payload) {
            Some(message) => Ok(Some((message, consumed))),
            None => Err(FrameError::Malformed),
        },
    }
}

/// What a receiver makes of the start of a byte stream that carries a header.
pub open spec fn received_header(input: Seq<u8>, ceiling: u32) -> Result<
    Option<(Header, int)>,
    FrameError,
> {
    match parse_frame(input, ceiling) {
        FrameView::Incomplete => Ok(None),
        FrameView::Oversize { declared } => Err(FrameError::Oversize { declared }),
        FrameView::Complete { payload, consumed } => match parse_header(payload) {
            Some(header) => Ok(Some((header, consumed))),
            None => Err(FrameError::Malformed),
        },
    }
}

/// A payload no longer than the ceiling comes back out of its own frame,
/// whatever follows the frame in the stream.
pub proof fn lemma_frame_round_trip(payload: Seq<u8>, after: Seq<u8>, ceiling: u32)
    requires
        payload.len() <= ceiling,
    ensures
        parse_frame(frame_bytes(payload) + after, ceiling) == (FrameView::Complete {
            payload,
            consumed: 4int + payload.len(),
        }),
{
    let input = frame_bytes(payload) + after;
    let length = payload.len() as u32;
    assert(input =~= Seq::<u8>::empty() + u32_le(length) + (payload + after));
    lemma_u32_round_trip(Seq::empty(), length, payload + after);
    assert(input.subrange(4, 4 + length) =~= payload);
}

/// A message whose bytes fit under the ceiling is received as it was sent.
pub proof fn lemma_message_frame_round_trip(message: MessageView, after: Seq<u8>, ceiling: u32)
    requires
        well_formed(message),
        message_bytes(message).len() <= ceiling,
    ensures
        received_message(frame_bytes(message_bytes(message)) + after, ceiling) == Ok::<
            Option<(MessageView, int)>,
            FrameError,
        >(Some((message, 4int + message_bytes(message).len()))),
{
    lemma_frame_round_trip(message_bytes(message), after, ceiling);
    lemma_message_round_trip(message, Seq::empty());
    assert(message_bytes(message) + Seq::<u8>::empty() =~= message_bytes(message));
}

/// A header is received as it was sent, under any ceiling of two or more.
pub proof fn lemma_header_frame_round_trip(header: Header, after: Seq<u8>, ceiling: u32)
    requires
        ceiling >= 2,
    ensures
        received_header(frame_bytes(header_bytes(header)) + after, ceiling) == Ok::<
            Option<(Header, int)>,
            FrameError,
        >(Some((header, 6int))),
{
    lemma_frame_round_trip(header_bytes(header), after, ceiling);
    lemma_header_round_trip(header, Seq::empty());
    assert(header_bytes(header) + Seq::<u8>::empty() =~= header_bytes(header));
}

/// Whether a frame is refused as oversize is decided by its four length
/// bytes: no byte of the payload has to be at hand.
pub proof fn lemma_oversize_decided_by_length(
    length: Seq<u8>,
    after: Seq<u8>,
    other: Seq<u8>,
    ceiling: u32,
)
    requires
        length.len() == 4,
        u32_at(length, 0) > ceiling,
    ensures
        parse_frame(length, ceiling) == (FrameView::Oversize { declared: u32_at(length, 0) }),
        parse_frame(length + after, ceiling) == parse_frame(length + other, ceiling),
        parse_frame(length + after, ceiling) == parse_frame(length, ceiling),
{
    assert((length + after)[0] == length[0] && (length + after)[1] == length[1] && (length
        + after)[2] == length[2] && (length + after)[3] == length[3]);
    assert((length + other)[0] == length[0] && (length + other)[1] == length[1] && (length
        + other)[2] == length[2] && (length + other)[3] == length[3]);
}

/// Writes `length` over the first four bytes of `buffer`.
fn patch_length(buffer: &mut Vec<u8>, length: u32)
    requires
        old(buffer)@.len() >= 4,
    ensures
        final(buffer)@ == u32_le(length) + old(buffer)@.subrange(4, old(buffer)@.len() as int),
{
    buffer.set(0, (length % 256) as u8);
    buffer.set(1, (length / 256 % 256) as u8);
    buffer.set(2, (length / 65536 % 256) as u8);
    buffer.set(3, (length / 16777216) as u8);
    assert(buffer@ =~= u32_le(length) + old(buffer)@.subrange(4, old(buffer)@.len() as int));
}

/// Finishes the frame whose payload stands in `buffer` behind four reserved
/// bytes: writes the payload's length into them, or empties the buffer where
/// the payload is too long for a frame.
fn seal_frame(buffer: &mut Vec<u8>, Ghost(payload): Ghost<Seq<u8>>) -> (sealed: Result<
    (),
    FrameError,
>)
    requires
        old(buffer)@ == u32_le(0) + payload,
    ensures
        payload.len() <= u32::MAX ==> sealed is Ok && final(buffer)@ == frame_bytes(payload),
        payload.len() > u32::MAX ==> sealed == Err::<(), FrameError>(FrameError::TooLong)
            && final(buffer)@.len() == 0,
{
    let length: usize = buffer.len() - 4;
    if length > u32::MAX as usize {
        buffer.clear();
        return Err(FrameError::TooLong);
    }
    patch_length(buffer, length as u32);
    assert(old(buffer)@.subrange(4, old(buffer)@.len() as int) =~= payload);
    Ok(())
}

/// Builds in `buffer` the frame that carries `payload`, replacing what the
/// buffer held. A payload too long for a 32-bit length is refused, and the
/// buffer is then left empty.
pub fn encode_frame(buffer: &mut Vec<u8>, payload: &[u8]) -> (sealed: Result<(), FrameError>)
    ensures
        payload@.len() <= u32::MAX ==> sealed is Ok && final(buffer)@ == frame_bytes(payload@),
        payload@.len() > u32::MAX ==> sealed == Err::<(), FrameError>(FrameError::TooLong)
            && final(buffer)@.len() == 0,
{
    buffer.clear();
    put_u32(buffer, 0);
    put_raw(buffer, payload);
    seal_frame(buffer, Ghost(payload@))
}

/// Builds in `buffer` the frame that carries `message`, replacing what the
/// buffer held: the buffer is cleared, four bytes are reserved, the message's
/// bytes are appended, and the reserved bytes then take the payload's length.
/// A message whose bytes are too many for a 32-bit length is refused, and the
/// buffer is then left empty.
pub fn encode_message(buffer: &mut Vec<u8>, message: &Message) -> (sealed: Result<(), FrameError>)
    ensures
        well_formed(message@),
        message_bytes(message@).len() <= u32::MAX ==> sealed is Ok && final(buffer)@
            == frame_bytes(message_bytes(message@)),
        message_bytes(message@).len() > u32::MAX ==> sealed == Err::<(), FrameError>(
            FrameError::TooLong,
        ) && final(buffer)@.len() == 0,
{
    buffer.clear();
    put_u32(buffer, 0);
    message.encode(buffer);
    seal_frame(buffer, Ghost(message_bytes(message@)))
}

/// Builds in `buffer` the frame that carries `header`, replacing what the
/// buffer held.
pub fn encode_header(buffer: &mut Vec<u8>, header: &Header)
    ensures
        final(buffer)@ == frame_bytes(header_bytes(*header)),
{
    buffer.clear();
    put_u32(buffer, 0);
    header.encode(buffer);
    let sealed = seal_frame(buffer, Ghost(header_bytes(*header)));
}

/// Reads the length that starts a frame and holds it against `ceiling`,
/// before any byte of the payload is read or any room is made for it.
/// `Ok(None)` says that `input` is shorter than a length.
pub fn frame_length(input: &[u8], ceiling: u32) -> (length: Result<Option<usize>, FrameError>)
    ensures
        !in_reach(input@, 0, 4) ==> length == Ok::<Option<usize>, FrameError>(None),
        in_reach(input@, 0, 4) && u32_at(input@, 0) > ceiling ==> length == Err::<
            Option<usize>,
            FrameError,
        >(FrameError::Oversize { declared: u32_at(input@, 0) }),
        in_reach(input@, 0, 4) && u32_at(input@, 0) <= ceiling ==> length == Ok::<
            Option<usize>,
            FrameError,
        >(Some(u32_at(input@, 0) as usize)),
{
    match take_u32(input, 0) {
        None => Ok(None),
        Some((declared, _)) => {
            if declared > ceiling {
                Err(FrameError::Oversize { declared })
            } else {
                Ok(Some(declared as usize))
            }
        },
    }
}

/// Where the first frame of `input` ends, as [`split_frame`] reports it.
pub open spec fn frame_end(input: Seq<u8>, ceiling: u32) -> Result<Option<usize>, FrameError> {
    match parse_frame(input, ceiling) {
        FrameView::Incomplete => Ok(None),
        FrameView::Oversize { declared } => Err(FrameError::Oversize { declared }),
        FrameView::Complete { payload, consumed } => Ok(Some(consumed as usize)),
    }
}

/// From where a frame ends, what the stream held.
proof fn lemma_split_tells_frame(
    input: Seq<u8>,
    ceiling: u32,
    split: Result<Option<usize>, FrameError>,
)
    requires
        split == frame_end(input, ceiling),
        input.len() <= usize::MAX,
    ensures
        split is Err ==> parse_frame(input, ceiling) is Oversize,
        split matches Ok(None) ==> parse_frame(input, ceiling) is Incomplete,
        split matches Ok(Some(end)) ==> parse_frame(input, ceiling) == (FrameView::Complete {
            payload: input.subrange(4, end as int),
            consumed: end as int,
        }) && 4 <= end <= input.len(),
{
}

/// Finds the first frame in `input`: `Ok(Some(end))` says that its payload
/// is `input[4..end]`, `Ok(None)` that the frame is not whole yet.
pub fn split_frame(input: &[u8], ceiling: u32) -> (split: Result<Option<usize>, FrameError>)
    ensures
        split == frame_end(input@, ceiling),
{
    match frame_length(input, ceiling) {
        Err(error) => Err(error),
        Ok(None) => Ok(None),
        Ok(Some(length)) => {
            if length > input.len() - 4 {
                Ok(None)
            } else {
                Ok(Some(4 + length))
            }
        },
    }
}

/// Takes the first message out of `input`: the message and the position
/// behind its frame, `Ok(None)` while the frame is not whole, or the reason
/// why the stream cannot be read any further.
pub fn recv_message(input: &[u8], ceiling: u32) -> (received: Result<
    Option<(Message, usize)>,
    FrameError,
>)
    ensures
        match received_message(input@, ceiling) {
            Ok(None) => received matches Ok(None),
            Ok(Some((message, consumed))) => received matches Ok(Some((got, end))) && got@
                == message && end == consumed && end <= input@.len(),
            Err(error) => received matches Err(e) && e == error,
        },
{
    let split = split_frame(input, ceiling);
    proof {
        assert(input.len() == input@.len());
        lemma_split_tells_frame(input@, ceiling, split);
    }
    match split {
        Err(error) => Err(error),
        Ok(None) => Ok(None),
        Ok(Some(end)) => match Message::decode(vstd::slice::slice_subrange(input, 4, end)) {
            Some(message) => Ok(Some((message, end))),
            None => Err(FrameError::Malformed),
        },
    }
}

/// Takes the header out of `input`, as [`recv_message`] takes a message.
pub fn recv_header(input: &[u8], ceiling: u32) -> (received: Result<
    Option<(Header, usize)>,
    FrameError,
>)
    ensures
        match received_header(input@, ceiling) {
            Ok(None) => received matches Ok(None),
            Ok(Some((header, consumed))) => received matches Ok(Some((got, end))) && got
                == header && end == consumed && end <= input@.len(),
            Err(error) => received matches Err(e) && e == error,
        },
{
    let split = split_frame(input, ceiling);
    proof {
        assert(input.len() == input@.len());
        lemma_split_tells_frame(input@, ceiling, split);
    }
    match split {
        Err(error) => Err(error),
        Ok(None) => Ok(None),
        Ok(Some(end)) => match Header::decode(vstd::slice::slice_subrange(input, 4, end)) {
            Some(header) => Ok(Some((header, end))),
            None => Err(FrameError::Malformed),
        },
    }
}

} // verus!
