//! Frames from the UART: COBS-framed images of the pad state.
use vstd::prelude::*;

use crate::gamepad::uni_gamepad_t;

verus! {

/// The size of the image of a pad state.
pub const GAMEPAD_SIZE: usize = 56;

// ---------------------------------------------------------------------------
// The image of a pad state
// ---------------------------------------------------------------------------

/// The unsigned little-endian number in the four bytes from `at`.
pub open spec fn le_u32(bytes: Seq<u8>, at: int) -> int {
    bytes[at] + 0x100 * bytes[at + 1] + 0x1_0000 * bytes[at + 2] + 0x100_0000 * bytes[at + 3]
}

/// The signed (two's complement) little-endian number in the four bytes from `at`.
pub open spec fn le_i32(bytes: Seq<u8>, at: int) -> int {
    if le_u32(bytes, at) < 0x8000_0000 {
        le_u32(bytes, at)
    } else {
        le_u32(bytes, at) - 0x1_0000_0000
    }
}

/// Whether `pad` is the state whose image `bytes` is. Numbers are little-endian, each aligned
/// to its size; the bytes 1 to 3 and 31 are padding.
pub open spec fn is_image_of(bytes: Seq<u8>, pad: uni_gamepad_t) -> bool {
    &&& pad.dpad == bytes[0]
    &&& pad.axis_x == le_i32(bytes, 4)
    &&& pad.axis_y == le_i32(bytes, 8)
    &&& pad.axis_rx == le_i32(bytes, 12)
    &&& pad.axis_ry == le_i32(bytes, 16)
    &&& pad.brake == le_i32(bytes, 20)
    &&& pad.throttle == le_i32(bytes, 24)
    &&& pad.buttons == bytes[28] + 0x100 * bytes[29]
    &&& pad.misc_buttons == bytes[30]
    &&& pad.gyro@[0] == le_i32(bytes, 32)
    &&& pad.gyro@[1] == le_i32(bytes, 36)
    &&& pad.gyro@[2] == le_i32(bytes, 40)
    &&& pad.accel@[0] == le_i32(bytes, 44)
    &&& pad.accel@[1] == le_i32(bytes, 48)
    &&& pad.accel@[2] == le_i32(bytes, 52)
}

fn read_i32(bytes: &[u8; 56], at: usize) -> (value: i32)
    requires
        at + 4 <= 56,
    ensures
        value == le_i32(bytes@, at as int),
{
    let raw: u32 = bytes[at] as u32 + 0x100 * (bytes[at + 1] as u32) + 0x1_0000 * (bytes[at
        + 2] as u32) + 0x100_0000 * (bytes[at + 3] as u32);
    if raw < 0x8000_0000 {
        raw as i32
    } else {
        (raw as i64 - 0x1_0000_0000) as i32
    }
}

impl uni_gamepad_t {
    /// Reads a pad state from its image.
    pub fn from_image(bytes: &[u8; 56]) -> (pad: Self)
        ensures
            is_image_of(bytes@, pad),
    {
        uni_gamepad_t {
            dpad: bytes[0],
            axis_x: read_i32(bytes, 4),
            axis_y: read_i32(bytes, 8),
            axis_rx: read_i32(bytes, 12),
            axis_ry: read_i32(bytes, 16),
            brake: read_i32(bytes, 20),
            throttle: read_i32(bytes, 24),
            buttons: bytes[28] as u16 + 0x100 * (bytes[29] as u16),
            misc_buttons: bytes[30],
            gyro: [read_i32(bytes, 32), read_i32(bytes, 36), read_i32(bytes, 40)],
            accel: [read_i32(bytes, 44), read_i32(bytes, 48), read_i32(bytes, 52)],
        }
    }
}

// ---------------------------------------------------------------------------
// COBS
// ---------------------------------------------------------------------------

/// `cobs::CobsDecoderHeapless`, the streaming decoder that owns its buffer.
#[verifier::external_type_specification]
#[verifier::external_body]
pub struct ExCobsDecoder<const N: usize>(cobs::CobsDecoderHeapless<N>);

/// Why a frame could not be decoded.
#[derive(Clone, Copy, Debug, PartialEq, Eq, Structural)]
pub enum FrameError {
    EmptyFrame,
    InvalidFrame { decoded_bytes: usize },
    TargetBufTooSmall,
}

/// The encoded bytes of the frame that a decoder is in the middle of; none between frames.
pub uninterp spec fn pending(decoder: cobs::CobsDecoderHeapless<56>) -> Seq<u8>;

/// The buffer that a decoder decodes into.
pub uninterp spec fn buffer(decoder: cobs::CobsDecoderHeapless<56>) -> Seq<u8>;

/// What a decoder with room for 56 bytes says to the last byte of `encoded`, after all the bytes
/// before it, of which it started with the first: that the frame goes on, that it is complete,
/// with the bytes decoded from it, or that it is broken.
pub uninterp spec fn decoded(encoded: Seq<u8>) -> Result<Option<Seq<u8>>, FrameError>;

/// An outcome with the length of a complete frame in place of its bytes.
pub open spec fn outcome_of(
    said: Result<Option<Seq<u8>>, FrameError>,
) -> Result<Option<usize>, FrameError> {
    match said {
        Ok(None) => Ok(None),
        Ok(Some(frame)) => Ok(Some(frame.len() as usize)),
        Err(error) => Err(error),
    }
}

/// The bytes of a complete frame.
pub open spec fn frame_of(said: Result<Option<Seq<u8>>, FrameError>) -> Seq<u8> {
    said->Ok_0->Some_0
}

/// How many bytes stand before the first zero.
pub open spec fn run_length(data: Seq<u8>) -> nat
    decreases data.len(),
{
    if data.len() == 0 || data[0] == 0 {
        0
    } else {
        1 + run_length(data.skip(1))
    }
}

/// Bytes without their zeros: each run of other bytes follows a byte that holds its length plus
/// one. So it is for runs of up to 253 bytes.
pub open spec fn stuffed(data: Seq<u8>) -> Seq<u8>
    decreases data.len(),
{
    let run = run_length(data);
    let head = seq![(run + 1) as u8];
    if run < data.len() {
        head + data.take(run as int) + stuffed(data.skip(run as int + 1))
    } else {
        head + data
    }
}

/// The frame of some bytes: without their zeros, and with a zero at the end.
pub open spec fn cobs_frame(data: Seq<u8>) -> Seq<u8> {
    stuffed(data).push(0)
}

/// `cobs::CobsDecoderHeapless::new`: the contract claims that the decoder is between frames,
/// with a buffer of 56 bytes.
#[verifier::external_body]
fn new_decoder() -> (decoder: cobs::CobsDecoderHeapless<56>)
    ensures
        pending(decoder) == Seq::<u8>::empty(),
        buffer(decoder).len() == GAMEPAD_SIZE,
{
    cobs::CobsDecoderHeapless::new()
}

/// `cobs::CobsDecoderHeapless::feed`: the contract claims that between frames a zero byte is
/// passed over; that otherwise the outcome depends on the encoded bytes of the frame alone;
/// that a frame that goes on has grown by the byte; that a complete one, whose length is
/// returned, stands at the start of the buffer and leaves the decoder between frames; and that
/// the frame of bytes that fit the buffer goes on until it is complete with those bytes. In
/// what state a broken frame leaves the decoder is not said.
#[verifier::external_body]
fn feed(
    decoder: &mut cobs::CobsDecoderHeapless<56>,
    byte: u8,
) -> (outcome: Result<Option<usize>, FrameError>)
    ensures
        pending(*old(decoder)).len() == 0 && byte == 0 ==> outcome is Ok && outcome->Ok_0 is None
            && pending(*final(decoder)) == pending(*old(decoder)),
        pending(*old(decoder)).len() > 0 || byte != 0 ==> (outcome == outcome_of(
            decoded(pending(*old(decoder)).push(byte)),
        )),
        outcome is Ok && outcome->Ok_0 is None && (pending(*old(decoder)).len() > 0 || byte != 0)
            ==> pending(*final(decoder)) == pending(*old(decoder)).push(byte),
        outcome is Ok && outcome->Ok_0 is Some ==> outcome->Ok_0->Some_0 <= GAMEPAD_SIZE
            && outcome->Ok_0->Some_0 == frame_of(decoded(pending(*old(decoder)).push(byte))).len()
            && buffer(*final(decoder)).take(outcome->Ok_0->Some_0 as int) == frame_of(
            decoded(pending(*old(decoder)).push(byte)),
        ) && pending(*final(decoder)) == Seq::<u8>::empty(),
        buffer(*final(decoder)).len() == buffer(*old(decoder)).len(),
        forall|data: Seq<u8>|
            data.len() <= GAMEPAD_SIZE && pending(*old(decoder)).push(byte) == #[trigger] cobs_frame(
                data,
            ) ==> outcome is Ok && outcome->Ok_0 == Some(data.len() as usize) && buffer(
                *final(decoder),
            ).take(data.len() as int) == data,
        forall|data: Seq<u8>, n: int|
            data.len() <= GAMEPAD_SIZE && 0 < n < cobs_frame(data).len() && pending(
                *old(decoder),
            ).push(byte) == #[trigger] cobs_frame(data).take(n) ==> outcome is Ok
                && outcome->Ok_0 is None,
{
    match decoder.feed(byte) {
        Ok(length) => Ok(length),
        Err(cobs::DecodeError::EmptyFrame) => Err(FrameError::EmptyFrame),
        Err(cobs::DecodeError::InvalidFrame { decoded_bytes }) => {
            Err(FrameError::InvalidFrame { decoded_bytes })
        },
        Err(cobs::DecodeError::TargetBufTooSmall) => Err(FrameError::TargetBufTooSmall),
    }
}

/// `cobs::CobsDecoderHeapless::reset`: the contract claims that the decoder is between frames
/// again, with the same buffer.
#[verifier::external_body]
fn reset(decoder: &mut cobs::CobsDecoderHeapless<56>)
    ensures
        pending(*final(decoder)) == Seq::<u8>::empty(),
        buffer(*final(decoder)) == buffer(*old(decoder)),
{
    decoder.reset()
}

/// `cobs::CobsDecoderHeapless::dest`: the contract claims that it gives the buffer.
#[verifier::external_body]
fn dest(decoder: &cobs::CobsDecoderHeapless<56>) -> (bytes: [u8; 56])
    requires
        buffer(*decoder).len() == GAMEPAD_SIZE,
    ensures
        bytes@ == buffer(*decoder),
{
    decoder.dest().try_into().unwrap()
}

// ---------------------------------------------------------------------------
// The receiver
// ---------------------------------------------------------------------------

/// What came of a read from the UART.
pub enum FrameEvent {
    /// The read failed; the frame in progress is dropped.
    ReadFailed,
    /// The frame goes on.
    Waiting,
    /// A pad state arrived.
    Received(uni_gamepad_t),
    /// A frame of another size arrived and is dropped.
    WrongSize(usize),
    /// The frame is broken and is dropped.
    Broken(FrameError),
}

/// Whether `event` is what a frame leads to, given what the decoder made of it.
pub open spec fn leads_to(
    outcome: Result<Option<Seq<u8>>, FrameError>,
    event: FrameEvent,
) -> bool {
    match outcome {
        Ok(None) => event is Waiting,
        Ok(Some(frame)) => if frame.len() == GAMEPAD_SIZE {
            event matches FrameEvent::Received(pad) && is_image_of(frame, pad)
        } else {
            event == FrameEvent::WrongSize(frame.len() as usize)
        },
        Err(error) => event == FrameEvent::Broken(error),
    }
}

/// What an outcome of the decoder leads to, where `bytes` is its buffer.
pub fn frame_event(
    outcome: Result<Option<usize>, FrameError>,
    bytes: &[u8; 56],
) -> (event: FrameEvent)
    ensures
        match outcome {
            Ok(None) => event is Waiting,
            Ok(Some(len)) => if len == GAMEPAD_SIZE {
                event matches FrameEvent::Received(pad) && is_image_of(bytes@, pad)
            } else {
                event == FrameEvent::WrongSize(len)
            },
            Err(error) => event == FrameEvent::Broken(error),
        },
{
    match outcome {
        Ok(None) => FrameEvent::Waiting,
        Ok(Some(len)) => {
            if len == GAMEPAD_SIZE {
                FrameEvent::Received(uni_gamepad_t::from_image(bytes))
            } else {
                FrameEvent::WrongSize(len)
            }
        },
        Err(error) => FrameEvent::Broken(error),
    }
}

/// Collects the bytes of the UART into frames.
pub struct FrameReceiver {
    decoder: cobs::CobsDecoderHeapless<56>,
}

impl View for FrameReceiver {
    type V = Seq<u8>;

    /// The encoded bytes of the frame in progress.
    closed spec fn view(&self) -> Seq<u8> {
        pending(self.decoder)
    }
}

impl FrameReceiver {
    /// The buffer of the decoder has room for exactly one image.
    pub closed spec fn wf(&self) -> bool {
        buffer(self.decoder).len() == GAMEPAD_SIZE
    }

    /// A receiver that waits for a frame to begin.
    pub fn new() -> (receiver: Self)
        ensures
            receiver.wf(),
            receiver@ == Seq::<u8>::empty(),
    {
        FrameReceiver { decoder: new_decoder() }
    }
}

/// Whether `event` is what the bytes `encoded` lead to where they are the frame of bytes that
/// fit the buffer, or the beginning of one.
pub open spec fn keeps_to_frames(encoded: Seq<u8>, event: FrameEvent) -> bool {
    &&& forall|data: Seq<u8>|
        data.len() <= GAMEPAD_SIZE && encoded == #[trigger] cobs_frame(data) ==> leads_to(
            Ok(Some(data)),
            event,
        )
    &&& forall|data: Seq<u8>, n: int|
        data.len() <= GAMEPAD_SIZE && 0 < n < cobs_frame(data).len() && encoded
            == #[trigger] cobs_frame(data).take(n) ==> event is Waiting
}

/// Whether a byte that comes in after the bytes `before` of a frame leads to `event`, and to
/// the bytes `after`. A zero byte between frames is passed over.
pub open spec fn receives(before: Seq<u8>, byte: u8, after: Seq<u8>, event: FrameEvent) -> bool {
    if before.len() == 0 && byte == 0 {
        event is Waiting && after == before
    } else {
        &&& leads_to(decoded(before.push(byte)), event)
        &&& keeps_to_frames(before.push(byte), event)
        &&& after == (if event is Waiting {
            before.push(byte)
        } else {
            Seq::empty()
        })
    }
}

/// One round of the UART loop: takes in the outcome of a read of one byte. Whatever ends a
/// frame, the next byte starts a new one.
pub fn uart_task(receiver: &mut FrameReceiver, read: Result<u8, ()>) -> (event: FrameEvent)
    requires
        old(receiver).wf(),
    ensures
        final(receiver).wf(),
        match read {
            Err(_) => event is ReadFailed && final(receiver)@ == Seq::<u8>::empty(),
            Ok(byte) => receives(old(receiver)@, byte, final(receiver)@, event),
        },
{
    match read {
        Err(_) => {
            reset(&mut receiver.decoder);
            FrameEvent::ReadFailed
        },
        Ok(byte) => {
            let outcome = feed(&mut receiver.decoder, byte);
            let bytes = dest(&receiver.decoder);
            let event = frame_event(outcome, &bytes);
            match outcome {
                Ok(None) => {},
                _ => reset(&mut receiver.decoder),
            }
            event
        },
    }
}

// ---------------------------------------------------------------------------
// Laws
// ---------------------------------------------------------------------------

/// A frame is delivered: its bytes, read one by one from between frames on, lead to nothing
/// until the last one. That one delivers the pad state, where the frame carries the image of
/// one, or else reports the wrong size. The receiver is between frames again.
pub proof fn law_a_frame_is_delivered(
    data: Seq<u8>,
    held: Seq<Seq<u8>>,
    events: Seq<FrameEvent>,
)
    requires
        data.len() <= GAMEPAD_SIZE,
        held.len() == cobs_frame(data).len() + 1,
        events.len() == cobs_frame(data).len(),
        held[0] == Seq::<u8>::empty(),
        forall|i: int|
            0 <= i < events.len() ==> receives(
                held[i],
                cobs_frame(data)[i],
                held[i + 1],
                #[trigger] events[i],
            ),
    ensures
        forall|i: int| 0 <= i < events.len() - 1 ==> #[trigger] events[i] is Waiting,
        data.len() == GAMEPAD_SIZE ==> (events.last() matches FrameEvent::Received(pad)
            && is_image_of(data, pad)),
        data.len() < GAMEPAD_SIZE ==> events.last() == FrameEvent::WrongSize(data.len() as usize),
        held.last() == Seq::<u8>::empty(),
{
    let encoded = cobs_frame(data);
    lemma_a_frame_starts_with_a_length(data);
    assert forall|n: int| 0 <= n < encoded.len() implies #[trigger] held[n] == encoded.take(n) by {
        lemma_frame_in_progress(data, held, events, n);
    }
    assert forall|i: int| 0 <= i < encoded.len() - 1 implies #[trigger] events[i] is Waiting by {
        assert(held[i] == encoded.take(i));
        assert(encoded.take(i).push(encoded[i]) =~= encoded.take(i + 1));
        assert(receives(held[i], encoded[i], held[i + 1], events[i]));
    }
    let last = encoded.len() - 1;
    assert(held[last] == encoded.take(last));
    assert(encoded.take(last).push(encoded[last]) =~= encoded);
    assert(receives(held[last], encoded[last], held[last + 1], events[last]));
}

proof fn lemma_a_frame_starts_with_a_length(data: Seq<u8>)
    requires
        data.len() <= GAMEPAD_SIZE,
    ensures
        cobs_frame(data).len() > 1,
        cobs_frame(data)[0] != 0,
{
    lemma_a_run_is_not_longer(data);
}

proof fn lemma_a_run_is_not_longer(data: Seq<u8>)
    ensures
        run_length(data) <= data.len(),
    decreases data.len(),
{
    if data.len() > 0 && data[0] != 0 {
        lemma_a_run_is_not_longer(data.skip(1));
    }
}

proof fn lemma_frame_in_progress(
    data: Seq<u8>,
    held: Seq<Seq<u8>>,
    events: Seq<FrameEvent>,
    n: int,
)
    requires
        data.len() <= GAMEPAD_SIZE,
        0 <= n < cobs_frame(data).len(),
        held.len() == cobs_frame(data).len() + 1,
        events.len() == cobs_frame(data).len(),
        held[0] == Seq::<u8>::empty(),
        forall|i: int|
            0 <= i < events.len() ==> receives(
                held[i],
                cobs_frame(data)[i],
                held[i + 1],
                #[trigger] events[i],
            ),
    ensures
        held[n] == cobs_frame(data).take(n),
    decreases n,
{
    let encoded = cobs_frame(data);
    if n == 0 {
        assert(encoded.take(0) =~= Seq::empty());
    } else {
        lemma_a_frame_starts_with_a_length(data);
        lemma_frame_in_progress(data, held, events, n - 1);
        assert(encoded.take(n - 1).push(encoded[n - 1]) =~= encoded.take(n));
        assert(receives(held[n - 1], encoded[n - 1], held[n - 1 + 1], events[n - 1]));
    }
}

/// An image determines the pad state, and its padding bytes do not matter.
pub proof fn law_an_image_determines_the_state(
    image: Seq<u8>,
    other: Seq<u8>,
    pad: uni_gamepad_t,
    other_pad: uni_gamepad_t,
)
    requires
        image.len() == GAMEPAD_SIZE,
        other.len() == GAMEPAD_SIZE,
        forall|i: int|
            0 <= i < GAMEPAD_SIZE && i != 1 && i != 2 && i != 3 && i != 31 ==> #[trigger] image[i]
                == other[i],
        is_image_of(image, pad),
        is_image_of(other, other_pad),
    ensures
        pad.dpad == other_pad.dpad,
        pad.axis_x == other_pad.axis_x,
        pad.axis_y == other_pad.axis_y,
        pad.axis_rx == other_pad.axis_rx,
        pad.axis_ry == other_pad.axis_ry,
        pad.brake == other_pad.brake,
        pad.throttle == other_pad.throttle,
        pad.buttons == other_pad.buttons,
        pad.misc_buttons == other_pad.misc_buttons,
        pad.gyro@ == other_pad.gyro@,
        pad.accel@ == other_pad.accel@,
{
    assert(pad.gyro@ =~= other_pad.gyro@);
    assert(pad.accel@ =~= other_pad.accel@);
}

/// Whether the four bytes from `at` are those of a number in two's complement, the lowest first.
pub open spec fn holds_number(bytes: Seq<u8>, at: int, value: int) -> bool {
    &&& bytes[at] == value % 0x100
    &&& bytes[at + 1] == value / 0x100 % 0x100
    &&& bytes[at + 2] == value / 0x1_0000 % 0x100
    &&& bytes[at + 3] == value / 0x100_0000 % 0x100
}

proof fn lemma_bytes_of_a_number(bytes: Seq<u8>, at: int)
    ensures
        holds_number(bytes, at, le_i32(bytes, at)),
{
    let value = le_i32(bytes, at);
    let sign: int = if bytes[at + 3] >= 128 {
        0x100
    } else {
        0
    };
    let high = bytes[at + 3] - sign;
    assert(value == bytes[at] + 0x100 * (bytes[at + 1] + 0x100 * (bytes[at + 2] + 0x100 * high)));
    assert(value / 0x100 == bytes[at + 1] + 0x100 * (bytes[at + 2] + 0x100 * high));
    assert(value / 0x1_0000 == bytes[at + 2] + 0x100 * high);
    assert(value / 0x100_0000 == high);
}

/// An image holds every field of its state in the bytes of that field: the directions in byte
/// 0, the left stick from byte 4 and from byte 8, the right one from 12 and 16, the brake from
/// 20, the throttle from 24, the buttons in 28 and 29, the others in 30, the gyroscope from 32
/// and the accelerometer from 44.
pub proof fn law_an_image_holds_each_field_in_its_bytes(bytes: Seq<u8>, pad: uni_gamepad_t)
    requires
        bytes.len() == GAMEPAD_SIZE,
        is_image_of(bytes, pad),
    ensures
        bytes[0] == pad.dpad,
        holds_number(bytes, 4, pad.axis_x as int),
        holds_number(bytes, 8, pad.axis_y as int),
        holds_number(bytes, 12, pad.axis_rx as int),
        holds_number(bytes, 16, pad.axis_ry as int),
        holds_number(bytes, 20, pad.brake as int),
        holds_number(bytes, 24, pad.throttle as int),
        holds_number(bytes, 32, pad.gyro@[0] as int),
        holds_number(bytes, 36, pad.gyro@[1] as int),
        holds_number(bytes, 40, pad.gyro@[2] as int),
        holds_number(bytes, 44, pad.accel@[0] as int),
        holds_number(bytes, 48, pad.accel@[1] as int),
        holds_number(bytes, 52, pad.accel@[2] as int),
        bytes[28] == pad.buttons % 0x100,
        bytes[29] == pad.buttons / 0x100,
        bytes[30] == pad.misc_buttons,
{
    lemma_bytes_of_a_number(bytes, 4);
    lemma_bytes_of_a_number(bytes, 8);
    lemma_bytes_of_a_number(bytes, 12);
    lemma_bytes_of_a_number(bytes, 16);
    lemma_bytes_of_a_number(bytes, 20);
    lemma_bytes_of_a_number(bytes, 24);
    lemma_bytes_of_a_number(bytes, 32);
    lemma_bytes_of_a_number(bytes, 36);
    lemma_bytes_of_a_number(bytes, 40);
    lemma_bytes_of_a_number(bytes, 44);
    lemma_bytes_of_a_number(bytes, 48);
    lemma_bytes_of_a_number(bytes, 52);
}

/// What the decoder makes of a byte is passed on: a frame that goes on is waited for with the
/// byte kept, one that ends is delivered where it has 56 bytes and told by its length where it
/// has not, and a broken one is told with its error. After a frame the next one begins.
pub proof fn law_outcomes_are_passed_on(
    before: Seq<u8>,
    byte: u8,
    after: Seq<u8>,
    event: FrameEvent,
)
    requires
        receives(before, byte, after, event),
    ensures
        before.len() == 0 && byte == 0 ==> event is Waiting && after.len() == 0,
        before.len() > 0 || byte != 0 ==> match decoded(before.push(byte)) {
            Ok(None) => event is Waiting && after == before.push(byte),
            Ok(Some(frame)) => after.len() == 0 && if frame.len() == 56 {
                event matches FrameEvent::Received(pad) && pad.dpad == frame[0] && holds_number(
                    frame,
                    4,
                    pad.axis_x as int,
                )
            } else {
                event == FrameEvent::WrongSize(frame.len() as usize)
            },
            Err(error) => after.len() == 0 && event == FrameEvent::Broken(error),
        },
{
    if before.len() > 0 || byte != 0 {
        if let Ok(Some(frame)) = decoded(before.push(byte)) {
            lemma_bytes_of_a_number(frame, 4);
        }
    }
}

} // verus!
