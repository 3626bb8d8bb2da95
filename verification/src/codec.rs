//! Telemetry decoder: interprets the fixed 24-byte response of one I2C
//! transaction against the power-monitoring IC as six calibrated rail
//! readings.
//!
//! The frame is six consecutive 4-byte blocks, hardware rail 0 through
//! rail 5, each laid out as `[voltage_hi, voltage_lo, current_hi,
//! current_lo]`: big-endian 16-bit unsigned integers in millivolts and
//! milliamps. The hardware stores the rails in reverse of the user-facing
//! pin order, so pin `p` reads from hardware rail `5 - p`. This reversal
//! is a property of the specific IC and must not be "corrected".

use vstd::prelude::*;

verus! {

/// Exact size in bytes of one raw telemetry frame.
pub const FRAME_LEN: usize = 24;

/// Number of independently monitored power rails (and user-facing pins).
pub const RAIL_COUNT: usize = 6;

/// The 16-bit big-endian word stored at byte offset `off` of a frame.
pub open spec fn word_be(frame: Seq<u8>, off: int) -> int {
    frame[off] * 256 + frame[off + 1]
}

/// The hardware rail that user-facing pin `pin` reads from: the hardware
/// stores rail 5 first from the user's point of view, so the order is
/// reversed.
pub open spec fn rail_of_pin(pin: int) -> int {
    5 - pin
}

/// Byte offset of hardware rail `rail`'s 4-byte block within a frame.
pub open spec fn rail_base(rail: int) -> int {
    4 * rail
}

/// The decoded voltage of pin `pin`, in millivolts.
pub open spec fn pin_millivolts(frame: Seq<u8>, pin: int) -> int {
    word_be(frame, rail_base(rail_of_pin(pin)))
}

/// The decoded current of pin `pin`, in milliamps.
pub open spec fn pin_milliamps(frame: Seq<u8>, pin: int) -> int {
    word_be(frame, rail_base(rail_of_pin(pin)) + 2)
}

/// One calibrated reading for a single pin: voltage and current in
/// milli-units. Dividing each by 1000 gives volts and amperes.
#[derive(Clone, Copy, Debug, PartialEq, Eq, Structural)]
pub struct RailReading {
    pub millivolts: u16,
    pub milliamps: u16,
}

/// Reads the big-endian 16-bit word at byte offset `offset` of a frame.
pub fn read_u16_be(frame: &[u8; 24], offset: usize) -> (r: u16)
    requires
        offset + 2 <= 24,
    ensures
        r == word_be(frame@, offset as int),
{
    (frame[offset] as u16) * 256 + (frame[offset + 1] as u16)
}

/// Decodes one raw frame into the six rail readings in user-facing pin
/// order: pin `p`'s voltage and current come from hardware rail
/// `5 - p`'s 4-byte block.
pub fn decode_frame(frame: &[u8; 24]) -> (r: [RailReading; 6])
    ensures
        forall|p: int|
            0 <= p < 6 ==> #[trigger] r@[p] == (RailReading {
                millivolts: pin_millivolts(frame@, p) as u16,
                milliamps: pin_milliamps(frame@, p) as u16,
            }),
{
    let r = [
        RailReading { millivolts: read_u16_be(frame, 20), milliamps: read_u16_be(frame, 22) },
        RailReading { millivolts: read_u16_be(frame, 16), milliamps: read_u16_be(frame, 18) },
        RailReading { millivolts: read_u16_be(frame, 12), milliamps: read_u16_be(frame, 14) },
        RailReading { millivolts: read_u16_be(frame, 8), milliamps: read_u16_be(frame, 10) },
        RailReading { millivolts: read_u16_be(frame, 4), milliamps: read_u16_be(frame, 6) },
        RailReading { millivolts: read_u16_be(frame, 0), milliamps: read_u16_be(frame, 2) },
    ];
    r
}

/// Decoding is deterministic: equal frames decode to equal readings at
/// every pin.
pub proof fn lemma_decode_deterministic(a: Seq<u8>, b: Seq<u8>)
    requires
        a == b,
    ensures
        forall|p: int|
            0 <= p < 6 ==> pin_millivolts(a, p) == pin_millivolts(b, p) && pin_milliamps(a, p)
                == pin_milliamps(b, p),
{
}

/// The pin-to-rail reversal: whatever 16-bit words hardware rail `r`'s
/// block encodes are reported, unchanged, at pin `5 - r`.
pub proof fn lemma_pin_rail_reversal(frame: Seq<u8>, r: int)
    requires
        0 <= r < 6,
    ensures
        pin_millivolts(frame, 5 - r) == word_be(frame, 4 * r),
        pin_milliamps(frame, 5 - r) == word_be(frame, 4 * r + 2),
{
}

} // verus!
