//! Frames of the PMSA003I particulate-matter sensor.
//!
//! The sensor answers a read of its 32 registers with one frame:
//!
//! | bytes    | content                                              |
//! |----------|------------------------------------------------------|
//! | 0..2     | the fixed header `0x42 0x4D`                         |
//! | 2..4     | frame length, not used here                          |
//! | 4..10    | PM1.0, PM2.5, PM10 for the standard particle         |
//! | 10..16   | PM1.0, PM2.5, PM10 under atmospheric conditions      |
//! | 16..28   | six particle counts per 0.1 l of air                 |
//! | 28..30   | reserved                                             |
//! | 30..32   | checksum: the sum of bytes 0..30, modulo 2^16        |
//!
//! Every field is an unsigned 16-bit number, most significant byte first.

use vstd::prelude::*;

verus! {

/// Bus address of the sensor.
pub const SENSOR_I2C_ADDR: u8 = 0x12;

/// The two bytes that start every frame.
pub const EXPECTED_HEADER: [u8; 2] = [0x42, 0x4D];

/// Number of registers of the sensor, which is the length of a frame.
pub const TOTAL_REGISTERS: usize = 32;

/// Number of leading bytes of a frame that the checksum covers.
pub const CHECKSUM_OFFSET: usize = 30;

/// Why a frame, or a whole acquisition, was turned down.
#[derive(Debug, Clone, Copy, PartialEq, Eq)]
pub enum Error {
    /// Fewer than two bytes were given to the header check.
    Empty,
    /// The first two bytes are not the fixed header.
    InvalidHeader {
        /// The two bytes found.
        observed: [u8; 2],
        /// The two bytes that start a frame.
        expected: [u8; 2],
    },
    /// The checksum check was given something other than one whole frame.
    WrongLength,
    /// The checksum in the frame is not the sum of the bytes before it.
    ChecksumMismatch,
    /// The decoder was given fewer bytes than a frame has.
    BufferTooShort,
    /// A frame could not be decoded and an all-zero reading took its place.
    DecodeFailed,
    /// The bus transaction with the sensor failed.
    BusError,
}

impl Error {
    /// The text of `message` as a sequence of characters.
    pub open spec fn message_text(self) -> Seq<char> {
        match self {
            Error::Empty => "Buffer is empty"@,
            Error::InvalidHeader { .. } => "Header validation failed"@,
            Error::WrongLength => "Could not validate checksum, incorrect number of bytes received"@,
            Error::ChecksumMismatch => "Checksum validation failed"@,
            Error::BufferTooShort => "Buffer too short, expected at least 32 bytes"@,
            Error::DecodeFailed => "Error parsing data"@,
            Error::BusError => "Error reading registers"@,
        }
    }

    /// A short description of the error for a diagnostic trace.
    pub fn message(&self) -> (text: &'static str)
        ensures
            text@ == self.message_text(),
    {
        match self {
            Error::Empty => "Buffer is empty",
            Error::InvalidHeader { .. } => "Header validation failed",
            Error::WrongLength => "Could not validate checksum, incorrect number of bytes received",
            Error::ChecksumMismatch => "Checksum validation failed",
            Error::BufferTooShort => "Buffer too short, expected at least 32 bytes",
            Error::DecodeFailed => "Error parsing data",
            Error::BusError => "Error reading registers",
        }
    }
}

/// All measurements of one frame. Only `pm2_5_env` enters the AQI; the others
/// are kept as the sensor sent them.
#[derive(Debug, Clone, Copy, PartialEq, Eq)]
pub struct Pmsa003iData {
    /// PM1.0 concentration in µg/m³, standard particle (factory calibration).
    pub pm1_0_standard: u16,
    /// PM2.5 concentration in µg/m³, standard particle.
    pub pm2_5_standard: u16,
    /// PM10 concentration in µg/m³, standard particle.
    pub pm10_standard: u16,
    /// PM1.0 concentration in µg/m³ under atmospheric conditions.
    pub pm1_0_env: u16,
    /// PM2.5 concentration in µg/m³ under atmospheric conditions.
    pub pm2_5_env: u16,
    /// PM10 concentration in µg/m³ under atmospheric conditions.
    pub pm10_env: u16,
    /// Particles wider than 0.3 µm in 0.1 l of air.
    pub particles_0_3: u16,
    /// Particles wider than 0.5 µm in 0.1 l of air.
    pub particles_0_5: u16,
    /// Particles wider than 1.0 µm in 0.1 l of air.
    pub particles_1_0: u16,
    /// Particles wider than 2.5 µm in 0.1 l of air.
    pub particles_2_5: u16,
    /// Particles wider than 5.0 µm in 0.1 l of air.
    pub particles_5_0: u16,
    /// Particles wider than 10 µm in 0.1 l of air.
    pub particles_10: u16,
}

impl Pmsa003iData {
    /// The twelve fields in the order in which a frame carries them.
    pub open spec fn fields(self) -> Seq<u16> {
        seq![
            self.pm1_0_standard,
            self.pm2_5_standard,
            self.pm10_standard,
            self.pm1_0_env,
            self.pm2_5_env,
            self.pm10_env,
            self.particles_0_3,
            self.particles_0_5,
            self.particles_1_0,
            self.particles_2_5,
            self.particles_5_0,
            self.particles_10,
        ]
    }

    /// The reading in which every field is zero.
    pub open spec fn zero() -> Pmsa003iData {
        Pmsa003iData {
            pm1_0_standard: 0,
            pm2_5_standard: 0,
            pm10_standard: 0,
            pm1_0_env: 0,
            pm2_5_env: 0,
            pm10_env: 0,
            particles_0_3: 0,
            particles_0_5: 0,
            particles_1_0: 0,
            particles_2_5: 0,
            particles_5_0: 0,
            particles_10: 0,
        }
    }
}

impl Default for Pmsa003iData {
    /// The all-zero reading.
    fn default() -> (reading: Pmsa003iData)
        ensures
            reading == Pmsa003iData::zero(),
    {
        Pmsa003iData {
            pm1_0_standard: 0,
            pm2_5_standard: 0,
            pm10_standard: 0,
            pm1_0_env: 0,
            pm2_5_env: 0,
            pm10_env: 0,
            particles_0_3: 0,
            particles_0_5: 0,
            particles_1_0: 0,
            particles_2_5: 0,
            particles_5_0: 0,
            particles_10: 0,
        }
    }
}

/// The number that two bytes stand for, most significant byte first.
pub open spec fn be16(hi: u8, lo: u8) -> u16 {
    (hi * 256 + lo) as u16
}

/// The sum of the bytes of `bytes`, without any wrapping.
pub open spec fn byte_sum(bytes: Seq<u8>) -> int
    decreases bytes.len(),
{
    if bytes.len() == 0 {
        0
    } else {
        byte_sum(bytes.drop_last()) + bytes.last()
    }
}

/// The checksum of a frame as computed from its content: the sum of the
/// bytes before the checksum field, modulo 2^16.
pub open spec fn computed_checksum(frame: Seq<u8>) -> int {
    byte_sum(frame.subrange(0, CHECKSUM_OFFSET as int)) % 0x1_0000
}

/// The checksum that a frame carries in its last two bytes.
pub open spec fn received_checksum(frame: Seq<u8>) -> int {
    be16(frame[CHECKSUM_OFFSET as int], frame[CHECKSUM_OFFSET + 1]) as int
}

/// What the header check says of a byte sequence.
pub open spec fn header_check(bytes: Seq<u8>) -> Result<(), Error> {
    if bytes.len() < 2 {
        Err(Error::Empty)
    } else if bytes[0] == EXPECTED_HEADER[0] && bytes[1] == EXPECTED_HEADER[1] {
        Ok(())
    } else {
        Err(Error::InvalidHeader { observed: [bytes[0], bytes[1]], expected: EXPECTED_HEADER })
    }
}

/// What the checksum check says of a byte sequence.
pub open spec fn checksum_check(bytes: Seq<u8>) -> Result<(), Error> {
    if bytes.len() != TOTAL_REGISTERS {
        Err(Error::WrongLength)
    } else if computed_checksum(bytes) == received_checksum(bytes) {
        Ok(())
    } else {
        Err(Error::ChecksumMismatch)
    }
}

/// The reading that the first 32 bytes of `bytes` hold.
pub open spec fn decoded(bytes: Seq<u8>) -> Pmsa003iData {
    Pmsa003iData {
        pm1_0_standard: be16(bytes[4], bytes[5]),
        pm2_5_standard: be16(bytes[6], bytes[7]),
        pm10_standard: be16(bytes[8], bytes[9]),
        pm1_0_env: be16(bytes[10], bytes[11]),
        pm2_5_env: be16(bytes[12], bytes[13]),
        pm10_env: be16(bytes[14], bytes[15]),
        particles_0_3: be16(bytes[16], bytes[17]),
        particles_0_5: be16(bytes[18], bytes[19]),
        particles_1_0: be16(bytes[20], bytes[21]),
        particles_2_5: be16(bytes[22], bytes[23]),
        particles_5_0: be16(bytes[24], bytes[25]),
        particles_10: be16(bytes[26], bytes[27]),
    }
}

/// What decoding says of a byte sequence.
pub open spec fn decode_check(bytes: Seq<u8>) -> Result<Pmsa003iData, Error> {
    if bytes.len() < TOTAL_REGISTERS {
        Err(Error::BufferTooShort)
    } else {
        Ok(decoded(bytes))
    }
}

/// A frame made of a payload and the checksum that belongs to it: the
/// payload, then the payload's sum modulo 2^16, most significant byte first.
pub open spec fn with_checksum(payload: Seq<u8>) -> Seq<u8> {
    let sum = byte_sum(payload) % 0x1_0000;
    payload.push((sum / 256) as u8).push((sum % 256) as u8)
}

/// The byte `value` with bit number `bit` inverted.
pub open spec fn flip_bit(value: u8, bit: u8) -> u8 {
    value ^ (1u8 << bit)
}

/// The sum of `n` bytes is at most `255 * n`.
proof fn lemma_byte_sum_bounds(bytes: Seq<u8>)
    ensures
        0 <= byte_sum(bytes) <= 255 * bytes.len(),
    decreases bytes.len(),
{
    if bytes.len() > 0 {
        lemma_byte_sum_bounds(bytes.drop_last());
    }
}

/// Replacing one byte changes the sum by the difference of the two bytes.
proof fn lemma_byte_sum_update(bytes: Seq<u8>, i: int, value: u8)
    requires
        0 <= i < bytes.len(),
    ensures
        byte_sum(bytes.update(i, value)) == byte_sum(bytes) - bytes[i] + value,
    decreases bytes.len(),
{
    let updated = bytes.update(i, value);
    if i == bytes.len() - 1 {
        assert(updated.drop_last() =~= bytes.drop_last());
    } else {
        lemma_byte_sum_update(bytes.drop_last(), i, value);
        assert(updated.drop_last() =~= bytes.drop_last().update(i, value));
    }
}

/// The thirty bytes that the checksum covers sum to less than 2^16, so the
/// checksum of a frame is their plain sum.
pub proof fn law_checksum_is_plain_sum(frame: Seq<u8>)
    requires
        frame.len() >= CHECKSUM_OFFSET,
    ensures
        computed_checksum(frame) == byte_sum(frame.subrange(0, CHECKSUM_OFFSET as int)),
        0 <= computed_checksum(frame) <= 255 * CHECKSUM_OFFSET,
{
    lemma_byte_sum_bounds(frame.subrange(0, CHECKSUM_OFFSET as int));
}

/// Checksum round trip: any thirty bytes followed by their checksum pass the
/// checksum check.
pub proof fn law_checksum_round_trip(payload: Seq<u8>)
    requires
        payload.len() == CHECKSUM_OFFSET,
    ensures
        with_checksum(payload).len() == TOTAL_REGISTERS,
        with_checksum(payload).subrange(0, CHECKSUM_OFFSET as int) == payload,
        checksum_check(with_checksum(payload)) == Ok::<(), Error>(()),
{
    let frame = with_checksum(payload);
    assert(frame.subrange(0, CHECKSUM_OFFSET as int) =~= payload);
    lemma_byte_sum_bounds(payload);
}

/// A single inverted bit is detected: where a frame passes the checksum
/// check, the frame with one bit of one of its first thirty bytes inverted,
/// and the checksum left as it was, fails it with `ChecksumMismatch`.
pub proof fn law_bit_flip_is_detected(frame: Seq<u8>, i: int, bit: u8)
    requires
        checksum_check(frame) == Ok::<(), Error>(()),
        0 <= i < CHECKSUM_OFFSET,
        bit < 8,
    ensures
        checksum_check(frame.update(i, flip_bit(frame[i], bit))) == Err::<(), Error>(
            Error::ChecksumMismatch,
        ),
{
    let old_byte = frame[i];
    let new_byte = flip_bit(old_byte, bit);
    let flipped = frame.update(i, new_byte);
    assert(new_byte != old_byte) by (bit_vector)
        requires
            new_byte == old_byte ^ (1u8 << bit),
            bit < 8,
    ;
    let payload = frame.subrange(0, CHECKSUM_OFFSET as int);
    assert(flipped.subrange(0, CHECKSUM_OFFSET as int) =~= payload.update(i, new_byte));
    lemma_byte_sum_update(payload, i, new_byte);
    law_checksum_is_plain_sum(frame);
    law_checksum_is_plain_sum(flipped);
}

/// The fields of a decoded frame, in order, are the twelve big-endian
/// numbers at the byte offsets 4, 6, .., 26.
pub proof fn law_fields_follow_offsets(bytes: Seq<u8>, k: int)
    requires
        0 <= k < 12,
    ensures
        decoded(bytes).fields().len() == 12,
        decoded(bytes).fields()[k] == be16(bytes[4 + 2 * k], bytes[5 + 2 * k]),
{
}

/// Two bytes read as one number give back the bytes as the number's
/// quotient and remainder by 256.
pub proof fn law_be16_splits(hi: u8, lo: u8)
    ensures
        be16(hi, lo) / 256 == hi,
        be16(hi, lo) % 256 == lo,
{
}

/// A byte sequence that passes the checksum check is one whole frame, so it
/// decodes.
pub proof fn law_checked_frame_decodes(bytes: Seq<u8>)
    requires
        checksum_check(bytes) == Ok::<(), Error>(()),
    ensures
        bytes.len() == TOTAL_REGISTERS,
        decode_check(bytes) == Ok::<Pmsa003iData, Error>(decoded(bytes)),
{
}

/// A byte sequence of at least two bytes whose first two are not the header
/// fails the header check with `InvalidHeader`, whatever follows them.
pub proof fn law_wrong_header_is_rejected(bytes: Seq<u8>)
    requires
        bytes.len() >= 2,
        bytes[0] != EXPECTED_HEADER[0] || bytes[1] != EXPECTED_HEADER[1],
    ensures
        header_check(bytes) == Err::<(), Error>(
            Error::InvalidHeader { observed: [bytes[0], bytes[1]], expected: EXPECTED_HEADER },
        ),
{
}

/// Reads two bytes as one number, most significant byte first.
fn read_be16(hi: u8, lo: u8) -> (value: u16)
    ensures
        value == be16(hi, lo),
{
    (hi as u16) * 256 + (lo as u16)
}

/// Validates the header of a frame: the first two bytes of `header_bytes`
/// must be `EXPECTED_HEADER`. Bytes after them are not looked at.
///
/// Fails with `Error::Empty` where there are fewer than two bytes, and with
/// `Error::InvalidHeader`, which carries the two bytes found, where they
/// differ from the header.
pub fn validate_header(header_bytes: &[u8]) -> (result: Result<(), Error>)
    ensures
        result == header_check(header_bytes@),
{
    if header_bytes.len() < 2 {
        return Err(Error::Empty);
    }
    let expected = EXPECTED_HEADER;
    if header_bytes[0] == expected[0] && header_bytes[1] == expected[1] {
        Ok(())
    } else {
        Err(Error::InvalidHeader { observed: [header_bytes[0], header_bytes[1]], expected })
    }
}

/// Validates the checksum of a frame: the last two bytes must hold the sum
/// of the thirty bytes before them, modulo 2^16.
///
/// Fails with `Error::WrongLength`, before anything is summed, where
/// `checksum_bytes` is not exactly one frame long, and with
/// `Error::ChecksumMismatch` where the sums differ.
pub fn validate_checksum(checksum_bytes: &[u8]) -> (result: Result<(), Error>)
    ensures
        result == checksum_check(checksum_bytes@),
{
    if checksum_bytes.len() != TOTAL_REGISTERS {
        return Err(Error::WrongLength);
    }
    let mut calculated_sum: u16 = 0;
    let mut i: usize = 0;
    while i < CHECKSUM_OFFSET
        invariant
            i <= CHECKSUM_OFFSET,
            checksum_bytes@.len() == TOTAL_REGISTERS,
            calculated_sum as int == byte_sum(checksum_bytes@.subrange(0, i as int)) % 0x1_0000,
        decreases CHECKSUM_OFFSET - i,
    {
        proof {
            let longer = checksum_bytes@.subrange(0, i + 1);
            assert(longer.drop_last() =~= checksum_bytes@.subrange(0, i as int));
            assert(longer.last() == checksum_bytes@[i as int]);
        }
        calculated_sum = calculated_sum.wrapping_add(checksum_bytes[i] as u16);
        i += 1;
    }
    let received_sum = read_be16(checksum_bytes[CHECKSUM_OFFSET], checksum_bytes[CHECKSUM_OFFSET + 1]);
    if calculated_sum == received_sum {
        Ok(())
    } else {
        Err(Error::ChecksumMismatch)
    }
}

/// Decodes the twelve measurement fields of a frame, which lie at the even
/// byte offsets 4 to 26. Any field value is accepted.
///
/// Fails with `Error::BufferTooShort` where `buffer` has fewer than 32 bytes.
pub fn parse_data(buffer: &[u8]) -> (result: Result<Pmsa003iData, Error>)
    ensures
        result == decode_check(buffer@),
{
    if buffer.len() < TOTAL_REGISTERS {
        return Err(Error::BufferTooShort);
    }
    Ok(
        Pmsa003iData {
            pm1_0_standard: read_be16(buffer[4], buffer[5]),
            pm2_5_standard: read_be16(buffer[6], buffer[7]),
            pm10_standard: read_be16(buffer[8], buffer[9]),
            pm1_0_env: read_be16(buffer[10], buffer[11]),
            pm2_5_env: read_be16(buffer[12], buffer[13]),
            pm10_env: read_be16(buffer[14], buffer[15]),
            particles_0_3: read_be16(buffer[16], buffer[17]),
            particles_0_5: read_be16(buffer[18], buffer[19]),
            particles_1_0: read_be16(buffer[20], buffer[21]),
            particles_2_5: read_be16(buffer[22], buffer[23]),
            particles_5_0: read_be16(buffer[24], buffer[25]),
            particles_10: read_be16(buffer[26], buffer[27]),
        },
    )
}

} // verus!
