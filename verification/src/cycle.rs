//! The acquisition cycle: one sensor read and one indication per trigger.
//!
//! A cycle is a chain of five states,
//!
//! ```text
//! Idle -> Reading -> Validating -> Decoding -> Computing -> Idle
//! ```
//!
//! that leaves early for `Idle` where the read or the validation fails. The
//! bus transaction is the only work that the machine does not do itself: it
//! asks for it with `CycleAction::ReadSensor` and is told how it ended by
//! `CycleEvent::FrameRead` or `CycleEvent::ReadFailed`. `step` makes one
//! transition; `handle_event` feeds one outside event and then runs the
//! stages that follow it to their end.

use vstd::prelude::*;
use crate::aqi::{
    aqi_of, calculate_aqi, color_of, get_aqi_color, law_aqi_in_range, Color, AQI_MAX,
};
use crate::pmsa003i::{
    checksum_check, computed_checksum, decode_check, decoded, header_check, parse_data,
    received_checksum, validate_checksum, validate_header, Error, Pmsa003iData, EXPECTED_HEADER,
    SENSOR_I2C_ADDR, TOTAL_REGISTERS,
};

verus! {

/// First register of the frame.
pub const FIRST_REGISTER: u8 = 0x00;

/// One bus transaction: write the register number to the device at
/// `address`, then read `length` bytes from it.
#[derive(Debug, Clone, Copy, PartialEq, Eq)]
pub struct BusRequest {
    /// Bus address of the device.
    pub address: u8,
    /// Register at which the read starts.
    pub register: u8,
    /// Number of bytes to read.
    pub length: usize,
}

/// What one completed cycle measured.
#[derive(Debug, Clone, Copy, PartialEq, Eq)]
pub struct Measurement {
    /// PM2.5 concentration in µg/m³ under atmospheric conditions.
    pub pm2_5: u16,
    /// The AQI of that concentration.
    pub aqi: u16,
    /// The colour of that AQI.
    pub color: Color,
}

/// Where a cycle stands.
#[derive(Debug, Clone, Copy, PartialEq, Eq)]
pub enum CycleState {
    /// No cycle is under way.
    Idle,
    /// The bus transaction has been asked for and has not ended.
    Reading,
    /// A frame has been read and is to be validated.
    Validating {
        /// The frame as read.
        frame: [u8; 32],
    },
    /// The frame is valid and is to be decoded.
    Decoding {
        /// The validated frame.
        frame: [u8; 32],
    },
    /// The reading is to be turned into an AQI and a colour.
    Computing {
        /// The decoded reading, or the all-zero reading in its place.
        reading: Pmsa003iData,
        /// Whether decoding failed and `reading` is the all-zero reading.
        decode_failed: bool,
    },
}

/// What can happen to a cycle.
#[derive(Debug, Clone, Copy, PartialEq, Eq)]
pub enum CycleEvent {
    /// The trigger went high.
    Trigger,
    /// The bus transaction ended with a frame.
    FrameRead {
        /// The 32 bytes read.
        frame: [u8; 32],
    },
    /// The bus transaction ended with an error.
    ReadFailed,
    /// The stage at hand is to be carried out.
    Advance,
}

/// What the caller is to do after a transition.
#[derive(Debug, Clone, Copy, PartialEq, Eq)]
pub enum CycleAction {
    /// The event does not apply in this state: nothing changed and there is
    /// nothing to do.
    Ignore,
    /// Carry out the bus transaction and report how it ended.
    ReadSensor(BusRequest),
    /// The stage is done: send `CycleEvent::Advance` for the next one.
    Continue,
    /// The cycle is complete: show the measurement.
    Indicate {
        /// The measurement to show.
        measurement: Measurement,
        /// `Some(Error::DecodeFailed)` where the measurement is that of
        /// the all-zero reading because decoding failed.
        warning: Option<Error>,
    },
    /// The cycle was given up for the reason given: leave the indication as
    /// it is.
    Skip(Error),
}

/// The bus transaction that fetches one frame.
pub open spec fn frame_request() -> BusRequest {
    BusRequest { address: SENSOR_I2C_ADDR, register: FIRST_REGISTER, length: TOTAL_REGISTERS }
}

/// The measurement that a reading gives: its PM2.5 concentration under
/// atmospheric conditions, taken in tenths, through the AQI table and the
/// colour ranges.
pub open spec fn measurement_of(reading: Pmsa003iData) -> Measurement {
    let aqi = aqi_of(10 * reading.pm2_5_env);
    Measurement { pm2_5: reading.pm2_5_env, aqi: aqi as u16, color: color_of(aqi) }
}

/// The transition function: the state and the action that follow from a
/// state and an event.
pub open spec fn next(state: CycleState, event: CycleEvent) -> (CycleState, CycleAction) {
    match (state, event) {
        (CycleState::Idle, CycleEvent::Trigger) => (
            CycleState::Reading,
            CycleAction::ReadSensor(frame_request()),
        ),
        (CycleState::Reading, CycleEvent::FrameRead { frame }) => (
            CycleState::Validating { frame },
            CycleAction::Continue,
        ),
        (CycleState::Reading, CycleEvent::ReadFailed) => (
            CycleState::Idle,
            CycleAction::Skip(Error::BusError),
        ),
        (CycleState::Validating { frame }, CycleEvent::Advance) => match header_check(frame@) {
            Err(e) => (CycleState::Idle, CycleAction::Skip(e)),
            Ok(_) => match checksum_check(frame@) {
                Err(e) => (CycleState::Idle, CycleAction::Skip(e)),
                Ok(_) => (CycleState::Decoding { frame }, CycleAction::Continue),
            },
        },
        (CycleState::Decoding { frame }, CycleEvent::Advance) => match decode_check(frame@) {
            Ok(reading) => (
                CycleState::Computing { reading, decode_failed: false },
                CycleAction::Continue,
            ),
            Err(_) => (
                CycleState::Computing { reading: Pmsa003iData::zero(), decode_failed: true },
                CycleAction::Continue,
            ),
        },
        (CycleState::Computing { reading, decode_failed }, CycleEvent::Advance) => (
            CycleState::Idle,
            CycleAction::Indicate {
                measurement: measurement_of(reading),
                warning: if decode_failed {
                    Some(Error::DecodeFailed)
                } else {
                    None
                },
            },
        ),
        _ => (state, CycleAction::Ignore),
    }
}

/// The number of transitions that a cycle in this state has before it at
/// most.
pub open spec fn stages_left(state: CycleState) -> nat {
    match state {
        CycleState::Idle => 0,
        CycleState::Computing { .. } => 1,
        CycleState::Decoding { .. } => 2,
        CycleState::Validating { .. } => 3,
        CycleState::Reading => 4,
    }
}

/// Where the machine comes to rest after an event: the transition for the
/// event, followed by `Advance` for as long as the action is `Continue`.
pub open spec fn settled(state: CycleState, event: CycleEvent) -> (CycleState, CycleAction)
    decreases stages_left(state),
{
    let (after, action) = next(state, event);
    if action is Continue {
        settled(after, CycleEvent::Advance)
    } else {
        (after, action)
    }
}

/// What a frame that was read leads to: `Skip` with the error of the header
/// check, else `Skip` with the error of the checksum check, else the
/// measurement of the decoded frame.
pub open spec fn frame_outcome(frame: Seq<u8>) -> CycleAction {
    match header_check(frame) {
        Err(e) => CycleAction::Skip(e),
        Ok(_) => match checksum_check(frame) {
            Err(e) => CycleAction::Skip(e),
            Ok(_) => match decode_check(frame) {
                Ok(reading) => CycleAction::Indicate {
                    measurement: measurement_of(reading),
                    warning: None,
                },
                Err(_) => CycleAction::Indicate {
                    measurement: measurement_of(Pmsa003iData::zero()),
                    warning: Some(Error::DecodeFailed),
                },
            },
        },
    }
}

/// A cycle starts only in `Idle` and only on a trigger: no other transition
/// enters `Reading` or asks for a bus transaction, and the transaction asked
/// for is always the read of one whole frame at the sensor's address.
pub proof fn law_reading_starts_from_idle(state: CycleState, event: CycleEvent)
    ensures
        next(state, event).1 is ReadSensor <==> state is Idle && event is Trigger,
        next(state, event).1 is ReadSensor ==> next(state, event) == (
            CycleState::Reading,
            CycleAction::ReadSensor(frame_request()),
        ),
        next(state, event).0 is Reading ==> state is Reading || (state is Idle && event is Trigger),
        state is Reading && event is Trigger ==> next(state, event) == (state, CycleAction::Ignore),
{
}

/// Every transition either leaves the state as it is, and then asks for
/// nothing, or moves the cycle exactly one stage along the chain, or ends it
/// in `Idle`.
pub proof fn law_transitions_follow_the_chain(state: CycleState, event: CycleEvent)
    ensures
        ({
            let (after, action) = next(state, event);
            ||| after == state && action is Ignore
            ||| after is Idle && !(state is Idle) && (action is Skip || action is Indicate)
            ||| stages_left(after) + 1 == stages_left(state) && action is Continue
            ||| state is Idle && after is Reading && action is ReadSensor
        }),
{
}

/// Once a bus transaction is under way the cycle always returns to `Idle`:
/// when the transaction fails, with `Skip(BusError)`; when it delivers a
/// frame, with the outcome of that frame.
pub proof fn law_cycle_returns_to_idle(frame: [u8; 32])
    ensures
        settled(CycleState::Idle, CycleEvent::Trigger) == (
            CycleState::Reading,
            CycleAction::ReadSensor(frame_request()),
        ),
        settled(CycleState::Reading, CycleEvent::ReadFailed) == (
            CycleState::Idle,
            CycleAction::Skip(Error::BusError),
        ),
        settled(CycleState::Reading, CycleEvent::FrameRead { frame }) == (
            CycleState::Idle,
            frame_outcome(frame@),
        ),
{
    reveal_with_fuel(settled, 5);
}

/// The outcome of a whole frame is one of three: `Skip` with
/// `InvalidHeader` where the first two bytes are not the header, whatever
/// the checksum; else `Skip` with `ChecksumMismatch` where the checksum is
/// wrong; else the measurement of the decoded frame, with no warning.
pub proof fn law_frame_outcome(frame: Seq<u8>)
    requires
        frame.len() == TOTAL_REGISTERS,
    ensures
        frame_outcome(frame) == (if frame[0] != EXPECTED_HEADER[0] || frame[1]
            != EXPECTED_HEADER[1] {
            CycleAction::Skip(
                Error::InvalidHeader { observed: [frame[0], frame[1]], expected: EXPECTED_HEADER },
            )
        } else if computed_checksum(frame) != received_checksum(frame) {
            CycleAction::Skip(Error::ChecksumMismatch)
        } else {
            CycleAction::Indicate { measurement: measurement_of(decoded(frame)), warning: None }
        }),
{
}

/// A measurement holds an AQI of at most `AQI_MAX`, and its colour is the
/// colour of that AQI.
pub proof fn law_measurement_is_consistent(reading: Pmsa003iData)
    ensures
        measurement_of(reading).pm2_5 == reading.pm2_5_env,
        measurement_of(reading).aqi == aqi_of(10 * reading.pm2_5_env),
        measurement_of(reading).aqi <= AQI_MAX,
        measurement_of(reading).color == color_of(measurement_of(reading).aqi as int),
{
    law_aqi_in_range(10 * reading.pm2_5_env);
}

/// Turns a reading into a measurement.
pub fn measure(reading: &Pmsa003iData) -> (measurement: Measurement)
    ensures
        measurement == measurement_of(*reading),
{
    let pm2_5 = reading.pm2_5_env;
    proof {
        law_aqi_in_range(10 * pm2_5);
    }
    let aqi = calculate_aqi(10 * (pm2_5 as u32));
    Measurement { pm2_5, aqi, color: get_aqi_color(aqi) }
}

/// Makes one transition of the cycle.
pub fn step(state: CycleState, event: CycleEvent) -> (result: (CycleState, CycleAction))
    ensures
        result == next(state, event),
{
    match (state, event) {
        (CycleState::Idle, CycleEvent::Trigger) => {
            let request = BusRequest {
                address: SENSOR_I2C_ADDR,
                register: FIRST_REGISTER,
                length: TOTAL_REGISTERS,
            };
            (CycleState::Reading, CycleAction::ReadSensor(request))
        },
        (CycleState::Reading, CycleEvent::FrameRead { frame }) => (
            CycleState::Validating { frame },
            CycleAction::Continue,
        ),
        (CycleState::Reading, CycleEvent::ReadFailed) => (
            CycleState::Idle,
            CycleAction::Skip(Error::BusError),
        ),
        (CycleState::Validating { frame }, CycleEvent::Advance) => {
            match validate_header(&frame) {
                Err(e) => (CycleState::Idle, CycleAction::Skip(e)),
                Ok(_) => match validate_checksum(&frame) {
                    Err(e) => (CycleState::Idle, CycleAction::Skip(e)),
                    Ok(_) => (CycleState::Decoding { frame }, CycleAction::Continue),
                },
            }
        },
        (CycleState::Decoding { frame }, CycleEvent::Advance) => {
            match parse_data(&frame) {
                Ok(reading) => (
                    CycleState::Computing { reading, decode_failed: false },
                    CycleAction::Continue,
                ),
                Err(_) => (
                    CycleState::Computing { reading: Pmsa003iData::default(), decode_failed: true },
                    CycleAction::Continue,
                ),
            }
        },
        (CycleState::Computing { reading, decode_failed }, CycleEvent::Advance) => {
            let warning = if decode_failed {
                Some(Error::DecodeFailed)
            } else {
                None
            };
            (CycleState::Idle, CycleAction::Indicate { measurement: measure(&reading), warning })
        },
        _ => (state, CycleAction::Ignore),
    }
}

/// Handles one event from outside: makes the transition for it and then
/// every transition that follows without outside work.
///
/// For `Trigger` in `Idle` the result is `Reading` and the request for the
/// bus transaction; for the end of that transaction it is `Idle` and either
/// the measurement to show or the reason for which the cycle was given up.
pub fn handle_event(state: CycleState, event: CycleEvent) -> (result: (CycleState, CycleAction))
    ensures
        result == settled(state, event),
        !(result.1 is Continue),
{
    let (mut current, mut action) = step(state, event);
    proof {
        lemma_continue_makes_progress(state, event);
    }
    let ghost mut before = state;
    let ghost mut applied = event;
    while matches!(action, CycleAction::Continue)
        invariant
            (current, action) == next(before, applied),
            settled(state, event) == settled(before, applied),
            action is Continue ==> stages_left(current) < stages_left(before),
        decreases stages_left(before),
    {
        proof {
            before = current;
            applied = CycleEvent::Advance;
            lemma_continue_makes_progress(before, applied);
        }
        let (after, then) = step(current, CycleEvent::Advance);
        current = after;
        action = then;
    }
    (current, action)
}

/// A transition that ends in `Continue` moves the cycle one stage on.
proof fn lemma_continue_makes_progress(state: CycleState, event: CycleEvent)
    ensures
        next(state, event).1 is Continue ==> stages_left(next(state, event).0) + 1 == stages_left(
            state,
        ),
{
}

} // verus!
