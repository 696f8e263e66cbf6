use quick_aqi::aqi::Color;
use quick_aqi::cycle::{
    handle_event, measure, step, BusRequest, CycleAction, CycleEvent, CycleState, Measurement,
    FIRST_REGISTER,
};
use quick_aqi::pmsa003i::{Error, Pmsa003iData};

/// A frame with a valid header, the given PM2.5 field and a valid checksum.
fn frame_with_pm2_5(pm2_5: u16) -> [u8; 32] {
    let mut frame = [0u8; 32];
    frame[0] = 0x42;
    frame[1] = 0x4D;
    frame[12..14].copy_from_slice(&pm2_5.to_be_bytes());
    let checksum: u16 = frame[..30].iter().map(|&b| b as u16).sum();
    frame[30..32].copy_from_slice(&checksum.to_be_bytes());
    frame
}

fn reading_with_pm2_5(pm2_5: u16) -> Pmsa003iData {
    Pmsa003iData { pm2_5_env: pm2_5, ..Pmsa003iData::default() }
}

#[test]
fn end_to_end_scenario() {
    let frame = frame_with_pm2_5(0x0029);
    assert_eq!(frame[12..14], [0x00, 0x29]);

    let (state, action) = handle_event(CycleState::Idle, CycleEvent::Trigger);
    assert_eq!(state, CycleState::Reading);
    assert_eq!(
        action,
        CycleAction::ReadSensor(BusRequest { address: 0x12, register: 0x00, length: 32 })
    );

    let (state, action) = handle_event(state, CycleEvent::FrameRead { frame });
    assert_eq!(state, CycleState::Idle);
    assert_eq!(
        action,
        CycleAction::Indicate {
            measurement: Measurement { pm2_5: 41, aqi: 115, color: Color::Orange },
            warning: None,
        }
    );
}

#[test]
fn a_cycle_passes_through_every_stage() {
    let frame = frame_with_pm2_5(41);
    let (state, action) = step(CycleState::Idle, CycleEvent::Trigger);
    assert_eq!(state, CycleState::Reading);
    assert!(matches!(action, CycleAction::ReadSensor(_)));

    let (state, action) = step(state, CycleEvent::FrameRead { frame });
    assert_eq!(state, CycleState::Validating { frame });
    assert_eq!(action, CycleAction::Continue);

    let (state, action) = step(state, CycleEvent::Advance);
    assert_eq!(state, CycleState::Decoding { frame });
    assert_eq!(action, CycleAction::Continue);

    let (state, action) = step(state, CycleEvent::Advance);
    assert_eq!(
        state,
        CycleState::Computing { reading: reading_with_pm2_5(41), decode_failed: false }
    );
    assert_eq!(action, CycleAction::Continue);

    let (state, action) = step(state, CycleEvent::Advance);
    assert_eq!(state, CycleState::Idle);
    assert_eq!(
        action,
        CycleAction::Indicate {
            measurement: Measurement { pm2_5: 41, aqi: 115, color: Color::Orange },
            warning: None,
        }
    );
}

#[test]
fn the_read_is_of_one_frame_at_the_sensor_address() {
    let (_, action) = step(CycleState::Idle, CycleEvent::Trigger);
    assert_eq!(
        action,
        CycleAction::ReadSensor(BusRequest {
            address: 0x12,
            register: FIRST_REGISTER,
            length: 32
        })
    );
    assert_eq!(FIRST_REGISTER, 0x00);
}

#[test]
fn a_failed_read_ends_the_cycle() {
    assert_eq!(
        handle_event(CycleState::Reading, CycleEvent::ReadFailed),
        (CycleState::Idle, CycleAction::Skip(Error::BusError))
    );
    assert_eq!(
        step(CycleState::Reading, CycleEvent::ReadFailed),
        (CycleState::Idle, CycleAction::Skip(Error::BusError))
    );
}

#[test]
fn a_wrong_header_ends_the_cycle_before_the_checksum() {
    // Valid checksum, wrong header.
    let mut frame = frame_with_pm2_5(41);
    frame[0] = 0x43;
    let checksum: u16 = frame[..30].iter().map(|&b| b as u16).sum();
    frame[30..32].copy_from_slice(&checksum.to_be_bytes());
    let expected = CycleAction::Skip(Error::InvalidHeader {
        observed: [0x43, 0x4D],
        expected: [0x42, 0x4D],
    });
    assert_eq!(
        handle_event(CycleState::Reading, CycleEvent::FrameRead { frame }),
        (CycleState::Idle, expected)
    );
    // Wrong checksum as well: the header is still what is reported.
    frame[31] ^= 1;
    assert_eq!(
        handle_event(CycleState::Reading, CycleEvent::FrameRead { frame }),
        (CycleState::Idle, expected)
    );
    assert_eq!(
        step(CycleState::Validating { frame }, CycleEvent::Advance),
        (CycleState::Idle, expected)
    );
}

#[test]
fn a_wrong_checksum_ends_the_cycle() {
    let mut frame = frame_with_pm2_5(41);
    frame[13] = 0x2A;
    assert_eq!(
        handle_event(CycleState::Reading, CycleEvent::FrameRead { frame }),
        (CycleState::Idle, CycleAction::Skip(Error::ChecksumMismatch))
    );
    assert_eq!(
        step(CycleState::Validating { frame }, CycleEvent::Advance),
        (CycleState::Idle, CycleAction::Skip(Error::ChecksumMismatch))
    );
}

#[test]
fn a_failed_decode_is_reported_with_the_zero_reading() {
    let state = CycleState::Computing { reading: Pmsa003iData::default(), decode_failed: true };
    assert_eq!(
        step(state, CycleEvent::Advance),
        (
            CycleState::Idle,
            CycleAction::Indicate {
                measurement: Measurement { pm2_5: 0, aqi: 0, color: Color::Green },
                warning: Some(Error::DecodeFailed),
            }
        )
    );
}

#[test]
fn decoding_in_a_cycle_does_not_ask_for_a_valid_frame() {
    let mut frame = [0u8; 32];
    frame[13] = 7;
    assert_eq!(
        handle_event(CycleState::Decoding { frame }, CycleEvent::Advance),
        (
            CycleState::Idle,
            CycleAction::Indicate {
                measurement: Measurement { pm2_5: 7, aqi: 39, color: Color::Green },
                warning: None,
            }
        )
    );
}

#[test]
fn events_that_do_not_fit_the_state_are_ignored() {
    let frame = frame_with_pm2_5(41);
    let cases = [
        (CycleState::Idle, CycleEvent::FrameRead { frame }),
        (CycleState::Idle, CycleEvent::ReadFailed),
        (CycleState::Idle, CycleEvent::Advance),
        (CycleState::Reading, CycleEvent::Trigger),
        (CycleState::Reading, CycleEvent::Advance),
        (CycleState::Validating { frame }, CycleEvent::Trigger),
        (CycleState::Validating { frame }, CycleEvent::ReadFailed),
        (CycleState::Decoding { frame }, CycleEvent::FrameRead { frame }),
        (
            CycleState::Computing { reading: reading_with_pm2_5(1), decode_failed: false },
            CycleEvent::Trigger,
        ),
    ];
    for (state, event) in cases {
        assert_eq!(step(state, event), (state, CycleAction::Ignore));
        assert_eq!(handle_event(state, event), (state, CycleAction::Ignore));
    }
}

#[test]
fn every_trigger_gives_one_read_and_one_outcome() {
    let mut state = CycleState::Idle;
    let mut reads = 0;
    let mut outcomes = Vec::new();
    for pm2_5 in [5u16, 41, 600] {
        let (next, action) = handle_event(state, CycleEvent::Trigger);
        if let CycleAction::ReadSensor(_) = action {
            reads += 1;
        }
        let (next, action) =
            handle_event(next, CycleEvent::FrameRead { frame: frame_with_pm2_5(pm2_5) });
        outcomes.push(action);
        state = next;
        assert_eq!(state, CycleState::Idle);
    }
    assert_eq!(reads, 3);
    assert_eq!(
        outcomes,
        vec![
            CycleAction::Indicate {
                measurement: Measurement { pm2_5: 5, aqi: 28, color: Color::Green },
                warning: None,
            },
            CycleAction::Indicate {
                measurement: Measurement { pm2_5: 41, aqi: 115, color: Color::Orange },
                warning: None,
            },
            CycleAction::Indicate {
                measurement: Measurement { pm2_5: 600, aqi: 500, color: Color::DarkPurple },
                warning: None,
            },
        ]
    );
}

#[test]
fn a_measurement_takes_whole_micrograms() {
    assert_eq!(
        measure(&reading_with_pm2_5(0)),
        Measurement { pm2_5: 0, aqi: 0, color: Color::Green }
    );
    assert_eq!(
        measure(&reading_with_pm2_5(9)),
        Measurement { pm2_5: 9, aqi: 50, color: Color::Green }
    );
    assert_eq!(
        measure(&reading_with_pm2_5(10)),
        Measurement { pm2_5: 10, aqi: 53, color: Color::Yellow }
    );
    assert_eq!(
        measure(&reading_with_pm2_5(33)),
        Measurement { pm2_5: 33, aqi: 96, color: Color::Yellow }
    );
    assert_eq!(
        measure(&reading_with_pm2_5(500)),
        Measurement { pm2_5: 500, aqi: 500, color: Color::DarkPurple }
    );
    assert_eq!(
        measure(&reading_with_pm2_5(u16::MAX)),
        Measurement { pm2_5: u16::MAX, aqi: 500, color: Color::DarkPurple }
    );
}

#[test]
fn a_measurement_reads_only_the_pm2_5_field() {
    let reading = Pmsa003iData {
        pm1_0_standard: 900,
        pm2_5_standard: 900,
        pm10_standard: 900,
        pm1_0_env: 900,
        pm2_5_env: 7,
        pm10_env: 900,
        particles_0_3: 900,
        particles_0_5: 900,
        particles_1_0: 900,
        particles_2_5: 900,
        particles_5_0: 900,
        particles_10: 900,
    };
    assert_eq!(measure(&reading), Measurement { pm2_5: 7, aqi: 39, color: Color::Green });
}
