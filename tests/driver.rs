use vl53l1x::bring_up::{BringUp, BringUpStage};
use vl53l1x::config::default_config_bytes;
use vl53l1x::device::{DataReadyStep, Vl53l1x};
use vl53l1x::distance_mode::{write_distance_mode, DistanceMode, ModeTiming};
use vl53l1x::error::Vl53l1xError;
use vl53l1x::registers::{addr_to_bytes, i2c_read_u8, i2c_read_u16, i2c_write_u16, i2c_write_u8, BusRequest, Vl53l1xReg};
use vl53l1x::roi::{get_user_roi, set_center, set_user_roi, set_zone_size, spad_center, zone_dims};
use vl53l1x::sample::{correct_sample, Vl53l1xCorrectedSample};

/// Runs the power-on sequence against canned answers, recording each request.
fn run_bring_up(
    range_offset: u16,
    busy_polls: usize,
    voltage: [u8; 2],
) -> (Result<Vl53l1x, Vl53l1xError>, Vec<BusRequest>) {
    let mut b = BringUp::new(range_offset);
    let mut log = Vec::new();
    let mut polls = 0usize;
    while !b.is_ready() {
        let req = b.request();
        let reply: Vec<u8> = match b.stage() {
            BringUpStage::IdentifyModel => vec![0xea, 0xcc],
            BringUpStage::PollFirmware(_) => {
                polls += 1;
                if polls <= busy_polls { vec![0x00, 0x01] } else { vec![0x00, 0x00] }
            }
            BringUpStage::ReadVoltage => voltage.to_vec(),
            BringUpStage::LoadTrim(i) => vec![0x80 + i as u8],
            _ => vec![],
        };
        assert_eq!(reply.len(), b.reply_len());
        log.push(req);
        if let Err(e) = b.advance(&reply) {
            return (Err(e), log);
        }
    }
    (Ok(b.finish()), log)
}

#[test]
fn register_frames_put_address_high_byte_first() {
    assert_eq!(addr_to_bytes(0x010f), vec![0x01, 0x0f]);
    assert_eq!(i2c_write_u8(Vl53l1xReg::RangeConfigVcselPeriodA.addr(), 0x07), vec![0x00, 0x60, 0x07]);
    assert_eq!(i2c_write_u16(0x002e, 0xabcd), vec![0x00, 0x2e, 0xab, 0xcd]);
    assert_eq!(Vl53l1xReg::IdentificationModelId.addr(), 0x010f);
    assert_eq!(Vl53l1xReg::SdConfigInitialPhaseSd1.addr(), 0x007b);
}

#[test]
fn reads_decode_big_endian() {
    assert_eq!(i2c_read_u16(&[0x12, 0x34]), 0x1234);
    assert_eq!(i2c_read_u8(&[0x56]), 0x56);
    assert_eq!(Vl53l1x::read_distance(&[0x01, 0xf4]), 500);
    assert_eq!(Vl53l1x::read_signal_rate(&[0x13, 0x88]), 5000);
}

#[test]
fn sample_classification() {
    assert_eq!(correct_sample(0, 20001, 0), Vl53l1xCorrectedSample::TooClose);
    assert_eq!(correct_sample(500, 50, 0), Vl53l1xCorrectedSample::TooFar);
    assert_eq!(correct_sample(500, 5000, 130), Vl53l1xCorrectedSample::Distance(630));
}

#[test]
fn sample_classification_edges() {
    // Too-close wins over too-far only when both hold; a zero distance with
    // a weak signal is too far.
    assert_eq!(correct_sample(0, 20000, 5), Vl53l1xCorrectedSample::Distance(5));
    assert_eq!(correct_sample(0, 50, 0), Vl53l1xCorrectedSample::TooFar);
    assert_eq!(correct_sample(7, 100, 0), Vl53l1xCorrectedSample::Distance(7));
    assert_eq!(correct_sample(7, 99, 0), Vl53l1xCorrectedSample::TooFar);
    assert_eq!(correct_sample(65500, 5000, 130), Vl53l1xCorrectedSample::Distance(u16::MAX));
}

#[test]
fn read_sample_uses_one_read() {
    let (vl, _) = run_bring_up(130, 0, [0, 0]);
    let vl = vl.unwrap();
    match Vl53l1x::sample_request() {
        BusRequest::Read { prefix, len } => {
            assert_eq!(prefix, vec![0x00, 0x96]);
            assert_eq!(len, 6);
        }
        other => panic!("unexpected request {:?}", other),
    }
    let s = vl.read_sample(&[0x01, 0xf4, 0x13, 0x88, 0xff, 0xff]);
    assert_eq!(s.distance, 500);
    assert_eq!(s.signal_rate, 5000);
    assert_eq!(s.corrected, Vl53l1xCorrectedSample::Distance(630));
    assert_eq!(vl.get_range_offset(), 130);
}

#[test]
fn distance_mode_table() {
    assert_eq!(
        DistanceMode::Short.timing(),
        ModeTiming { period_a: 0x07, period_b: 0x05, phase_high: 0x38, phase_init: 6 }
    );
    let long = ModeTiming { period_a: 0x0f, period_b: 0x0d, phase_high: 0xb8, phase_init: 14 };
    assert_eq!(DistanceMode::Mid.timing(), long);
    assert_eq!(DistanceMode::Long.timing(), long);
    // Mid and Long cannot be told apart on the bus.
    assert_eq!(write_distance_mode(DistanceMode::Mid), write_distance_mode(DistanceMode::Long));
}

#[test]
fn distance_mode_frames() {
    let frames = write_distance_mode(DistanceMode::Short);
    assert_eq!(
        frames,
        vec![
            vec![0x00, 0x60, 0x07],
            vec![0x00, 0x63, 0x05],
            vec![0x00, 0x69, 0x38],
            vec![0x00, 0x78, 0x07],
            vec![0x00, 0x79, 0x05],
            vec![0x00, 0x7a, 6],
            vec![0x00, 0x7b, 6],
        ]
    );
}

#[test]
fn start_measurement_payload() {
    let (vl, _) = run_bring_up(0, 0, [0, 0]);
    let payload = vl.unwrap().start_measurement();
    assert_eq!(payload.len(), 137);
    assert_eq!(&payload[..2], &[0x00, 0x01]);
    assert_eq!(payload[2], 0x80);
    assert_eq!(payload[2 + 135 - 1], 0x40);
}

#[test]
fn data_ready_flag_is_inverted() {
    assert!(!Vl53l1x::check_data_ready(0x03));
    assert!(Vl53l1x::check_data_ready(0x02));
    assert!(Vl53l1x::check_data_ready(0x00));
}

#[test]
fn bring_up_order_and_trim_load() {
    let (vl, log) = run_bring_up(0, 2, [0x12, 0x02]);
    let vl = vl.unwrap();
    // identify, reset low, pause, reset high, pause, 3 polls with 2 pauses,
    // voltage read and write, 36 trim reads
    assert_eq!(log.len(), 1 + 4 + 5 + 2 + 36);
    match &log[0] {
        BusRequest::Read { prefix, len } => assert_eq!((prefix.clone(), *len), (vec![0x01, 0x0f], 2)),
        other => panic!("unexpected request {:?}", other),
    }
    match &log[1] {
        BusRequest::Write(b) => assert_eq!(b, &vec![0x00, 0x00, 0x00]),
        other => panic!("unexpected request {:?}", other),
    }
    assert!(matches!(log[2], BusRequest::Delay(100)));
    match &log[3] {
        BusRequest::Write(b) => assert_eq!(b, &vec![0x00, 0x00, 0x01]),
        other => panic!("unexpected request {:?}", other),
    }
    assert!(matches!(log[4], BusRequest::Delay(200)));
    match &log[5] {
        BusRequest::Read { prefix, len } => assert_eq!((prefix.clone(), *len), (vec![0x00, 0xe5], 2)),
        other => panic!("unexpected request {:?}", other),
    }
    assert!(matches!(log[6], BusRequest::Delay(10_000)));
    match &log[11] {
        BusRequest::Write(b) => assert_eq!(b, &vec![0x00, 0x2e, 0x12, 0x03]),
        other => panic!("unexpected request {:?}", other),
    }
    for i in 0..36 {
        match &log[12 + i] {
            BusRequest::Read { prefix, len } => {
                assert_eq!((prefix.clone(), *len), (vec![0x00, (i + 1) as u8], 1))
            }
            other => panic!("unexpected request {:?}", other),
        }
    }
    let payload = vl.start_measurement();
    let defaults = default_config_bytes();
    for i in 0..36 {
        assert_eq!(payload[2 + i], 0x80 + i as u8);
    }
    assert_eq!(&payload[2 + 36..], &defaults[36..]);
}

#[test]
fn bring_up_rejects_other_model() {
    let mut b = BringUp::new(0);
    assert_eq!(b.advance(&[0x12, 0x34]), Err(Vl53l1xError::UnexpectedDevice(0x1234)));
}

#[test]
fn bring_up_times_out_on_busy_firmware() {
    let (vl, log) = run_bring_up(0, usize::MAX, [0, 0]);
    assert_eq!(vl.err(), Some(Vl53l1xError::FirmwareTimeout));
    // 101 polls with 100 pauses between them
    assert_eq!(log.len(), 1 + 4 + 101 + 100);
}

#[test]
fn bring_up_survives_hundred_busy_polls() {
    let (vl, _) = run_bring_up(0, 100, [0, 0]);
    assert!(vl.is_ok());
}

#[test]
fn roi_rejects_small_rectangles() {
    assert_eq!(set_user_roi((0, 0, 2, 0)), Err(Vl53l1xError::InvalidRoi));
    assert_eq!(set_user_roi((0, 0, 2, 5)), Err(Vl53l1xError::InvalidRoi));
    assert_eq!(set_user_roi((0, 0, 5, 2)), Err(Vl53l1xError::InvalidRoi));
    assert_eq!(set_user_roi((5, 0, 0, 5)), Err(Vl53l1xError::InvalidRoi));
    assert_eq!(set_user_roi((0, 0, 16, 15)), Err(Vl53l1xError::InvalidRoi));
}

#[test]
fn roi_encoding_values() {
    assert_eq!(spad_center(8, 8), 199);
    assert_eq!(spad_center(0, 0), 120);
    assert_eq!(spad_center(15, 15), 248);
    assert_eq!(spad_center(0, 7), 127);
    assert_eq!(zone_dims(15, 15), 0xff);
    assert_eq!(zone_dims(3, 4), 0x43);
    assert_eq!(set_center(8, 8), vec![0x00, 0x7f, 199]);
    assert_eq!(set_zone_size(3, 4), vec![0x00, 0x80, 0x43]);
    assert_eq!(
        set_user_roi((0, 0, 15, 15)),
        Ok(vec![vec![0x00, 0x7f, 199], vec![0x00, 0x80, 0xff]])
    );
}

#[test]
fn roi_round_trip_all_valid() {
    for x0 in 0u8..16 {
        for y0 in 0u8..16 {
            for x1 in x0 + 3..16 {
                for y1 in y0 + 3..16 {
                    let frames = set_user_roi((x0, y0, x1, y1)).unwrap();
                    let back = get_user_roi(frames[0][2], frames[1][2]);
                    assert_eq!(back, (x0, y0, x1, y1));
                }
            }
        }
    }
}

#[test]
fn roi_decodes_odd_sizes() {
    assert_eq!(get_user_roi(199, 0x43), (6, 6, 9, 10));
    // a size larger than twice the centre stops at the grid's edge
    assert_eq!(get_user_roi(120, 0xff), (0, 0, 7, 7));
}

#[test]
fn roi_frames_for_chosen_rectangles() {
    assert_eq!(
        set_user_roi((5, 2, 12, 8)),
        Ok(vec![vec![0x00, 0x7f, 0x35], vec![0x00, 0x80, 0x67]])
    );
    assert_eq!(
        set_user_roi((0, 0, 3, 3)),
        Ok(vec![vec![0x00, 0x7f, 0x6a], vec![0x00, 0x80, 0x33]])
    );
    assert_eq!(
        set_user_roi((0, 0, 15, 15)),
        Ok(vec![vec![0x00, 0x7f, 0xc7], vec![0x00, 0x80, 0xff]])
    );
}

#[test]
fn bounded_data_ready_wait() {
    assert_eq!(Vl53l1x::wait_data_ready_step(0x02, 0, 10), DataReadyStep::Ready);
    assert_eq!(Vl53l1x::wait_data_ready_step(0x02, 10, 10), DataReadyStep::Ready);
    assert_eq!(Vl53l1x::wait_data_ready_step(0x03, 9, 10), DataReadyStep::PollAgain);
    assert_eq!(Vl53l1x::wait_data_ready_step(0x03, 10, 10), DataReadyStep::TimedOut);
    assert_eq!(Vl53l1x::wait_data_ready_step(0x03, 0, 0), DataReadyStep::TimedOut);
}
