use air_monitor::frame::{parse_sensor, PmsMeasurement};
use air_monitor::measurement::{mean_of, Averager, Measurement};
use air_monitor::scanner::{scan_frame, FrameRead, FrameScanner};

fn frame_with(values: [u16; 6]) -> [u8; 32] {
    let mut b = [0u8; 32];
    b[0] = 0x42;
    b[1] = 0x4D;
    b[2] = 0x00;
    b[3] = 0x1C;
    for (k, v) in values.iter().enumerate() {
        b[4 + 2 * k] = (v >> 8) as u8;
        b[5 + 2 * k] = (v & 0xff) as u8;
    }
    b[20] = 0x12;
    b[29] = 0x97;
    let sum: u16 = b[..30].iter().map(|&x| x as u16).sum();
    b[30] = (sum >> 8) as u8;
    b[31] = (sum & 0xff) as u8;
    b
}

#[test]
fn parse_valid_frame_decodes_all_fields() {
    let b = frame_with([0x0102, 0x0304, 0x0506, 0x0a0b, 0x0c0d, 0x0e0f]);
    let p = parse_sensor(&b).expect("valid frame");
    assert_eq!(
        p,
        PmsMeasurement {
            pm1_0_std: 0x0102,
            pm2_5_std: 0x0304,
            pm10_std: 0x0506,
            pm1_0_atm: 0x0a0b,
            pm2_5_atm: 0x0c0d,
            pm10_atm: 0x0e0f,
        }
    );
}

#[test]
fn parse_atmospheric_fields_are_big_endian() {
    let b = frame_with([1, 2, 3, 0x1234, 0xff00, 0x00ff]);
    let p = parse_sensor(&b).unwrap();
    assert_eq!(p.pm1_0_atm, 0x1234);
    assert_eq!(p.pm2_5_atm, 0xff00);
    assert_eq!(p.pm10_atm, 0x00ff);
}

#[test]
fn parse_rejects_bad_checksum() {
    let mut b = frame_with([10, 20, 30, 40, 50, 60]);
    b[31] = b[31].wrapping_add(1);
    assert!(parse_sensor(&b).is_none());
    let mut c = frame_with([10, 20, 30, 40, 50, 60]);
    c[12] ^= 0x01;
    assert!(parse_sensor(&c).is_none());
}

#[test]
fn parse_rejects_checksum_with_swapped_bytes() {
    let mut b = frame_with([500, 600, 700, 800, 900, 1000]);
    let (hi, lo) = (b[30], b[31]);
    b[30] = lo;
    b[31] = hi;
    assert_ne!(hi, lo);
    assert!(parse_sensor(&b).is_none());
}

#[test]
fn parse_all_zero_frame_has_matching_checksum() {
    let b = [0u8; 32];
    assert_eq!(parse_sensor(&b), Some(PmsMeasurement::default()));
}

#[test]
fn parse_largest_sum_checksum() {
    let mut b = [0xffu8; 32];
    let sum: u16 = 30 * 255;
    b[30] = (sum >> 8) as u8;
    b[31] = (sum & 0xff) as u8;
    let p = parse_sensor(&b).unwrap();
    assert_eq!(p.pm10_atm, 0xffff);
}

#[test]
fn measurement_from_keeps_atmospheric_values() {
    let b = frame_with([1, 2, 3, 44, 55, 66]);
    let m = Measurement::from(parse_sensor(&b).unwrap());
    assert_eq!(m, Measurement { pm1_0_avg: 44, pm2_5_avg: 55 });
}

#[test]
fn mean_truncates_per_field() {
    let r = vec![
        Measurement { pm1_0_avg: 10, pm2_5_avg: 3 },
        Measurement { pm1_0_avg: 11, pm2_5_avg: 4 },
        Measurement { pm1_0_avg: 12, pm2_5_avg: 4 },
    ];
    assert_eq!(mean_of(&r), Some(Measurement { pm1_0_avg: 11, pm2_5_avg: 3 }));
}

#[test]
fn mean_of_empty_window_is_none() {
    assert_eq!(mean_of(&Vec::new()), None);
    assert_eq!(Averager::new().finish(), None);
}

#[test]
fn mean_of_one_reading_is_that_reading() {
    let m = Measurement { pm1_0_avg: 7, pm2_5_avg: 9 };
    assert_eq!(mean_of(&vec![m]), Some(m));
}

#[test]
fn averager_handles_largest_values() {
    let mut a = Averager::new();
    let big = Measurement { pm1_0_avg: u32::MAX, pm2_5_avg: u32::MAX - 1 };
    assert!(a.add(big));
    assert!(a.add(big));
    assert!(a.add(Measurement { pm1_0_avg: 0, pm2_5_avg: 0 }));
    assert_eq!(a.count(), 3);
    let m = a.finish().unwrap();
    assert_eq!(m.pm1_0_avg, ((2 * u32::MAX as u64) / 3) as u32);
    assert_eq!(m.pm2_5_avg, ((2 * (u32::MAX as u64 - 1)) / 3) as u32);
}

#[test]
fn scanner_resyncs_on_repeated_first_marker() {
    let f = frame_with([1, 2, 3, 4, 5, 6]);
    let mut stream = vec![0x00, 0x42];
    stream.extend_from_slice(&f);
    let got = scan_frame(&stream).expect("frame located");
    assert_eq!(got, f);
}

#[test]
fn scanner_skips_noise_and_false_marker() {
    let f = frame_with([9, 8, 7, 6, 5, 4]);
    let mut stream = vec![0x11, 0x42, 0x00, 0x4D, 0x42, 0x13];
    stream.extend_from_slice(&f);
    stream.extend_from_slice(&[0xaa, 0xbb]);
    assert_eq!(scan_frame(&stream), Some(f));
}

#[test]
fn scanner_incomplete_stream_gives_none() {
    let f = frame_with([1, 1, 1, 1, 1, 1]);
    assert_eq!(scan_frame(&f[..31].to_vec()), None);
    assert_eq!(scan_frame(&vec![0x4D, 0x42, 0x00]), None);
}

#[test]
fn scanner_read_steps() {
    let f = frame_with([0, 0, 0, 300, 400, 500]);
    let mut sc = FrameScanner::new();
    assert_eq!(sc.on_byte(Some(0x42)), FrameRead::Pending);
    for &b in &f[..31] {
        assert_eq!(sc.on_byte(Some(b)), FrameRead::Pending);
    }
    assert_eq!(
        sc.on_byte(Some(f[31])),
        FrameRead::Done(Some(Measurement { pm1_0_avg: 300, pm2_5_avg: 400 }))
    );
    assert!(sc.is_complete());
    let mut other = FrameScanner::new();
    assert_eq!(other.on_byte(None), FrameRead::Failed);
}

#[test]
fn scanner_bad_frame_is_done_without_measurement() {
    let mut f = frame_with([0, 0, 0, 1, 2, 3]);
    f[31] ^= 0xff;
    let mut sc = FrameScanner::new();
    let mut last = FrameRead::Pending;
    for &b in &f {
        last = sc.on_byte(Some(b));
    }
    assert_eq!(last, FrameRead::Done(None));
}
