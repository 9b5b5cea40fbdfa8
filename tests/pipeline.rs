use frame_sampler::convert::{convert, ConversionError};
use frame_sampler::cycle::{Controller, FrameStep, Phase, Stage};
use frame_sampler::report::{format_decimal, report};
use frame_sampler::sampling::{is_sampled, sampling_interval};

/// Drives a controller over a stream of `frames` frames in which the fetch of
/// `fail_at` (if any) fails; every sampled frame converts and is detected.
/// Returns the controller and the indices that went through the detector.
fn run_stream(rounded_fps: u64, frames: u64, fail_at: Option<u64>) -> (Controller, Vec<u64>) {
    let mut c = Controller::new(rounded_fps);
    c.start();
    let mut seen = Vec::new();
    loop {
        let index = c.next_index();
        let fetched = index < frames && Some(index) != fail_at;
        match c.on_frame(fetched) {
            FrameStep::Stop => break,
            FrameStep::Skip => {}
            FrameStep::Process => {
                assert!(c.on_converted(true));
                seen.push(c.current());
                c.on_detections(true);
            }
        }
    }
    (c, seen)
}

#[test]
fn interval_is_clamped_to_one() {
    assert_eq!(sampling_interval(0), 1);
    assert_eq!(sampling_interval(1), 1);
    assert_eq!(sampling_interval(30), 30);
}

#[test]
fn only_multiples_of_the_rate_are_sampled() {
    let interval = sampling_interval(25);
    let picked: Vec<u64> = (0..101).filter(|&i| is_sampled(i, interval)).collect();
    assert_eq!(picked, vec![0, 25, 50, 75, 100]);
    assert!(is_sampled(0, sampling_interval(0)));
    assert!(is_sampled(7, sampling_interval(0)));
    assert!(is_sampled(0, sampling_interval(u64::MAX)));
}

#[test]
fn thirty_fps_ten_seconds_gives_ten_cycles() {
    let (c, seen) = run_stream(30, 300, None);
    assert_eq!(seen, vec![0, 30, 60, 90, 120, 150, 180, 210, 240, 270]);
    assert_eq!(c.processed(), 10);
    assert_eq!(c.phase(), Phase::Draining);
    assert_eq!(c.exit_code(), Some(0));
}

#[test]
fn fetch_failure_at_five_drains_after_frame_zero() {
    let (c, seen) = run_stream(30, 300, Some(5));
    assert_eq!(seen, vec![0]);
    assert_eq!(c.processed(), 1);
    assert_eq!(c.next_index(), 5);
    assert_eq!(c.phase(), Phase::Draining);
    assert_eq!(c.exit_code(), Some(0));
}

#[test]
fn one_by_one_frame_with_two_bytes_is_skipped() {
    let r = convert(&[10, 20], 1, 1);
    assert!(matches!(r, Err(ConversionError::SizeMismatch)));

    let mut c = Controller::new(2);
    c.start();
    assert_eq!(c.on_frame(true), FrameStep::Process);
    assert!(!c.on_converted(r.is_ok()));
    assert_eq!(c.phase(), Phase::Streaming);
    assert_eq!(c.stage(), Stage::AwaitFrame);
    assert_eq!(c.rejected(), 1);
    assert_eq!(c.on_frame(true), FrameStep::Skip);
    assert_eq!(c.on_frame(true), FrameStep::Process);
    assert_eq!(c.current(), 2);
    assert!(c.on_converted(convert(&[1, 2, 3], 1, 1).is_ok()));
    c.on_detections(true);
    assert_eq!(c.processed(), 1);
    assert_eq!(c.exit_code(), None);
}

#[test]
fn empty_detection_set_reports_zero_objects() {
    let lines = report(&Vec::new());
    assert_eq!(lines, vec!["[Bboxes]: Found 0 objects".to_string()]);

    let mut c = Controller::new(1);
    c.start();
    assert_eq!(c.on_frame(true), FrameStep::Process);
    assert!(c.on_converted(true));
    c.on_detections(true);
    assert_eq!(c.phase(), Phase::Streaming);
    assert_eq!(c.on_frame(true), FrameStep::Process);
}

#[test]
fn report_keeps_order_and_count() {
    let texts = vec!["person 0.91".to_string(), "dog 0.55".to_string(), "car 0.40".to_string()];
    let lines = report(&texts);
    assert_eq!(
        lines,
        vec![
            "[Bboxes]: Found 3 objects".to_string(),
            "0: person 0.91".to_string(),
            "1: dog 0.55".to_string(),
            "2: car 0.40".to_string(),
        ]
    );
}

#[test]
fn report_numbers_past_ten() {
    let texts: Vec<String> = (0..12).map(|i| format!("box{}", i)).collect();
    let lines = report(&texts);
    assert_eq!(lines.len(), 13);
    assert_eq!(lines[0], "[Bboxes]: Found 12 objects");
    assert_eq!(lines[11], "10: box10");
    assert_eq!(lines[12], "11: box11");
}

#[test]
fn decimal_formatting() {
    assert_eq!(format_decimal(0), "0");
    assert_eq!(format_decimal(7), "7");
    assert_eq!(format_decimal(10), "10");
    assert_eq!(format_decimal(1234567), "1234567");
    assert_eq!(format_decimal(usize::MAX), usize::MAX.to_string());
}

#[test]
fn conversion_rejects_wrong_lengths() {
    assert!(matches!(convert(&[0; 11], 2, 2), Err(ConversionError::SizeMismatch)));
    assert!(matches!(convert(&[0; 13], 2, 2), Err(ConversionError::SizeMismatch)));
    assert!(matches!(convert(&[0; 4], 2, 2), Err(ConversionError::SizeMismatch)));
}

#[test]
fn conversion_rejects_zero_dimensions() {
    assert!(matches!(convert(&[], 0, 0), Err(ConversionError::SizeMismatch)));
    assert!(matches!(convert(&[], 0, 5), Err(ConversionError::SizeMismatch)));
    assert!(matches!(convert(&[], 5, 0), Err(ConversionError::SizeMismatch)));
}

#[test]
fn conversion_keeps_dimensions_and_pixels() {
    let buffer: Vec<u8> = (0..18).collect();
    let img = convert(&buffer, 3, 2).unwrap();
    assert_eq!(img.width(), 3);
    assert_eq!(img.height(), 2);
    assert_eq!(img.pixels(), buffer.as_slice());
}

#[test]
fn converting_twice_gives_identical_pixels() {
    let buffer: Vec<u8> = (0..27).map(|i| (i * 37 % 256) as u8).collect();
    let a = convert(&buffer, 3, 3).unwrap();
    let b = convert(&buffer, 3, 3).unwrap();
    assert_eq!(a.pixels(), b.pixels());
    assert_eq!((a.width(), a.height()), (b.width(), b.height()));
}

#[test]
fn dynamic_image_holds_the_frame() {
    let buffer: Vec<u8> = vec![255, 0, 0, 0, 255, 0, 0, 0, 255, 9, 8, 7];
    let img = convert(&buffer, 2, 2).unwrap().into_dynamic_image();
    assert_eq!(img.width(), 2);
    assert_eq!(img.height(), 2);
    let rgb = img.to_rgb8();
    assert_eq!(rgb.as_raw(), &buffer);
    assert_eq!(rgb.get_pixel(1, 0).0, [0, 255, 0]);
}

#[test]
fn initialization_failure_exits_nonzero() {
    let c = Controller::failed();
    assert_eq!(c.phase(), Phase::Failed);
    assert_eq!(c.exit_code(), Some(1));
    assert_eq!(Controller::new(30).exit_code(), None);
}

#[test]
fn detector_failure_aborts_the_run() {
    let mut c = Controller::new(10);
    c.start();
    assert_eq!(c.on_frame(true), FrameStep::Process);
    assert!(c.on_converted(true));
    c.on_detections(false);
    assert_eq!(c.phase(), Phase::Aborted);
    assert_eq!(c.processed(), 0);
    assert_eq!(c.exit_code(), Some(1));
}
